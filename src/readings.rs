use vstd::prelude::*;

verus! {

/// One named measurement reported by a sensor.
#[derive(Clone, Debug)]
pub struct Reading {
    pub name: String,
    pub value: i64,
}

impl View for Reading {
    type V = (Seq<char>, int);

    open spec fn view(&self) -> (Seq<char>, int) {
        (self.name@, self.value as int)
    }
}

/// The measurements of one sensor query, in the order they were taken.
#[derive(Clone, Debug)]
pub struct Readings {
    pub entries: Vec<Reading>,
}

impl View for Readings {
    type V = Seq<(Seq<char>, int)>;

    open spec fn view(&self) -> Seq<(Seq<char>, int)> {
        self.entries@.map_values(|r: Reading| r@)
    }
}

impl Readings {
    /// A query that produced exactly one measurement.
    pub fn single(name: String, value: i64) -> (r: Readings)
        ensures
            r@ == seq![(name@, value as int)],
    {
        let mut entries: Vec<Reading> = Vec::new();
        entries.push(Reading { name, value });
        let r = Readings { entries };
        assert(r@ =~= seq![(r.entries@[0].name@, value as int)]);
        r
    }
}

/// The diagnostic fields an adapter reports when asked for its status.
#[derive(Clone, Debug)]
pub struct StatusPayload {
    pub fields: Vec<Reading>,
}

impl View for StatusPayload {
    type V = Seq<(Seq<char>, int)>;

    open spec fn view(&self) -> Seq<(Seq<char>, int)> {
        self.fields@.map_values(|r: Reading| r@)
    }
}

impl StatusPayload {
    /// A payload with no fields.
    pub fn empty() -> (r: StatusPayload)
        ensures
            r@.len() == 0,
    {
        StatusPayload { fields: Vec::new() }
    }

    pub fn is_empty(&self) -> (r: bool)
        ensures
            r == (self@.len() == 0),
    {
        self.fields.len() == 0
    }
}

} // verus!
