use vstd::prelude::*;

use crate::readings::{Readings, StatusPayload};

verus! {

/// Model name under which the moisture sensor is registered with the host.
pub const MOISTURE_MODEL: &'static str = "moisture";

/// Name of the board's analog reader that the moisture probe is wired to.
pub const MOISTURE_READER: &'static str = "moisture";

/// A soil moisture probe read through one analog channel of the board.
#[derive(Clone, Copy, Debug, PartialEq, Eq, Structural)]
pub struct MoistureSensor;

impl MoistureSensor {
    pub fn new() -> (r: MoistureSensor) {
        MoistureSensor
    }

    /// The readings for the outcome of one analog read: the raw sample,
    /// unchanged, under `"millivolts"`; a failed read is passed on as it came.
    pub fn get_readings<E>(&self, sample: Result<u16, E>) -> (r: Result<Readings, E>)
        ensures
            sample matches Ok(v) ==> (r matches Ok(readings) && readings@ == seq![
                ("millivolts"@, v as int),
            ]),
            sample matches Err(e) ==> (r matches Err(e2) && e2 == e),
    {
        match sample {
            Ok(v) => Ok(Readings::single("millivolts".to_owned(), v as i64)),
            Err(e) => Err(e),
        }
    }

    pub fn get_status(&self) -> (r: StatusPayload)
        ensures
            r@.len() == 0,
    {
        StatusPayload::empty()
    }
}

} // verus!
