use vstd::prelude::*;

use crate::readings::{Readings, StatusPayload};

verus! {

/// Model name under which the free-heap sensor is registered with the host.
pub const FREE_HEAP_MODEL: &'static str = "free-heap";

/// Reports how much heap memory the device has left, in bytes.
#[derive(Clone, Copy, Debug, PartialEq, Eq, Structural)]
pub struct FreeHeapSensor;

impl FreeHeapSensor {
    /// Needs no configuration and no dependency: always succeeds.
    pub fn from_config() -> (r: FreeHeapSensor) {
        FreeHeapSensor
    }

    /// The readings for one memory query: the free heap in bytes under `"free_heap"`.
    pub fn get_readings(&self, free_bytes: u32) -> (r: Readings)
        ensures
            r@ == seq![("free_heap"@, free_bytes as int)],
    {
        Readings::single("free_heap".to_owned(), free_bytes as i64)
    }

    pub fn get_status(&self) -> (r: StatusPayload)
        ensures
            r@.len() == 0,
    {
        StatusPayload::empty()
    }
}

} // verus!
