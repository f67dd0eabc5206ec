use vstd::prelude::*;

use crate::readings::{Readings, StatusPayload};

verus! {

/// Model name under which the Wi-Fi signal sensor is registered with the host.
pub const WIFI_RSSI_MODEL: &'static str = "wifi-rssi";

/// Status code with which the platform reports success.
pub const PLATFORM_OK: i32 = 0;

/// Why a sensor query failed.
#[derive(Clone, Copy, Debug, PartialEq, Eq, Structural)]
pub enum SensorError {
    /// The platform refused the query with this status code.
    Platform(i32),
}

/// Reports the signal strength of the access point the station is associated with.
#[derive(Clone, Copy, Debug, PartialEq, Eq, Structural)]
pub struct WifiRSSISensor;

impl WifiRSSISensor {
    /// Needs no configuration and no dependency: always succeeds.
    pub fn from_config() -> (r: WifiRSSISensor) {
        WifiRSSISensor
    }

    /// The readings for the outcome of one station query, given as the
    /// platform's status code and the signal strength it filled in: the
    /// strength under `"rssi"` on success, else the status code as an error.
    pub fn get_readings(&self, status: i32, rssi: i8) -> (r: Result<Readings, SensorError>)
        ensures
            status == PLATFORM_OK ==> (r matches Ok(readings) && readings@ == seq![
                ("rssi"@, rssi as int),
            ]),
            status != PLATFORM_OK ==> r == Err::<Readings, SensorError>(
                SensorError::Platform(status),
            ),
    {
        if status == PLATFORM_OK {
            Ok(Readings::single("rssi".to_owned(), rssi as i64))
        } else {
            Err(SensorError::Platform(status))
        }
    }

    pub fn get_status(&self) -> (r: StatusPayload)
        ensures
            r@.len() == 0,
    {
        StatusPayload::empty()
    }
}

} // verus!
