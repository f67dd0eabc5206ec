pub mod free_heap_sensor;
pub mod moisture_sensor;
pub mod readings;
pub mod water_pump;
pub mod wifi_rssi_sensor;
