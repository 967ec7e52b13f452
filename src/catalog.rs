//! GATT service and characteristic identifiers of the supported profiles.
use vstd::prelude::*;

verus! {

pub const HEART_RATE_SERVICE: &'static str = "0000180d-0000-1000-8000-00805f9b34fb";

pub const HEART_RATE_MEASUREMENT: &'static str = "00002a37-0000-1000-8000-00805f9b34fb";

pub const CYCLING_POWER_SERVICE: &'static str = "00001818-0000-1000-8000-00805f9b34fb";

pub const CYCLING_POWER_MEASUREMENT: &'static str = "00002a63-0000-1000-8000-00805f9b34fb";

pub const CSC_SERVICE: &'static str = "00001816-0000-1000-8000-00805f9b34fb";

pub const CSC_MEASUREMENT: &'static str = "00002a5b-0000-1000-8000-00805f9b34fb";

pub const FTMS_SERVICE: &'static str = "00001826-0000-1000-8000-00805f9b34fb";

pub const FTMS_CONTROL_POINT: &'static str = "00002ad9-0000-1000-8000-00805f9b34fb";

pub const FTMS_STATUS: &'static str = "00002ada-0000-1000-8000-00805f9b34fb";

pub const FTMS_INDOOR_BIKE_DATA: &'static str = "00002ad2-0000-1000-8000-00805f9b34fb";

} // verus!
