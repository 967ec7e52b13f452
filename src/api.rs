//! The operations offered to the command layer, over a registry of sessions.
use vstd::prelude::*;
use crate::registry::BleState;
use crate::session::{DeviceSession, TelemetryKind};
use crate::types::{BleError, ControlPointRequest};

verus! {

/// Host operating system, as far as BLE support goes.
#[derive(Debug, Clone, Copy, PartialEq, Eq, Structural)]
pub enum Platform {
    Linux,
    MacOs,
    Windows,
    Other,
}

/// BLE is available on Linux, macOS and Windows.
pub fn is_bluetooth_available(platform: Platform) -> (r: bool)
    ensures
        r == !(platform is Other),
{
    match platform {
        Platform::Other => false,
        _ => true,
    }
}

/// The adapters the platform reported, or `NotAvailable` where BLE is not supported.
pub fn get_adapters(platform: Platform, adapters: Vec<String>) -> (r: Result<Vec<String>, BleError>)
    ensures
        platform is Other ==> (r matches Err(BleError::NotAvailable)),
        !(platform is Other) ==> (r matches Ok(a) && a@ == adapters@),
{
    if !is_bluetooth_available(platform) {
        return Err(BleError::NotAvailable);
    }
    Ok(adapters)
}

/// Subscribes the session of `device_id` to heart rate measurements.
pub fn subscribe_heart_rate(state: &mut BleState, device_id: &String) -> (r: Result<bool, BleError>)
    requires
        old(state).wf(),
    ensures
        final(state).wf(),
        !old(state).has_session(device_id@) ==> *final(state) == *old(state) && (r matches Err(
            BleError::DeviceNotFound(id),
        ) && id@ == device_id@),
        final(state).acted_on(
            *old(state),
            device_id@,
            |a: DeviceSession, b: DeviceSession| DeviceSession::subscribed(a, b, TelemetryKind::HeartRate, r),
        ),
{
    state.subscribe(device_id, TelemetryKind::HeartRate)
}

/// Subscribes the session of `device_id` to cycling power measurements.
pub fn subscribe_power(state: &mut BleState, device_id: &String) -> (r: Result<bool, BleError>)
    requires
        old(state).wf(),
    ensures
        final(state).wf(),
        !old(state).has_session(device_id@) ==> *final(state) == *old(state) && (r matches Err(
            BleError::DeviceNotFound(id),
        ) && id@ == device_id@),
        final(state).acted_on(
            *old(state),
            device_id@,
            |a: DeviceSession, b: DeviceSession| DeviceSession::subscribed(a, b, TelemetryKind::Power, r),
        ),
{
    state.subscribe(device_id, TelemetryKind::Power)
}

/// Subscribes the session of `device_id` to speed and cadence measurements.
pub fn subscribe_csc(state: &mut BleState, device_id: &String) -> (r: Result<bool, BleError>)
    requires
        old(state).wf(),
    ensures
        final(state).wf(),
        !old(state).has_session(device_id@) ==> *final(state) == *old(state) && (r matches Err(
            BleError::DeviceNotFound(id),
        ) && id@ == device_id@),
        final(state).acted_on(
            *old(state),
            device_id@,
            |a: DeviceSession, b: DeviceSession| DeviceSession::subscribed(a, b, TelemetryKind::Csc, r),
        ),
{
    state.subscribe(device_id, TelemetryKind::Csc)
}

/// Starts a Set Target Power procedure; `Busy` while another procedure is outstanding.
pub fn set_target_power(state: &mut BleState, device_id: &String, watts: i16, now: u64) -> (r: Result<(Vec<u8>, u64), BleError>)
    requires
        old(state).wf(),
    ensures
        final(state).wf(),
        !old(state).has_session(device_id@) ==> *final(state) == *old(state) && (r matches Err(
            BleError::DeviceNotFound(id),
        ) && id@ == device_id@),
        final(state).acted_on(
            *old(state),
            device_id@,
            |a: DeviceSession, b: DeviceSession|
                DeviceSession::submitted(a, b, ControlPointRequest::SetTargetPower(watts), now, r),
        ),
{
    state.submit(device_id, &ControlPointRequest::SetTargetPower(watts), now)
}

/// Starts a Set Indoor Bike Simulation procedure with parameters in wire units.
pub fn set_simulation(state: &mut BleState, device_id: &String, wind_speed: i16, grade: i16, crr: u8, cw: u8, now: u64) -> (r: Result<(Vec<u8>, u64), BleError>)
    requires
        old(state).wf(),
    ensures
        final(state).wf(),
        !old(state).has_session(device_id@) ==> *final(state) == *old(state) && (r matches Err(
            BleError::DeviceNotFound(id),
        ) && id@ == device_id@),
        final(state).acted_on(
            *old(state),
            device_id@,
            |a: DeviceSession, b: DeviceSession|
                DeviceSession::submitted(
                    a,
                    b,
                    ControlPointRequest::SetIndoorBikeSimulation { wind_speed, grade, crr, cw },
                    now,
                    r,
                ),
        ),
{
    state.submit(device_id, &ControlPointRequest::SetIndoorBikeSimulation { wind_speed, grade, crr, cw }, now)
}

/// Starts a Set Target Resistance Level procedure.
pub fn set_resistance(state: &mut BleState, device_id: &String, level: u8, now: u64) -> (r: Result<(Vec<u8>, u64), BleError>)
    requires
        old(state).wf(),
    ensures
        final(state).wf(),
        !old(state).has_session(device_id@) ==> *final(state) == *old(state) && (r matches Err(
            BleError::DeviceNotFound(id),
        ) && id@ == device_id@),
        final(state).acted_on(
            *old(state),
            device_id@,
            |a: DeviceSession, b: DeviceSession|
                DeviceSession::submitted(a, b, ControlPointRequest::SetTargetResistanceLevel(level), now, r),
        ),
{
    state.submit(device_id, &ControlPointRequest::SetTargetResistanceLevel(level), now)
}

} // verus!
