use fitness_ble::api::{
    get_adapters, is_bluetooth_available, set_resistance, set_simulation, set_target_power,
    subscribe_csc, subscribe_heart_rate, subscribe_power, Platform,
};
use fitness_ble::registry::{BleState, ConnectedDevice};
use fitness_ble::session::{ProcedureCompletion, TelemetryKind};
use fitness_ble::types::{BleError, DeviceType, ProcedureError};

fn with_connected(id: &str) -> BleState {
    let mut state = BleState::new();
    let id = id.to_string();
    state.begin_connect(&id).unwrap();
    state.connect_device(&id, None, DeviceType::Unknown, true).unwrap();
    state
}

#[test]
fn concurrent_connects_yield_one_session() {
    let mut state = BleState::new();
    let id = "X".to_string();
    assert_eq!(state.begin_connect(&id).unwrap(), 0);
    match state.begin_connect(&id) {
        Err(BleError::Other(msg)) => assert_eq!(msg, "session already active"),
        _ => panic!("expected the second connect to be refused"),
    }
    assert_eq!(state.sessions.len(), 1);
    let info = state.connect_device(&id, None, DeviceType::Unknown, true).unwrap();
    assert_eq!(info.device_id, "X");
    assert_eq!(info.name, "Device X");
    assert!(info.connected);
    assert!(matches!(state.begin_connect(&id), Err(BleError::Other(_))));
    assert_eq!(state.sessions.len(), 1);
}

#[test]
fn connect_outcomes() {
    let mut state = BleState::new();
    let id = "hrm".to_string();
    match state.connect_device(&id, None, DeviceType::Unknown, true) {
        Err(BleError::DeviceNotFound(d)) => assert_eq!(d, "hrm"),
        _ => panic!("expected DeviceNotFound"),
    }
    state.begin_connect(&id).unwrap();
    assert!(matches!(state.connect_device(&id, None, DeviceType::Unknown, false), Err(BleError::ConnectionFailed(_))));
    assert!(state.sessions.is_empty());
    state.begin_connect(&id).unwrap();
    let info = state.connect_device(&id, Some("Polar H10".to_string()), DeviceType::HeartRateMonitor, true).unwrap();
    assert_eq!(info.name, "Polar H10");
    assert!(matches!(state.connect_device(&id, None, DeviceType::Unknown, true), Err(BleError::ConnectionFailed(_))));
}

#[test]
fn handles_go_stale_after_disconnect() {
    let mut state = with_connected("trainer");
    let id = "trainer".to_string();
    let handle = state.lookup(&id).unwrap();
    assert!(state.check_handle(&handle).is_ok());
    assert_eq!(state.disconnect_device(&id), None);
    assert!(state.lookup(&id).is_none());
    assert!(matches!(state.check_handle(&handle), Err(BleError::StaleHandle(_))));
    state.begin_connect(&id).unwrap();
    let fresh = state.lookup(&id).unwrap();
    assert_ne!(fresh.generation, handle.generation);
    assert!(matches!(state.check_handle(&handle), Err(BleError::StaleHandle(_))));
    assert_eq!(state.disconnect_device(&"absent".to_string()), None);
}

#[test]
fn registry_busy_and_cancel() {
    let mut state = with_connected("trainer");
    let id = "trainer".to_string();
    let (bytes, token) = state.submit(&id, &fitness_ble::types::ControlPointRequest::StartOrResume, 0).unwrap();
    assert_eq!(bytes, vec![0x07]);
    assert!(matches!(set_target_power(&mut state, &id, 180, 1), Err(BleError::Procedure(ProcedureError::Busy))));
    assert_eq!(
        state.disconnect_device(&id),
        Some(ProcedureCompletion { token, outcome: Err(ProcedureError::Cancelled) })
    );
    assert!(state.sessions.is_empty());
}

#[test]
fn registry_control_commands() {
    let mut state = with_connected("trainer");
    let id = "trainer".to_string();
    let (bytes, _) = set_target_power(&mut state, &id, 200, 0).unwrap();
    assert_eq!(bytes, vec![0x05, 0xC8, 0x00]);
    assert_eq!(state.handle_indication(&id, &vec![0x80, 0x05, 0x01]).unwrap().unwrap().unwrap().outcome, Ok(()));
    let (bytes, _) = set_resistance(&mut state, &id, 20, 0).unwrap();
    assert_eq!(bytes, vec![0x04, 20]);
    assert!(state.expire_pending(&id, 10, 5).is_some());
    let (bytes, _) = set_simulation(&mut state, &id, 0, -100, 40, 51, 0).unwrap();
    assert_eq!(bytes, vec![0x11, 0x00, 0x00, 0x9C, 0xFF, 40, 51]);
    assert!(matches!(set_target_power(&mut state, &"x".to_string(), 1, 0), Err(BleError::DeviceNotFound(_))));
}

#[test]
fn registry_subscriptions_and_notifications() {
    let mut state = with_connected("bike");
    let id = "bike".to_string();
    assert_eq!(subscribe_heart_rate(&mut state, &id).unwrap(), true);
    assert_eq!(subscribe_power(&mut state, &id).unwrap(), true);
    assert_eq!(subscribe_csc(&mut state, &id).unwrap(), true);
    assert_eq!(subscribe_csc(&mut state, &id).unwrap(), false);
    assert!(matches!(subscribe_power(&mut state, &"none".to_string()), Err(BleError::DeviceNotFound(_))));
    assert_eq!(state.handle_notification(&id, TelemetryKind::HeartRate, &vec![0x00, 0x64], 1), Some(Ok(())));
    assert_eq!(state.sessions[0].last_heart_rate.as_ref().unwrap().bpm, 100);
    assert_eq!(state.handle_notification(&"none".to_string(), TelemetryKind::HeartRate, &vec![0x00, 0x64], 1), None);
}

#[test]
fn availability_and_adapters() {
    assert!(is_bluetooth_available(Platform::Linux));
    assert!(is_bluetooth_available(Platform::MacOs));
    assert!(is_bluetooth_available(Platform::Windows));
    assert!(!is_bluetooth_available(Platform::Other));
    assert!(matches!(get_adapters(Platform::Other, vec![]), Err(BleError::NotAvailable)));
    assert_eq!(get_adapters(Platform::Linux, vec!["hci0".to_string()]).unwrap(), vec!["hci0".to_string()]);
}

#[test]
fn connected_devices_lists_connected_sessions() {
    let mut state = BleState::new();
    let hrm = "hrm".to_string();
    let trainer = "trainer".to_string();
    state.begin_connect(&hrm).unwrap();
    state.begin_connect(&trainer).unwrap();
    state.connect_device(&trainer, Some("Kickr".to_string()), DeviceType::SmartTrainer, true).unwrap();
    let listed: Vec<ConnectedDevice> = state.connected_devices();
    assert_eq!(listed.len(), 1);
    assert_eq!(listed[0].id, "trainer");
    assert_eq!(listed[0].name, "Kickr");
    assert_eq!(listed[0].device_type, DeviceType::SmartTrainer);
    state.connect_device(&hrm, None, DeviceType::HeartRateMonitor, true).unwrap();
    assert_eq!(state.connected_devices().len(), 2);
    state.disconnect_device(&trainer);
    let listed = state.connected_devices();
    assert_eq!(listed.len(), 1);
    assert_eq!(listed[0].name, "Device hrm");
}

#[test]
fn default_registry_is_empty() {
    let mut state = BleState::default();
    assert!(state.sessions.is_empty());
    assert_eq!(state.next_generation, 0);
    assert_eq!(state.begin_connect(&"a".to_string()).unwrap(), 0);
}
