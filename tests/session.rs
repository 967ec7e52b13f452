use fitness_ble::session::{ConnectionState, DeviceSession, ProcedureCompletion, TelemetryKind};
use fitness_ble::types::{BleError, ControlPointRequest, DecodeError, ProcedureError, ResultCode};

fn connected(id: &str) -> DeviceSession {
    let mut s = DeviceSession::new(id.to_string(), 0);
    s.begin_connect().unwrap();
    s.connect_succeeded().unwrap();
    s
}

#[test]
fn connection_state_machine() {
    let mut s = DeviceSession::new("dev".to_string(), 0);
    assert_eq!(s.state, ConnectionState::Disconnected);
    assert!(s.begin_connect().is_ok());
    assert_eq!(s.state, ConnectionState::Connecting);
    assert!(matches!(s.begin_connect(), Err(BleError::Other(_))));
    match s.connect_failed() {
        BleError::ConnectionFailed(id) => assert_eq!(id, "dev"),
        _ => panic!("expected ConnectionFailed"),
    }
    assert_eq!(s.state, ConnectionState::Disconnected);
    assert!(matches!(s.connect_succeeded(), Err(BleError::ConnectionFailed(_))));
    s.begin_connect().unwrap();
    s.connect_succeeded().unwrap();
    assert_eq!(s.state, ConnectionState::Connected);
    assert!(s.begin_disconnect());
    assert_eq!(s.state, ConnectionState::Disconnecting);
    assert!(!s.begin_disconnect());
    assert_eq!(s.finish_disconnect(), None);
    assert_eq!(s.state, ConnectionState::Disconnected);
    assert_eq!(s.disconnect(), None);
    assert_eq!(s.state, ConnectionState::Disconnected);
}

#[test]
fn subscriptions_need_a_connection() {
    let mut s = DeviceSession::new("hrm".to_string(), 0);
    match s.subscribe(TelemetryKind::HeartRate) {
        Err(BleError::NotConnected(id)) => assert_eq!(id, "hrm"),
        _ => panic!("expected NotConnected"),
    }
    let mut s = connected("hrm");
    assert_eq!(s.subscribe(TelemetryKind::HeartRate).unwrap(), true);
    assert_eq!(s.subscribe(TelemetryKind::HeartRate).unwrap(), false);
    assert_eq!(s.subscribe(TelemetryKind::Power).unwrap(), true);
    assert_eq!(s.subscriptions, vec![TelemetryKind::HeartRate, TelemetryKind::Power]);
    assert!(s.is_subscribed(TelemetryKind::Power));
    assert!(!s.is_subscribed(TelemetryKind::Csc));
    s.disconnect();
    assert!(s.subscriptions.is_empty());
}

#[test]
fn notifications_update_last_values() {
    let mut s = connected("trainer");
    assert!(s.handle_notification(TelemetryKind::HeartRate, &vec![0x00, 0x48], 5).is_ok());
    assert_eq!(s.last_heart_rate.as_ref().unwrap().bpm, 72);
    assert_eq!(s.handle_notification(TelemetryKind::HeartRate, &vec![0x01, 0x48], 6), Err(DecodeError::Truncated));
    assert_eq!(s.last_heart_rate.as_ref().unwrap().timestamp, 5);
    s.handle_notification(TelemetryKind::Csc, &vec![0x01, 100, 0, 0, 0, 0x00, 0x00], 1).unwrap();
    s.handle_notification(TelemetryKind::Csc, &vec![0x01, 105, 0, 0, 0, 0x00, 0x04], 2).unwrap();
    assert_eq!(s.last_csc.unwrap().speed, Some(300));
    s.handle_notification(TelemetryKind::Power, &vec![0x20, 0x00, 0x64, 0x00, 0x09, 0x00, 0x00, 0x00], 1).unwrap();
    s.handle_notification(TelemetryKind::Power, &vec![0x20, 0x00, 0x64, 0x00, 0x0A, 0x00, 0x00, 0x04], 2).unwrap();
    assert_eq!(s.last_power.unwrap().cadence, Some(60));
    s.handle_notification(TelemetryKind::IndoorBikeData, &vec![0x41, 0x00, 0x64, 0x00], 3).unwrap();
    assert_eq!(s.last_indoor_bike.unwrap().power, Some(100));
}

#[test]
fn second_submit_is_busy() {
    let mut s = connected("trainer");
    let (bytes, token) = s.submit(&ControlPointRequest::RequestControl, 10).unwrap();
    assert_eq!(bytes, vec![0x00]);
    assert_eq!(token, 0);
    assert!(matches!(
        s.submit(&ControlPointRequest::SetTargetPower(150), 11),
        Err(BleError::Procedure(ProcedureError::Busy))
    ));
    assert_eq!(s.pending.unwrap().opcode, 0x00);
}

#[test]
fn submit_needs_a_connection() {
    let mut s = DeviceSession::new("trainer".to_string(), 0);
    assert!(matches!(s.submit(&ControlPointRequest::StartOrResume, 0), Err(BleError::NotConnected(_))));
    assert!(s.pending.is_none());
}

#[test]
fn indication_resolves_matching_procedure() {
    let mut s = connected("trainer");
    let (_, token) = s.submit(&ControlPointRequest::SetTargetPower(200), 0).unwrap();
    assert_eq!(s.handle_control_point_indication(&vec![0x80, 0x00, 0x01]), Ok(None));
    assert!(s.pending.is_some());
    assert_eq!(s.handle_control_point_indication(&vec![0x80, 0x05]), Err(DecodeError::Truncated));
    assert!(s.pending.is_some());
    assert_eq!(
        s.handle_control_point_indication(&vec![0x80, 0x05, 0x01]),
        Ok(Some(ProcedureCompletion { token, outcome: Ok(()) }))
    );
    assert!(s.pending.is_none());
    let (_, token) = s.submit(&ControlPointRequest::SetTargetResistanceLevel(9), 0).unwrap();
    assert_eq!(token, 1);
    assert_eq!(
        s.handle_control_point_indication(&vec![0x80, 0x04, 0x03]),
        Ok(Some(ProcedureCompletion {
            token,
            outcome: Err(ProcedureError::DeviceRejected(ResultCode::InvalidParameter))
        }))
    );
}

#[test]
fn pending_procedure_times_out() {
    let mut s = connected("trainer");
    let (_, token) = s.submit(&ControlPointRequest::StartOrResume, 100).unwrap();
    assert_eq!(s.expire_pending(150, 100), None);
    assert!(s.pending.is_some());
    assert_eq!(
        s.expire_pending(200, 100),
        Some(ProcedureCompletion { token, outcome: Err(ProcedureError::Timeout) })
    );
    assert!(s.pending.is_none());
    assert!(ProcedureError::Timeout.retry_advisable());
    assert!(ProcedureError::Busy.retry_advisable());
    assert!(!ProcedureError::DeviceRejected(ResultCode::NotSupported).retry_advisable());
}

#[test]
fn disconnect_cancels_pending_procedure() {
    let mut s = connected("trainer");
    let (_, token) = s.submit(&ControlPointRequest::SetTargetPower(100), 0).unwrap();
    assert_eq!(
        s.disconnect(),
        Some(ProcedureCompletion { token, outcome: Err(ProcedureError::Cancelled) })
    );
    assert!(s.pending.is_none());
    assert_eq!(s.state, ConnectionState::Disconnected);
}

#[test]
fn error_retry_classification() {
    assert!(BleError::Procedure(ProcedureError::Busy).retry_advisable());
    assert!(BleError::ConnectionFailed("x".to_string()).retry_advisable());
    assert!(!BleError::NotSupported("x".to_string()).retry_advisable());
    assert!(!BleError::Procedure(ProcedureError::DeviceRejected(ResultCode::NotSupported)).retry_advisable());
    assert!(!BleError::Decode(DecodeError::Truncated).retry_advisable());
}
