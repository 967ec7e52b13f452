//! Records, identifiers and errors shared by the codec, the sessions and the registry.
use vstd::prelude::*;

verus! {

/// A device seen during discovery: an immutable snapshot of one advertisement.
#[derive(Debug, Clone)]
pub struct DeviceInfo {
    pub id: String,
    pub name: Option<String>,
    pub rssi: Option<i16>,
    pub services: Vec<String>,
}

/// What a successful connect reports to the caller.
#[derive(Debug, Clone)]
pub struct ConnectionInfo {
    pub device_id: String,
    pub name: String,
    pub connected: bool,
}

/// A decoded Heart Rate Measurement.
#[derive(Debug, Clone)]
pub struct HeartRateData {
    pub bpm: u16,
    /// Capture time, assigned by the host when the notification was decoded.
    pub timestamp: u64,
    /// Contact is both supported by the sensor and currently detected.
    pub sensor_contact: bool,
    /// RR intervals in units of 1/1024 s.
    pub rr_intervals: Vec<u16>,
}

/// A cumulative wheel revolution count with the time of its last event (1/1024 s units).
#[derive(Debug, Clone, Copy, PartialEq, Eq, Structural)]
pub struct WheelSample {
    pub revolutions: u32,
    pub event_time: u16,
}

/// A cumulative crank revolution count with the time of its last event (1/1024 s units).
#[derive(Debug, Clone, Copy, PartialEq, Eq, Structural)]
pub struct CrankSample {
    pub revolutions: u16,
    pub event_time: u16,
}

/// A decoded Cycling Power Measurement.
#[derive(Debug, Clone, Copy, PartialEq, Eq, Structural)]
pub struct PowerData {
    /// Instantaneous power in watts.
    pub watts: i16,
    /// Crank cadence in revolutions per minute (held at 255), when it could be derived.
    pub cadence: Option<u8>,
    /// The crank revolution data of this measurement, kept for the next derivation.
    pub crank: Option<CrankSample>,
    pub timestamp: u64,
}

/// A decoded Cycling Speed and Cadence measurement.
#[derive(Debug, Clone, Copy, PartialEq, Eq, Structural)]
pub struct CSCData {
    /// Crank cadence in revolutions per minute, when it could be derived.
    pub cadence: Option<u64>,
    /// Wheel speed in wheel revolutions per minute, when it could be derived.
    pub speed: Option<u64>,
    pub wheel: Option<WheelSample>,
    pub crank: Option<CrankSample>,
    pub timestamp: u64,
}

/// A decoded FTMS Indoor Bike Data notification (the fields this layer keeps).
#[derive(Debug, Clone, Copy, PartialEq, Eq, Structural)]
pub struct IndoorBikeData {
    /// Instantaneous speed in units of 0.01 km/h.
    pub speed: Option<u16>,
    /// Instantaneous cadence in units of 0.5 rpm.
    pub cadence: Option<u16>,
    /// Instantaneous power in watts.
    pub power: Option<i16>,
    /// Heart rate in beats per minute.
    pub heart_rate: Option<u8>,
    pub timestamp: u64,
}

/// Why a notification payload could not be decoded.
#[derive(Debug, Clone, Copy, PartialEq, Eq, Structural)]
pub enum DecodeError {
    /// The declared fields need more bytes than the payload holds.
    Truncated,
    /// A control point response carries a result code outside the known set.
    UnknownResultCode(u8),
    /// A control point indication does not start with the response opcode.
    NotAResponse(u8),
}

/// Result code reported by a fitness machine for a control point request.
#[derive(Debug, Clone, Copy, PartialEq, Eq, Structural)]
pub enum ResultCode {
    Success,
    NotSupported,
    InvalidParameter,
    OperationFailed,
    ControlNotPermitted,
}

/// A request written to the FTMS control point.
#[derive(Debug, Clone, Copy, PartialEq, Eq, Structural)]
pub enum ControlPointRequest {
    RequestControl,
    /// Target resistance level, unitless with a resolution of 0.1.
    SetTargetResistanceLevel(u8),
    /// Target power in watts.
    SetTargetPower(i16),
    StartOrResume,
    /// Stop, or pause when `pause` holds.
    StopOrPause { pause: bool },
    /// Simulation parameters, in the order they travel on the wire.
    SetIndoorBikeSimulation {
        /// Wind speed in units of 0.001 m/s.
        wind_speed: i16,
        /// Grade in units of 0.01 %.
        grade: i16,
        /// Rolling resistance coefficient in units of 0.0001.
        crr: u8,
        /// Wind resistance coefficient in units of 0.01 kg/m.
        cw: u8,
    },
}

/// A decoded control point response indication.
#[derive(Debug, Clone, Copy, PartialEq, Eq, Structural)]
pub struct ControlPointResponse {
    /// The opcode of the request this response answers.
    pub request_opcode: u8,
    pub result: ResultCode,
}

/// Failure of a control point procedure.
#[derive(Debug, Clone, Copy, PartialEq, Eq, Structural)]
pub enum ProcedureError {
    /// Another procedure is outstanding on the same device; retry later.
    Busy,
    /// No matching response arrived in time.
    Timeout,
    /// The session disconnected while the procedure was outstanding.
    Cancelled,
    /// The device answered with a result code other than success.
    DeviceRejected(ResultCode),
}

/// Errors of the BLE layer.
#[derive(Debug, Clone)]
pub enum BleError {
    NotAvailable,
    DeviceNotFound(String),
    ConnectionFailed(String),
    NotSupported(String),
    /// The named device has no connected session, so the operation cannot run.
    NotConnected(String),
    /// A handle whose session has been removed from the registry.
    StaleHandle(String),
    Decode(DecodeError),
    Procedure(ProcedureError),
    Io(String),
    Other(String),
}

impl ProcedureError {
    /// Whether trying the same request again may succeed.
    pub fn retry_advisable(&self) -> (r: bool)
        ensures
            r == (*self is Busy || *self is Timeout),
    {
        match self {
            ProcedureError::Busy => true,
            ProcedureError::Timeout => true,
            _ => false,
        }
    }
}

impl BleError {
    /// Whether trying the same operation again may succeed: connection failures (timeouts
    /// among them), transport errors, and busy or timed-out procedures.
    pub fn retry_advisable(&self) -> (r: bool)
        ensures
            r == (*self is ConnectionFailed || *self is Io || (*self matches BleError::Procedure(p) && (
            p is Busy || p is Timeout))),
    {
        match self {
            BleError::ConnectionFailed(_) => true,
            BleError::Io(_) => true,
            BleError::Procedure(p) => p.retry_advisable(),
            _ => false,
        }
    }
}

/// Kind of equipment, judged from the advertised services.
#[derive(Debug, Clone, Copy, PartialEq, Eq, Structural)]
pub enum DeviceType {
    HeartRateMonitor,
    SmartTrainer,
    Unknown,
}

} // verus!
