//! One device session: connection state machine, subscriptions, last telemetry and the
//! single outstanding control point procedure.
use vstd::prelude::*;
use crate::codec::{
    control_point_bytes, control_point_response_spec, csc_spec, decode_control_point_response,
    decode_csc, decode_heart_rate, decode_indoor_bike_data, decode_power, encode_control_point,
    heart_rate_decoded, indoor_bike_spec, opcode, opcode_of, power_spec,
};
use crate::types::{
    BleError, CSCData, DeviceType, ControlPointRequest, DecodeError, HeartRateData, IndoorBikeData, PowerData,
    ProcedureError, ResultCode,
};

verus! {

/// Connection state of a device session.
#[derive(Debug, Clone, Copy, PartialEq, Eq, Structural)]
pub enum ConnectionState {
    Disconnected,
    Connecting,
    Connected,
    Disconnecting,
}

/// A telemetry characteristic a session can subscribe to.
#[derive(Debug, Clone, Copy, PartialEq, Eq, Structural)]
pub enum TelemetryKind {
    HeartRate,
    Power,
    Csc,
    IndoorBikeData,
}

/// The control point procedure in flight on a session.
#[derive(Debug, Clone, Copy, PartialEq, Eq, Structural)]
pub struct PendingProcedure {
    pub opcode: u8,
    /// Sequence token, increasing over the life of the session.
    pub token: u64,
    pub created_at: u64,
}

/// How a procedure ended, for the caller that submitted it under `token`.
#[derive(Debug, Clone, Copy, PartialEq, Eq)]
pub struct ProcedureCompletion {
    pub token: u64,
    pub outcome: Result<(), ProcedureError>,
}

pub open spec fn cancelled(p: Option<PendingProcedure>) -> Option<ProcedureCompletion> {
    match p {
        Some(p) => Some(ProcedureCompletion { token: p.token, outcome: Err(ProcedureError::Cancelled) }),
        None => None,
    }
}

pub open spec fn answered(token: u64, result: ResultCode) -> ProcedureCompletion {
    ProcedureCompletion {
        token,
        outcome: if result == ResultCode::Success {
            Ok(())
        } else {
            Err(ProcedureError::DeviceRejected(result))
        },
    }
}

/// State of one peripheral.
pub struct DeviceSession {
    pub device_id: String,
    /// Identifies this session among all sessions ever made for the same device.
    pub generation: u64,
    pub state: ConnectionState,
    pub subscriptions: Vec<TelemetryKind>,
    pub last_heart_rate: Option<HeartRateData>,
    pub last_power: Option<PowerData>,
    pub last_csc: Option<CSCData>,
    pub last_indoor_bike: Option<IndoorBikeData>,
    pub pending: Option<PendingProcedure>,
    pub next_token: u64,
    /// Name reported when the connection was made; empty before that.
    pub name: String,
    pub device_type: DeviceType,
}

impl DeviceSession {
    /// Subscriptions are distinct; a session that is not (yet) up has none and no
    /// procedure; every issued token is below `next_token`.
    pub open spec fn wf(&self) -> bool {
        &&& self.subscriptions@.no_duplicates()
        &&& (self.state is Disconnected || self.state is Connecting) ==> self.subscriptions@.len() == 0
            && self.pending is None
        &&& self.pending matches Some(p) ==> p.token < self.next_token
    }

    /// What `subscribe` does to a session and returns.
    pub open spec fn subscribed(old: DeviceSession, new: DeviceSession, kind: TelemetryKind, r: Result<bool, BleError>) -> bool {
        if !(old.state is Connected) {
            new == old && (r matches Err(BleError::NotConnected(id)) && id@ == old.device_id@)
        } else if old.subscriptions@.contains(kind) {
            r == Ok::<bool, BleError>(false) && new == old
        } else {
            r == Ok::<bool, BleError>(true) && new.subscriptions@ == old.subscriptions@.push(kind)
                && new == (DeviceSession { subscriptions: new.subscriptions, ..old })
        }
    }

    /// What `handle_notification` does to a session and returns.
    pub open spec fn notified(old: DeviceSession, new: DeviceSession, kind: TelemetryKind, bytes: Seq<u8>, timestamp: u64, r: Result<(), DecodeError>) -> bool {
        &&& r is Err ==> new == old
        &&& kind is HeartRate ==> match r {
            Ok(_) => (new.last_heart_rate matches Some(d) && heart_rate_decoded(bytes, timestamp, Ok(d)))
                && new == (DeviceSession { last_heart_rate: new.last_heart_rate, ..old }),
            Err(e) => heart_rate_decoded(bytes, timestamp, Err(e)),
        }
        &&& kind is Power ==> match power_spec(bytes, old.prev_power_crank(), timestamp) {
            Ok(d) => r is Ok && new == (DeviceSession { last_power: Some(d), ..old }),
            Err(e) => r == Err::<(), DecodeError>(e),
        }
        &&& kind is Csc ==> match csc_spec(bytes, old.prev_csc_wheel(), old.prev_csc_crank(), timestamp) {
            Ok(d) => r is Ok && new == (DeviceSession { last_csc: Some(d), ..old }),
            Err(e) => r == Err::<(), DecodeError>(e),
        }
        &&& kind is IndoorBikeData ==> match indoor_bike_spec(bytes, timestamp) {
            Ok(d) => r is Ok && new == (DeviceSession { last_indoor_bike: Some(d), ..old }),
            Err(e) => r == Err::<(), DecodeError>(e),
        }
    }

    /// What `submit` does to a session and returns.
    pub open spec fn submitted(old: DeviceSession, new: DeviceSession, request: ControlPointRequest, now: u64, r: Result<(Vec<u8>, u64), BleError>) -> bool {
        if !(old.state is Connected) {
            new == old && (r matches Err(BleError::NotConnected(id)) && id@ == old.device_id@)
        } else if old.pending is Some {
            new == old && (r matches Err(BleError::Procedure(ProcedureError::Busy)))
        } else if old.next_token == u64::MAX {
            new == old && (r matches Err(BleError::Other(_)))
        } else {
            &&& r matches Ok((bytes, token))
            &&& r->Ok_0.0@ == control_point_bytes(request)
            &&& r->Ok_0.1 == old.next_token
            &&& new == (DeviceSession {
                pending: Some(
                    PendingProcedure { opcode: opcode_of(request), token: old.next_token, created_at: now },
                ),
                next_token: (old.next_token + 1) as u64,
                ..old
            })
        }
    }

    /// What `handle_control_point_indication` does to a session and returns.
    pub open spec fn indicated(old: DeviceSession, new: DeviceSession, bytes: Seq<u8>, r: Result<Option<ProcedureCompletion>, DecodeError>) -> bool {
        match control_point_response_spec(bytes) {
            Err(e) => r == Err::<Option<ProcedureCompletion>, DecodeError>(e) && new == old,
            Ok(resp) => if old.pending is Some && old.pending->0.opcode == resp.request_opcode {
                r == Ok::<Option<ProcedureCompletion>, DecodeError>(Some(answered(old.pending->0.token, resp.result)))
                    && new == (DeviceSession { pending: None, ..old })
            } else {
                r == Ok::<Option<ProcedureCompletion>, DecodeError>(None) && new == old
            },
        }
    }

    /// Whether the outstanding procedure, if any, has run for at least `timeout` at `now`.
    pub open spec fn overdue(pending: Option<PendingProcedure>, now: u64, timeout: u64) -> bool {
        pending matches Some(p) && now >= p.created_at && now - p.created_at >= timeout
    }

    /// What `expire_pending` does to a session and returns.
    pub open spec fn expired(old: DeviceSession, new: DeviceSession, now: u64, timeout: u64, r: Option<ProcedureCompletion>) -> bool {
        if Self::overdue(old.pending, now, timeout) {
            r == Some(ProcedureCompletion { token: old.pending->0.token, outcome: Err(ProcedureError::Timeout) })
                && new == (DeviceSession { pending: None, ..old })
        } else {
            r is None && new == old
        }
    }

    /// A fresh session in the `Disconnected` state.
    pub fn new(device_id: String, generation: u64) -> (r: Self)
        ensures
            r.wf(),
            r.device_id == device_id,
            r.generation == generation,
            r.state is Disconnected,
            r.subscriptions@.len() == 0,
            r.last_heart_rate is None,
            r.last_power is None,
            r.last_csc is None,
            r.last_indoor_bike is None,
            r.pending is None,
            r.next_token == 0,
            r.name@.len() == 0,
            r.device_type is Unknown,
    {
        DeviceSession {
            device_id,
            generation,
            state: ConnectionState::Disconnected,
            subscriptions: Vec::new(),
            last_heart_rate: None,
            last_power: None,
            last_csc: None,
            last_indoor_bike: None,
            pending: None,
            next_token: 0,
            name: String::new(),
            device_type: DeviceType::Unknown,
        }
    }

    /// Starts a connection attempt; refused while another attempt or connection is live.
    pub fn begin_connect(&mut self) -> (r: Result<(), BleError>)
        requires
            old(self).wf(),
        ensures
            final(self).wf(),
            old(self).state is Disconnected ==> r is Ok && *final(self) == (DeviceSession {
                state: ConnectionState::Connecting,
                ..*old(self)
            }),
            !(old(self).state is Disconnected) ==> (r matches Err(BleError::Other(_))) && *final(self)
                == *old(self),
    {
        if self.state == ConnectionState::Disconnected {
            self.state = ConnectionState::Connecting;
            Ok(())
        } else {
            Err(BleError::Other("session already active".to_string()))
        }
    }

    /// Records a successful platform connect. An outcome that arrives when no attempt is in
    /// progress changes nothing and is reported as a failed connection.
    pub fn connect_succeeded(&mut self) -> (r: Result<(), BleError>)
        requires
            old(self).wf(),
        ensures
            final(self).wf(),
            old(self).state is Connecting ==> r is Ok && *final(self) == (DeviceSession {
                state: ConnectionState::Connected,
                ..*old(self)
            }),
            !(old(self).state is Connecting) ==> *final(self) == *old(self) && (r matches Err(
                BleError::ConnectionFailed(id),
            ) && id@ == old(self).device_id@),
    {
        if self.state == ConnectionState::Connecting {
            self.state = ConnectionState::Connected;
            Ok(())
        } else {
            Err(BleError::ConnectionFailed(self.device_id.clone()))
        }
    }

    /// Records a failed or timed-out platform connect: an attempt in progress falls back to
    /// `Disconnected`.
    pub fn connect_failed(&mut self) -> (r: BleError)
        requires
            old(self).wf(),
        ensures
            final(self).wf(),
            (r matches BleError::ConnectionFailed(id) && id@ == old(self).device_id@),
            old(self).state is Connecting ==> *final(self) == (DeviceSession {
                state: ConnectionState::Disconnected,
                ..*old(self)
            }),
            !(old(self).state is Connecting) ==> *final(self) == *old(self),
    {
        if self.state == ConnectionState::Connecting {
            self.state = ConnectionState::Disconnected;
        }
        BleError::ConnectionFailed(self.device_id.clone())
    }

    /// Marks a live session as disconnecting; returns whether a platform disconnect is due.
    /// From `Disconnected` or `Disconnecting` this is a no-op.
    pub fn begin_disconnect(&mut self) -> (r: bool)
        requires
            old(self).wf(),
        ensures
            final(self).wf(),
            r == (old(self).state is Connected || old(self).state is Connecting),
            r ==> *final(self) == (DeviceSession {
                state: ConnectionState::Disconnecting,
                ..*old(self)
            }),
            !r ==> *final(self) == *old(self),
    {
        if self.state == ConnectionState::Connected || self.state == ConnectionState::Connecting {
            self.state = ConnectionState::Disconnecting;
            true
        } else {
            false
        }
    }

    /// Completes a disconnect: the session becomes `Disconnected` with no subscriptions, and
    /// the outstanding procedure, if any, is resolved as cancelled.
    pub fn finish_disconnect(&mut self) -> (r: Option<ProcedureCompletion>)
        requires
            old(self).wf(),
        ensures
            final(self).wf(),
            r == cancelled(old(self).pending),
            final(self).state is Disconnected,
            final(self).subscriptions@.len() == 0,
            final(self).pending is None,
            final(self).device_id == old(self).device_id,
            final(self).generation == old(self).generation,
            final(self).next_token == old(self).next_token,
            final(self).last_heart_rate == old(self).last_heart_rate,
            final(self).last_power == old(self).last_power,
            final(self).last_csc == old(self).last_csc,
            final(self).last_indoor_bike == old(self).last_indoor_bike,
    {
        self.state = ConnectionState::Disconnected;
        self.subscriptions = Vec::new();
        let r = match self.pending {
            Some(p) => Some(ProcedureCompletion { token: p.token, outcome: Err(ProcedureError::Cancelled) }),
            None => None,
        };
        self.pending = None;
        r
    }

    /// Whether `kind` is among the active subscriptions.
    pub fn is_subscribed(&self, kind: TelemetryKind) -> (r: bool)
        ensures
            r == self.subscriptions@.contains(kind),
    {
        let mut i: usize = 0;
        while i < self.subscriptions.len()
            invariant
                i <= self.subscriptions@.len(),
                forall|j: int| 0 <= j < i ==> self.subscriptions@[j] != kind,
            decreases self.subscriptions@.len() - i,
        {
            if self.subscriptions[i] == kind {
                return true;
            }
            i = i + 1;
        }
        false
    }

    /// Records a subscription. Returns `Ok(true)` when it is new and `Ok(false)` when it was
    /// already active; fails naming the device unless the session is connected.
    pub fn subscribe(&mut self, kind: TelemetryKind) -> (r: Result<bool, BleError>)
        requires
            old(self).wf(),
        ensures
            final(self).wf(),
            Self::subscribed(*old(self), *final(self), kind, r),
    {
        if self.state != ConnectionState::Connected {
            return Err(BleError::NotConnected(self.device_id.clone()));
        }
        if self.is_subscribed(kind) {
            return Ok(false);
        }
        self.subscriptions.push(kind);
        Ok(true)
    }

    /// Crank data of the last power record, against which the next cadence is derived.
    pub open spec fn prev_power_crank(&self) -> Option<crate::types::CrankSample> {
        match self.last_power {
            Some(p) => p.crank,
            None => None,
        }
    }

    pub open spec fn prev_csc_wheel(&self) -> Option<crate::types::WheelSample> {
        match self.last_csc {
            Some(c) => c.wheel,
            None => None,
        }
    }

    pub open spec fn prev_csc_crank(&self) -> Option<crate::types::CrankSample> {
        match self.last_csc {
            Some(c) => c.crank,
            None => None,
        }
    }

    /// Decodes a telemetry notification of kind `kind` captured at `timestamp` and makes it
    /// the last known value of that kind. A malformed payload is reported and changes nothing.
    /// The payload is taken as it comes, whatever the subscriptions and connection state: the
    /// platform delivers notifications only for subscribed characteristics of a connected
    /// device, and a value that arrives while the session winds down is still a valid reading.
    pub fn handle_notification(&mut self, kind: TelemetryKind, bytes: &Vec<u8>, timestamp: u64) -> (r: Result<(), DecodeError>)
        requires
            old(self).wf(),
        ensures
            final(self).wf(),
            Self::notified(*old(self), *final(self), kind, bytes@, timestamp, r),
    {
        match kind {
            TelemetryKind::HeartRate => {
                let d = decode_heart_rate(bytes, timestamp)?;
                self.last_heart_rate = Some(d);
            },
            TelemetryKind::Power => {
                let prev = match self.last_power {
                    Some(p) => p.crank,
                    None => None,
                };
                let d = decode_power(bytes, prev, timestamp)?;
                self.last_power = Some(d);
            },
            TelemetryKind::Csc => {
                let (wheel, crank) = match self.last_csc {
                    Some(c) => (c.wheel, c.crank),
                    None => (None, None),
                };
                let d = decode_csc(bytes, wheel, crank, timestamp)?;
                self.last_csc = Some(d);
            },
            TelemetryKind::IndoorBikeData => {
                let d = decode_indoor_bike_data(bytes, timestamp)?;
                self.last_indoor_bike = Some(d);
            },
        }
        Ok(())
    }

    /// Starts a control point procedure: on a connected session with none outstanding it
    /// records the request under a fresh token and returns the bytes to write with that token.
    /// A second request while one is outstanding fails at once with `Busy`.
    pub fn submit(&mut self, request: &ControlPointRequest, now: u64) -> (r: Result<(Vec<u8>, u64), BleError>)
        requires
            old(self).wf(),
        ensures
            final(self).wf(),
            Self::submitted(*old(self), *final(self), *request, now, r),
    {
        if self.state != ConnectionState::Connected {
            return Err(BleError::NotConnected(self.device_id.clone()));
        }
        if self.pending.is_some() {
            return Err(BleError::Procedure(ProcedureError::Busy));
        }
        if self.next_token == u64::MAX {
            return Err(BleError::Other("procedure tokens exhausted".to_string()));
        }
        let token = self.next_token;
        self.pending = Some(PendingProcedure { opcode: opcode(request), token, created_at: now });
        self.next_token = token + 1;
        Ok((encode_control_point(request), token))
    }

    /// Handles a control point indication. A response echoing the opcode of the outstanding
    /// procedure resolves it; any other well-formed response is ignored; a malformed one is
    /// reported and changes nothing.
    pub fn handle_control_point_indication(&mut self, bytes: &Vec<u8>) -> (r: Result<Option<ProcedureCompletion>, DecodeError>)
        requires
            old(self).wf(),
        ensures
            final(self).wf(),
            Self::indicated(*old(self), *final(self), bytes@, r),
    {
        let resp = decode_control_point_response(bytes)?;
        match self.pending {
            Some(p) => {
                if p.opcode == resp.request_opcode {
                    self.pending = None;
                    let outcome = match resp.result {
                        ResultCode::Success => Ok(()),
                        other => Err(ProcedureError::DeviceRejected(other)),
                    };
                    Ok(Some(ProcedureCompletion { token: p.token, outcome }))
                } else {
                    Ok(None)
                }
            },
            None => Ok(None),
        }
    }

    /// Resolves the outstanding procedure as timed out once `timeout` has elapsed since it
    /// was created; otherwise changes nothing.
    pub fn expire_pending(&mut self, now: u64, timeout: u64) -> (r: Option<ProcedureCompletion>)
        requires
            old(self).wf(),
        ensures
            final(self).wf(),
            Self::expired(*old(self), *final(self), now, timeout, r),
    {
        match self.pending {
            Some(p) => {
                if now >= p.created_at && now - p.created_at >= timeout {
                    self.pending = None;
                    Some(ProcedureCompletion { token: p.token, outcome: Err(ProcedureError::Timeout) })
                } else {
                    None
                }
            },
            None => None,
        }
    }

    /// Disconnects in one step: a session that is not yet down becomes `Disconnected` with
    /// no subscriptions, and its outstanding procedure is resolved as cancelled in this call.
    /// A session already down is left as it is.
    pub fn disconnect(&mut self) -> (r: Option<ProcedureCompletion>)
        requires
            old(self).wf(),
        ensures
            final(self).wf(),
            r == cancelled(old(self).pending),
            final(self).pending is None,
            final(self).state is Disconnected,
            final(self).subscriptions@.len() == 0,
            old(self).state is Disconnected ==> *final(self) == *old(self),
            final(self).device_id == old(self).device_id,
            final(self).generation == old(self).generation,
    {
        if self.state == ConnectionState::Disconnected {
            return None;
        }
        self.begin_disconnect();
        self.finish_disconnect()
    }
}

/// While a procedure submitted to a session is outstanding, the next submission on that
/// session, whatever it asks, is refused at once with `Busy` and changes nothing.
pub proof fn lemma_second_submit_busy(
    s0: DeviceSession,
    s1: DeviceSession,
    s2: DeviceSession,
    first: ControlPointRequest,
    second: ControlPointRequest,
    t1: u64,
    t2: u64,
    r1: Result<(Vec<u8>, u64), BleError>,
    r2: Result<(Vec<u8>, u64), BleError>,
)
    requires
        DeviceSession::submitted(s0, s1, first, t1, r1),
        r1 is Ok,
        DeviceSession::submitted(s1, s2, second, t2, r2),
    ensures
        s2 == s1,
        r2 matches Err(BleError::Procedure(ProcedureError::Busy)),
{
}

/// Disconnecting right after a submission resolves that submission's caller, under the
/// token it was given, as cancelled.
pub proof fn lemma_disconnect_cancels_submitted(
    s0: DeviceSession,
    s1: DeviceSession,
    request: ControlPointRequest,
    now: u64,
    r: Result<(Vec<u8>, u64), BleError>,
)
    requires
        DeviceSession::submitted(s0, s1, request, now, r),
        r is Ok,
    ensures
        cancelled(s1.pending) == Some(
            ProcedureCompletion { token: r->Ok_0.1, outcome: Err(ProcedureError::Cancelled) },
        ),
{
}

} // verus!
