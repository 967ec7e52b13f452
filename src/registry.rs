//! The session registry: at most one session per device identifier, with handles that
//! stop working once their session is removed.
use vstd::prelude::*;
use vstd::string::StringExecFns;
use crate::session::{DeviceSession, ProcedureCompletion, TelemetryKind, cancelled};
use crate::types::{BleError, ConnectionInfo, ControlPointRequest, DecodeError, DeviceType};

verus! {

/// Refers to one session of one device; it goes stale when that session is removed.
#[derive(Debug, Clone)]
pub struct SessionHandle {
    pub device_id: String,
    pub generation: u64,
}

/// A connected device as the command layer lists it.
#[derive(Debug, Clone)]
pub struct ConnectedDevice {
    pub id: String,
    pub name: String,
    pub device_type: DeviceType,
}

/// `c` describes session `s`.
pub open spec fn describes(c: ConnectedDevice, s: DeviceSession) -> bool {
    c.id@ == s.device_id@ && c.name@ == s.name@ && c.device_type == s.device_type
}

/// Some entry of `list` describes `s`.
pub open spec fn listed(list: Seq<ConnectedDevice>, s: DeviceSession) -> bool {
    exists|k: int| 0 <= k < list.len() && describes(#[trigger] list[k], s)
}

/// `c` describes some connected session of `sessions`.
pub open spec fn of_connected(sessions: Seq<DeviceSession>, c: ConnectedDevice) -> bool {
    exists|i: int| 0 <= i < sessions.len() && #[trigger] sessions[i].state is Connected && describes(c, sessions[i])
}

pub open spec fn ids_of(sessions: Seq<DeviceSession>) -> Seq<Seq<char>> {
    sessions.map_values(|s: DeviceSession| s.device_id@)
}

/// Host-wide BLE state: known adapters and the live device sessions.
pub struct BleState {
    pub adapters: Vec<String>,
    pub sessions: Vec<DeviceSession>,
    pub next_generation: u64,
}

impl BleState {
    /// The device identifiers of the live sessions, in order of creation.
    pub open spec fn device_ids(&self) -> Seq<Seq<char>> {
        ids_of(self.sessions@)
    }

    pub open spec fn has_session(&self, id: Seq<char>) -> bool {
        self.device_ids().contains(id)
    }

    /// One session per device identifier, each well formed, live (connecting or connected:
    /// a session leaves the registry when it goes down) and of a generation already issued.
    pub open spec fn wf(&self) -> bool {
        &&& self.device_ids().no_duplicates()
        &&& forall|i: int|
            0 <= i < self.sessions@.len() ==> #[trigger] self.sessions@[i].wf()
                && self.sessions@[i].generation < self.next_generation && (self.sessions@[i].state is Connecting
                || self.sessions@[i].state is Connected)
    }

    /// The session at `i` was replaced by `s`, the others are untouched.
    pub open spec fn replaced(&self, old: BleState, i: int, s: DeviceSession) -> bool {
        &&& 0 <= i < old.sessions@.len()
        &&& self.sessions@ == old.sessions@.update(i, s)
        &&& self.adapters == old.adapters
        &&& self.next_generation == old.next_generation
    }

    /// An empty registry.
    pub fn new() -> (r: Self)
        ensures
            r.wf(),
            r.sessions@.len() == 0,
            r.adapters@.len() == 0,
            r.next_generation == 0,
    {
        BleState { adapters: Vec::new(), sessions: Vec::new(), next_generation: 0 }
    }

    /// Position of the session of `device_id`.
    pub fn find(&self, device_id: &String) -> (r: Option<usize>)
        ensures
            match r {
                Some(i) => i < self.sessions@.len() && self.sessions@[i as int].device_id@ == device_id@,
                None => !self.has_session(device_id@) && forall|j: int|
                    0 <= j < self.sessions@.len() ==> self.sessions@[j].device_id@ != device_id@,
            },
    {
        let mut i: usize = 0;
        while i < self.sessions.len()
            invariant
                i <= self.sessions@.len(),
                forall|j: int| 0 <= j < i ==> self.sessions@[j].device_id@ != device_id@,
            decreases self.sessions@.len() - i,
        {
            if self.sessions[i].device_id == *device_id {
                return Some(i);
            }
            i = i + 1;
        }
        assert forall|j: int| 0 <= j < self.device_ids().len() implies self.device_ids()[j] != device_id@ by {}
        None
    }

    /// Admits a connection attempt for `device_id`: a new session in the `Connecting` state
    /// under a fresh generation. Refused while a session for that device exists.
    pub fn begin_connect(&mut self, device_id: &String) -> (r: Result<u64, BleError>)
        requires
            old(self).wf(),
        ensures
            final(self).wf(),
            old(self).has_session(device_id@) ==> *final(self) == *old(self) && (r matches Err(
                BleError::Other(msg),
            ) && msg@ == "session already active"@),
            !old(self).has_session(device_id@) && old(self).next_generation == u64::MAX ==> *final(self)
                == *old(self) && (r matches Err(BleError::Other(_))),
            !old(self).has_session(device_id@) && old(self).next_generation < u64::MAX ==> {
                &&& r == Ok::<u64, BleError>(old(self).next_generation)
                &&& final(self).device_ids() == old(self).device_ids().push(device_id@)
                &&& final(self).sessions@.drop_last() == old(self).sessions@
                &&& final(self).sessions@.last().state is Connecting
                &&& final(self).sessions@.last().generation == old(self).next_generation
                &&& final(self).next_generation == old(self).next_generation + 1
                &&& final(self).adapters == old(self).adapters
            },
    {
        if let Some(i) = self.find(device_id) {
            assert(self.device_ids()[i as int] == device_id@);
            let msg = "session already active".to_string();
            proof {
                reveal_strlit("session already active");
            }
            return Err(BleError::Other(msg));
        }
        if self.next_generation == u64::MAX {
            return Err(BleError::Other("session generations exhausted".to_string()));
        }
        let generation = self.next_generation;
        let mut session = DeviceSession::new(device_id.clone(), generation);
        let _ = session.begin_connect();
        let ghost prev = *self;
        self.sessions.push(session);
        self.next_generation = generation + 1;
        proof {
            assert(self.sessions@.drop_last() =~= prev.sessions@);
            self.lemma_push_keeps_wf(prev);
        }
        Ok(generation)
    }

    /// Records the outcome of the platform connect for `device_id`. On success the session
    /// becomes `Connected` and keeps the reported name (or "Device <id>") and `device_type`; on
    /// failure or timeout it is removed and `ConnectionFailed` returned.
    pub fn connect_device(&mut self, device_id: &String, name: Option<String>, device_type: DeviceType, connected: bool) -> (r: Result<ConnectionInfo, BleError>)
        requires
            old(self).wf(),
        ensures
            final(self).wf(),
            !old(self).has_session(device_id@) ==> *final(self) == *old(self) && (r matches Err(
                BleError::DeviceNotFound(id),
            ) && id@ == device_id@),
            forall|i: int|
                0 <= i < old(self).sessions@.len() && old(self).sessions@[i].device_id@ == device_id@
                    ==> {
                    let s = old(self).sessions@[i];
                    if connected && s.state is Connecting {
                        &&& final(self).replaced(
                            *old(self),
                            i,
                            DeviceSession {
                                state: crate::session::ConnectionState::Connected,
                                name: r->Ok_0.name,
                                device_type,
                                ..s
                            },
                        )
                        &&& r matches Ok(info)
                        &&& r->Ok_0.device_id@ == device_id@
                        &&& r->Ok_0.connected
                        &&& name matches Some(n) ==> r->Ok_0.name == n
                        &&& name is None ==> r->Ok_0.name@ == "Device "@ + device_id@
                    } else if connected {
                        *final(self) == *old(self) && (r matches Err(BleError::ConnectionFailed(id)) && id@ == device_id@)
                    } else {
                        &&& s.state is Connecting ==> final(self).sessions@ == old(self).sessions@.remove(i)
                        &&& !(s.state is Connecting) ==> *final(self) == *old(self)
                        &&& final(self).adapters == old(self).adapters
                        &&& final(self).next_generation == old(self).next_generation
                        &&& (r matches Err(BleError::ConnectionFailed(id)) && id@ == device_id@)
                    }
                },
    {
        let i = match self.find(device_id) {
            Some(i) => i,
            None => {
                return Err(BleError::DeviceNotFound(device_id.clone()));
            },
        };
        proof {
            self.lemma_index_unique(i as int, device_id@);
            assert(self.device_ids()[i as int] == device_id@);
        }
        let ghost before = self.sessions@;
        if !connected {
            let is_connecting = self.sessions[i].state == crate::session::ConnectionState::Connecting;
            if is_connecting {
                let ghost prev = *self;
                let _ = self.sessions.remove(i);
                proof {
                    self.lemma_remove_keeps_wf(prev, i as int);
                }
            }
            return Err(BleError::ConnectionFailed(device_id.clone()));
        }
        if self.sessions[i].state != crate::session::ConnectionState::Connecting {
            return Err(BleError::ConnectionFailed(device_id.clone()));
        }
        assert(before[i as int].wf());
        let _ = self.sessions[i].connect_succeeded();
        let name = match name {
            Some(n) => n,
            None => {
                let mut n = String::from_str("Device ");
                n.append(device_id.as_str());
                n
            },
        };
        proof {
            reveal_strlit("Device ");
        }
        self.sessions[i].name = name.clone();
        self.sessions[i].device_type = device_type;
        proof {
            assert(self.sessions@ =~= before.update(i as int, self.sessions@[i as int]));
            self.lemma_replace_keeps_wf(*old(self), i as int);
        }
        Ok(ConnectionInfo { device_id: device_id.clone(), name, connected: true })
    }

    /// The session of `id`, if there is one, went through `step` and the rest is untouched.
    pub open spec fn acted_on(&self, old: BleState, id: Seq<char>, step: spec_fn(DeviceSession, DeviceSession) -> bool) -> bool {
        forall|i: int|
            0 <= i < old.sessions@.len() && old.sessions@[i].device_id@ == id ==> self.replaced(
                old,
                i,
                self.sessions@[i],
            ) && step(old.sessions@[i], self.sessions@[i])
    }

    /// Whether `(device_id, generation)` names a session that is still registered.
    pub open spec fn is_live(&self, device_id: Seq<char>, generation: u64) -> bool {
        exists|i: int|
            0 <= i < self.sessions@.len() && self.sessions@[i].device_id@ == device_id
                && self.sessions@[i].generation == generation
    }

    /// Ends the session of `device_id`: it is disconnected and removed, and the procedure it
    /// had outstanding, if any, is returned resolved as cancelled. A device without a session
    /// is left alone.
    pub fn disconnect_device(&mut self, device_id: &String) -> (r: Option<ProcedureCompletion>)
        requires
            old(self).wf(),
        ensures
            final(self).wf(),
            !old(self).has_session(device_id@) ==> r is None && *final(self) == *old(self),
            forall|i: int|
                0 <= i < old(self).sessions@.len() && old(self).sessions@[i].device_id@ == device_id@
                    ==> {
                    &&& r == cancelled(old(self).sessions@[i].pending)
                    &&& final(self).sessions@ == old(self).sessions@.remove(i)
                    &&& final(self).device_ids() == old(self).device_ids().remove(i)
                    &&& final(self).adapters == old(self).adapters
                    &&& final(self).next_generation == old(self).next_generation
                },
    {
        let i = match self.find(device_id) {
            Some(i) => i,
            None => {
                return None;
            },
        };
        proof {
            self.lemma_index_unique(i as int, device_id@);
        }
        let ghost before = self.sessions@;
        assert(before[i as int].wf());
        let ghost prev = *self;
        let mut session = self.sessions.remove(i);
        proof {
            self.lemma_remove_keeps_wf(prev, i as int);
        }
        session.disconnect()
    }

    /// A handle to the session of `device_id`, if there is one.
    pub fn lookup(&self, device_id: &String) -> (r: Option<SessionHandle>)
        requires
            self.wf(),
        ensures
            !self.has_session(device_id@) ==> r is None,
            forall|i: int|
                0 <= i < self.sessions@.len() && self.sessions@[i].device_id@ == device_id@ ==> (r matches Some(
                    h,
                ) && h.device_id@ == device_id@ && h.generation == self.sessions@[i].generation),
    {
        match self.find(device_id) {
            Some(i) => {
                proof {
                    assert(self.device_ids()[i as int] == device_id@);
                    assert forall|j: int|
                        0 <= j < self.sessions@.len() && self.sessions@[j].device_id@ == device_id@ implies j
                        == i by {
                        assert(self.device_ids()[j] == self.device_ids()[i as int]);
                    }
                }
                Some(SessionHandle { device_id: device_id.clone(), generation: self.sessions[i].generation })
            },
            None => None,
        }
    }

    /// Accepts a handle only while its session is registered; a removed session's handle is stale.
    pub fn check_handle(&self, handle: &SessionHandle) -> (r: Result<(), BleError>)
        requires
            self.wf(),
        ensures
            r is Ok <==> self.is_live(handle.device_id@, handle.generation),
            r is Err ==> (r matches Err(BleError::StaleHandle(id)) && id@ == handle.device_id@),
    {
        match self.find(&handle.device_id) {
            Some(i) => {
                if self.sessions[i].generation == handle.generation {
                    return Ok(());
                }
                proof {
                    assert forall|j: int|
                        0 <= j < self.sessions@.len() && self.sessions@[j].device_id@ == handle.device_id@
                        implies j == i by {
                        assert(self.device_ids()[j] == self.device_ids()[i as int]);
                    }
                }
            },
            None => {},
        }
        Err(BleError::StaleHandle(handle.device_id.clone()))
    }

    proof fn lemma_push_keeps_wf(&self, old: BleState)
        requires
            old.wf(),
            self.sessions@.len() == old.sessions@.len() + 1,
            self.sessions@.drop_last() == old.sessions@,
            !old.has_session(self.sessions@.last().device_id@),
            self.sessions@.last().wf(),
            self.sessions@.last().state is Connecting,
            self.sessions@.last().generation == old.next_generation,
            self.next_generation == old.next_generation + 1,
        ensures
            self.wf(),
            self.device_ids() == old.device_ids().push(self.sessions@.last().device_id@),
    {
        let before = old.sessions@;
        let id = self.sessions@.last().device_id@;
        assert(self.device_ids() =~= ids_of(before).push(id));
        assert forall|x: int, y: int|
            0 <= x < self.device_ids().len() && 0 <= y < self.device_ids().len() && x != y implies
            self.device_ids()[x] != self.device_ids()[y] by {
            if x < before.len() && y < before.len() {
                assert(ids_of(before)[x] == self.device_ids()[x]);
                assert(ids_of(before)[y] == self.device_ids()[y]);
            } else if x < before.len() {
                assert(ids_of(before)[x] == self.device_ids()[x]);
                assert(ids_of(before).contains(self.device_ids()[x]));
            } else {
                assert(ids_of(before)[y] == self.device_ids()[y]);
                assert(ids_of(before).contains(self.device_ids()[y]));
            }
        }
        assert forall|j: int| 0 <= j < self.sessions@.len() implies #[trigger] self.sessions@[j].wf()
            && self.sessions@[j].generation < self.next_generation && (self.sessions@[j].state is Connecting
            || self.sessions@[j].state is Connected) by {
            if j < before.len() {
                assert(self.sessions@[j] == before[j]);
                assert(before[j].wf());
            }
        }
    }

    proof fn lemma_remove_keeps_wf(&self, old: BleState, i: int)
        requires
            old.wf(),
            0 <= i < old.sessions@.len(),
            self.sessions@ == old.sessions@.remove(i),
            self.next_generation == old.next_generation,
        ensures
            self.wf(),
            self.device_ids() == old.device_ids().remove(i),
    {
        lemma_remove_keeps_unique(old.sessions@, i);
        assert forall|j: int| 0 <= j < self.sessions@.len() implies #[trigger] self.sessions@[j].wf()
            && self.sessions@[j].generation < self.next_generation && (self.sessions@[j].state is Connecting
            || self.sessions@[j].state is Connected) by {
            if j < i {
                assert(self.sessions@[j] == old.sessions@[j]);
            } else {
                assert(self.sessions@[j] == old.sessions@[j + 1]);
            }
        }
    }

    proof fn lemma_replace_keeps_wf(&self, old: BleState, i: int)
        requires
            old.wf(),
            self.replaced(old, i, self.sessions@[i]),
            self.sessions@[i].wf(),
            self.sessions@[i].device_id == old.sessions@[i].device_id,
            self.sessions@[i].generation == old.sessions@[i].generation,
            self.sessions@[i].state is Connecting || self.sessions@[i].state is Connected,
        ensures
            self.wf(),
            self.device_ids() == old.device_ids(),
    {
        assert(self.device_ids() =~= old.device_ids());
        assert(old.sessions@[i].wf());
        assert forall|j: int| 0 <= j < self.sessions@.len() implies #[trigger] self.sessions@[j].wf()
            && self.sessions@[j].generation < self.next_generation && (self.sessions@[j].state is Connecting
            || self.sessions@[j].state is Connected) by {
            if j != i {
                assert(self.sessions@[j] == old.sessions@[j]);
            }
        }
    }

    /// Records a telemetry subscription on the session of `device_id`.
    pub fn subscribe(&mut self, device_id: &String, kind: TelemetryKind) -> (r: Result<bool, BleError>)
        requires
            old(self).wf(),
        ensures
            final(self).wf(),
            !old(self).has_session(device_id@) ==> *final(self) == *old(self) && (r matches Err(
                BleError::DeviceNotFound(id),
            ) && id@ == device_id@),
            final(self).acted_on(
                *old(self),
                device_id@,
                |a: DeviceSession, b: DeviceSession| DeviceSession::subscribed(a, b, kind, r),
            ),
    {
        let i = match self.find(device_id) {
            Some(i) => i,
            None => {
                return Err(BleError::DeviceNotFound(device_id.clone()));
            },
        };
        proof {
            self.lemma_index_unique(i as int, device_id@);
        }
        let ghost prev = *self;
        assert(prev.sessions@[i as int].wf());
        let r = self.sessions[i].subscribe(kind);
        proof {
            self.lemma_replace_keeps_wf(prev, i as int);
        }
        r
    }

    /// Starts a control point procedure on the session of `device_id` (see `DeviceSession::submit`).
    pub fn submit(&mut self, device_id: &String, request: &ControlPointRequest, now: u64) -> (r: Result<(Vec<u8>, u64), BleError>)
        requires
            old(self).wf(),
        ensures
            final(self).wf(),
            !old(self).has_session(device_id@) ==> *final(self) == *old(self) && (r matches Err(BleError::DeviceNotFound(id)) && id@ == device_id@),
            final(self).acted_on(
                *old(self),
                device_id@,
                |a: DeviceSession, b: DeviceSession| DeviceSession::submitted(a, b, *request, now, r),
            ),
    {
        let i = match self.find(device_id) {
            Some(i) => i,
            None => {
                return Err(BleError::DeviceNotFound(device_id.clone()));
            },
        };
        proof {
            self.lemma_index_unique(i as int, device_id@);
        }
        let ghost prev = *self;
        assert(prev.sessions@[i as int].wf());
        let r = self.sessions[i].submit(request, now);
        proof {
            self.lemma_replace_keeps_wf(prev, i as int);
        }
        r
    }

    /// Decodes a telemetry notification of the session of `device_id`; a device without a
    /// session yields `None` and changes nothing.
    pub fn handle_notification(&mut self, device_id: &String, kind: TelemetryKind, bytes: &Vec<u8>, timestamp: u64) -> (r: Option<Result<(), DecodeError>>)
        requires
            old(self).wf(),
        ensures
            final(self).wf(),
            !old(self).has_session(device_id@) ==> *final(self) == *old(self) && r is None,
            final(self).acted_on(
                *old(self),
                device_id@,
                |a: DeviceSession, b: DeviceSession| r is Some && DeviceSession::notified(a, b, kind, bytes@, timestamp, r->0),
            ),
    {
        let i = match self.find(device_id) {
            Some(i) => i,
            None => {
                return None;
            },
        };
        proof {
            self.lemma_index_unique(i as int, device_id@);
        }
        let ghost prev = *self;
        assert(prev.sessions@[i as int].wf());
        let r = Some(self.sessions[i].handle_notification(kind, bytes, timestamp));
        proof {
            self.lemma_replace_keeps_wf(prev, i as int);
        }
        r
    }

    /// Handles a control point indication of the session of `device_id`; a device without a
    /// session yields `None` and changes nothing.
    pub fn handle_indication(&mut self, device_id: &String, bytes: &Vec<u8>) -> (r: Option<Result<Option<ProcedureCompletion>, DecodeError>>)
        requires
            old(self).wf(),
        ensures
            final(self).wf(),
            !old(self).has_session(device_id@) ==> *final(self) == *old(self) && r is None,
            final(self).acted_on(
                *old(self),
                device_id@,
                |a: DeviceSession, b: DeviceSession| r is Some && DeviceSession::indicated(a, b, bytes@, r->0),
            ),
    {
        let i = match self.find(device_id) {
            Some(i) => i,
            None => {
                return None;
            },
        };
        proof {
            self.lemma_index_unique(i as int, device_id@);
        }
        let ghost prev = *self;
        assert(prev.sessions@[i as int].wf());
        let r = Some(self.sessions[i].handle_control_point_indication(bytes));
        proof {
            self.lemma_replace_keeps_wf(prev, i as int);
        }
        r
    }

    /// Resolves the procedure of the session of `device_id` as timed out once it is overdue.
    pub fn expire_pending(&mut self, device_id: &String, now: u64, timeout: u64) -> (r: Option<ProcedureCompletion>)
        requires
            old(self).wf(),
        ensures
            final(self).wf(),
            !old(self).has_session(device_id@) ==> *final(self) == *old(self) && r is None,
            final(self).acted_on(
                *old(self),
                device_id@,
                |a: DeviceSession, b: DeviceSession| DeviceSession::expired(a, b, now, timeout, r),
            ),
    {
        let i = match self.find(device_id) {
            Some(i) => i,
            None => {
                return None;
            },
        };
        proof {
            self.lemma_index_unique(i as int, device_id@);
        }
        let ghost prev = *self;
        assert(prev.sessions@[i as int].wf());
        let r = self.sessions[i].expire_pending(now, timeout);
        proof {
            self.lemma_replace_keeps_wf(prev, i as int);
        }
        r
    }

    /// One entry for each session in the `Connected` state, and no other.
    pub fn connected_devices(&self) -> (r: Vec<ConnectedDevice>)
        ensures
            forall|k: int| 0 <= k < r@.len() ==> of_connected(self.sessions@, #[trigger] r@[k]),
            forall|i: int|
                0 <= i < self.sessions@.len() && #[trigger] self.sessions@[i].state is Connected ==> listed(
                    r@,
                    self.sessions@[i],
                ),
    {
        let mut out: Vec<ConnectedDevice> = Vec::new();
        let ghost mut slot: Seq<int> = Seq::new(self.sessions@.len(), |i: int| 0);
        let mut i: usize = 0;
        while i < self.sessions.len()
            invariant
                i <= self.sessions@.len(),
                slot.len() == self.sessions@.len(),
                forall|k: int| 0 <= k < out@.len() ==> of_connected(self.sessions@, #[trigger] out@[k]),
                forall|j: int|
                    0 <= j < i && #[trigger] self.sessions@[j].state is Connected ==> 0 <= slot[j] < out@.len()
                        && describes(out@[slot[j]], self.sessions@[j]),
            decreases self.sessions@.len() - i,
        {
            let s = &self.sessions[i];
            if s.state == crate::session::ConnectionState::Connected {
                let ghost before = out@;
                out.push(ConnectedDevice { id: s.device_id.clone(), name: s.name.clone(), device_type: s.device_type });
                proof {
                    slot = slot.update(i as int, before.len() as int);
                    assert(self.sessions@[i as int].state is Connected);
                    assert forall|k: int| 0 <= k < out@.len() implies of_connected(self.sessions@, #[trigger] out@[k]) by {
                        if k < before.len() {
                            assert(out@[k] == before[k]);
                        }
                    }
                    assert forall|j: int|
                        0 <= j <= i && #[trigger] self.sessions@[j].state is Connected implies 0 <= slot[j]
                            < out@.len() && describes(out@[slot[j]], self.sessions@[j]) by {
                        if j < i {
                            assert(out@[slot[j]] == before[slot[j]]);
                        }
                    }
                }
            }
            i = i + 1;
        }
        assert forall|j: int|
            0 <= j < self.sessions@.len() && #[trigger] self.sessions@[j].state is Connected implies listed(
                out@,
                self.sessions@[j],
            ) by {
            assert(describes(out@[slot[j]], self.sessions@[j]));
        }
        out
    }

    proof fn lemma_index_unique(&self, i: int, id: Seq<char>)
        requires
            self.wf(),
            0 <= i < self.sessions@.len(),
            self.sessions@[i].device_id@ == id,
        ensures
            forall|j: int| 0 <= j < self.sessions@.len() && self.sessions@[j].device_id@ == id ==> j == i,
            self.has_session(id),
    {
        assert(self.device_ids()[i] == id);
        assert forall|j: int| 0 <= j < self.sessions@.len() && self.sessions@[j].device_id@ == id implies j == i by {
            assert(self.device_ids()[j] == self.device_ids()[i]);
        }
    }
}

proof fn lemma_remove_keeps_unique(sessions: Seq<DeviceSession>, i: int)
    requires
        0 <= i < sessions.len(),
        ids_of(sessions).no_duplicates(),
    ensures
        ids_of(sessions.remove(i)) == ids_of(sessions).remove(i),
        ids_of(sessions.remove(i)).no_duplicates(),
{
    assert(ids_of(sessions.remove(i)) =~= ids_of(sessions).remove(i));
    let a = ids_of(sessions);
    let b = a.remove(i);
    assert forall|x: int, y: int| 0 <= x < b.len() && 0 <= y < b.len() && x != y implies b[x] != b[y] by {
        let xx = if x < i { x } else { x + 1 };
        let yy = if y < i { y } else { y + 1 };
        assert(b[x] == a[xx]);
        assert(b[y] == a[yy]);
    }
}

impl Default for BleState {
    fn default() -> (r: Self)
        ensures
            r.wf(),
            r.sessions@.len() == 0,
            r.adapters@.len() == 0,
            r.next_generation == 0,
    {
        Self::new()
    }
}

/// After a connection attempt for a device is admitted, the registry holds exactly one
/// session for that device, so a second attempt is refused (`begin_connect` fails on any
/// device that has a session) until the first is resolved.
pub proof fn lemma_single_session_per_device(before: BleState, after: BleState, id: Seq<char>)
    requires
        before.wf(),
        after.wf(),
        !before.has_session(id),
        after.device_ids() == before.device_ids().push(id),
    ensures
        after.has_session(id),
        forall|i: int, j: int|
            0 <= i < after.sessions@.len() && 0 <= j < after.sessions@.len() && after.sessions@[i].device_id@
                == id && after.sessions@[j].device_id@ == id ==> i == j,
{
    assert(after.device_ids()[before.device_ids().len() as int] == id);
    assert forall|i: int, j: int|
        0 <= i < after.sessions@.len() && 0 <= j < after.sessions@.len() && after.sessions@[i].device_id@
            == id && after.sessions@[j].device_id@ == id implies i == j by {
        assert(after.device_ids()[i] == after.device_ids()[j]);
    }
}

} // verus!
