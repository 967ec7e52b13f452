//! Turning raw discovery results into the device list a scan reports.
use vstd::prelude::*;
use crate::catalog::{CYCLING_POWER_SERVICE, FTMS_SERVICE, HEART_RATE_SERVICE};
use crate::types::{BleError, DeviceInfo, DeviceType};

verus! {

/// Whether `ss` holds a string equal to `u`.
pub open spec fn holds_string(ss: Seq<String>, u: Seq<char>) -> bool {
    exists|k: int| 0 <= k < ss.len() && #[trigger] ss[k]@ == u
}

/// Whether a device passes the service filter of a scan.
pub open spec fn advertises(d: DeviceInfo, filter: Option<String>) -> bool {
    match filter {
        None => true,
        Some(u) => holds_string(d.services@, u@),
    }
}

/// `rs[i]` is the most recent record of the device of `rs[j]`.
pub open spec fn latest_of(rs: Seq<DeviceInfo>, i: int, j: int) -> bool {
    0 <= j <= i < rs.len() && rs[i].id@ == rs[j].id@ && forall|k: int|
        i < k < rs.len() ==> #[trigger] rs[k].id@ != rs[j].id@
}

/// `rs[j]` passes the filter and no later record of its device does.
pub open spec fn newest_passing(rs: Seq<DeviceInfo>, filter: Option<String>, j: int) -> bool {
    0 <= j < rs.len() && advertises(rs[j], filter) && forall|k: int|
        j < k < rs.len() && #[trigger] rs[k].id@ == rs[j].id@ ==> !advertises(rs[k], filter)
}

/// The entry reported for record `rs[j]`, with the signal strength of the later record `rs[i]`.
pub open spec fn entry(rs: Seq<DeviceInfo>, i: int, j: int) -> DeviceInfo {
    DeviceInfo { rssi: rs[i].rssi, ..rs[j] }
}

/// `d` is the entry of a device: its newest record that passes the filter, carrying the signal
/// strength of the device's most recent record.
pub open spec fn reported(rs: Seq<DeviceInfo>, filter: Option<String>, d: DeviceInfo) -> bool {
    exists|j: int, i: int| #[trigger] newest_passing(rs, filter, j) && #[trigger] latest_of(rs, i, j) && d == entry(rs, i, j)
}

/// `out` holds one entry for each device of which some record passes the filter, and nothing else.
pub open spec fn scan_result(rs: Seq<DeviceInfo>, filter: Option<String>, out: Seq<DeviceInfo>) -> bool {
    &&& forall|m: int| 0 <= m < out.len() ==> reported(rs, filter, #[trigger] out[m])
    &&& forall|j: int, i: int|
        #[trigger] newest_passing(rs, filter, j) && #[trigger] latest_of(rs, i, j) ==> out.contains(entry(rs, i, j))
    &&& forall|m: int, n: int| 0 <= m < n < out.len() ==> out[m].id@ != out[n].id@
}

fn position(ss: &Vec<String>, u: &String) -> (r: Option<usize>)
    ensures
        match r {
            Some(k) => k < ss@.len() && ss@[k as int]@ == u@,
            None => forall|k: int| 0 <= k < ss@.len() ==> ss@[k]@ != u@,
        },
{
    let mut k: usize = 0;
    while k < ss.len()
        invariant
            k <= ss@.len(),
            forall|i: int| 0 <= i < k ==> ss@[i]@ != u@,
        decreases ss@.len() - k,
    {
        if ss[k] == *u {
            return Some(k);
        }
        k = k + 1;
    }
    None
}

fn holds(ss: &Vec<String>, u: &String) -> (r: bool)
    ensures
        r == holds_string(ss@, u@),
{
    let mut k: usize = 0;
    while k < ss.len()
        invariant
            k <= ss@.len(),
            forall|i: int| 0 <= i < k ==> ss@[i]@ != u@,
        decreases ss@.len() - k,
    {
        if ss[k] == *u {
            return true;
        }
        k = k + 1;
    }
    false
}

fn passes(d: &DeviceInfo, filter: &Option<String>) -> (r: bool)
    ensures
        r == advertises(*d, *filter),
{
    match filter {
        None => true,
        Some(u) => holds(&d.services, u),
    }
}

/// Keeps the records advertising `service_uuid` (all of them when none is given) and coalesces
/// them by device: one entry per device, its newest passing record with the signal strength of
/// the device's most recent record. Fails with `NotAvailable` when BLE is not.
#[verifier::rlimit(100)]
pub fn scan_devices(available: bool, results: Vec<DeviceInfo>, service_uuid: Option<String>) -> (r: Result<Vec<DeviceInfo>, BleError>)
    ensures
        !available ==> (r matches Err(BleError::NotAvailable)),
        available ==> (r matches Ok(out) && scan_result(results@, service_uuid, out@)),
{
    if !available {
        return Err(BleError::NotAvailable);
    }
    let ghost rs = results@;
    let mut results = results;
    let mut out: Vec<DeviceInfo> = Vec::new();
    // One slot per device met so far (walking from the newest record back): its identifier,
    // the signal strength of its newest record, and whether it has an entry in `out`.
    let mut seen: Vec<String> = Vec::new();
    let mut seen_rssi: Vec<Option<i16>> = Vec::new();
    let mut emitted: Vec<bool> = Vec::new();
    // `seen_at[j]`: slot of record `j`; `seen_src[k]`: newest record of slot `k`;
    // `emit_src[k]`: the record slot `k` was reported from; `cj[m]`, `ci[m]`: the records
    // behind `out[m]`; `slot[j]`: where a reported record `j` went in `out`.
    let ghost mut seen_at: Seq<int> = Seq::new(rs.len(), |j: int| 0);
    let ghost mut seen_src: Seq<int> = Seq::empty();
    let ghost mut emit_src: Seq<int> = Seq::empty();
    let ghost mut cj: Seq<int> = Seq::empty();
    let ghost mut ci: Seq<int> = Seq::empty();
    let ghost mut slot: Seq<int> = Seq::new(rs.len(), |j: int| 0);
    while results.len() > 0
        invariant
            results@ == rs.take(results@.len() as int),
            results@.len() <= rs.len(),
            seen_at.len() == rs.len(),
            slot.len() == rs.len(),
            seen_rssi@.len() == seen@.len(),
            emitted@.len() == seen@.len(),
            seen_src.len() == seen@.len(),
            emit_src.len() == seen@.len(),
            cj.len() == out@.len(),
            ci.len() == out@.len(),
            forall|j: int|
                results@.len() <= j < rs.len() ==> 0 <= #[trigger] seen_at[j] < seen@.len()
                    && seen@[seen_at[j]]@ == rs[j].id@,
            forall|k: int|
                0 <= k < seen@.len() ==> results@.len() <= #[trigger] seen_src[k] < rs.len() && seen@[k]@
                    == rs[seen_src[k]].id@ && latest_of(rs, seen_src[k], seen_src[k]) && seen_rssi@[k]
                    == rs[seen_src[k]].rssi,
            forall|k: int|
                0 <= k < seen@.len() && #[trigger] emitted@[k] ==> results@.len() <= emit_src[k] < rs.len()
                    && rs[emit_src[k]].id@ == seen@[k]@ && advertises(rs[emit_src[k]], service_uuid),
            forall|k: int, t: int|
                0 <= k < seen@.len() && !emitted@[k] && results@.len() <= t < rs.len() && #[trigger] rs[t].id@
                    == #[trigger] seen@[k]@ ==> !advertises(rs[t], service_uuid),
            forall|m: int|
                0 <= m < out@.len() ==> results@.len() <= #[trigger] cj[m] < rs.len() && newest_passing(
                    rs,
                    service_uuid,
                    cj[m],
                ) && latest_of(rs, ci[m], cj[m]) && out@[m] == entry(rs, ci[m], cj[m]),
            forall|m1: int, m2: int| 0 <= m1 < m2 < out@.len() ==> #[trigger] cj[m1] > #[trigger] cj[m2],
            forall|k1: int, k2: int|
                0 <= k1 < k2 < seen@.len() ==> #[trigger] seen@[k1]@ != #[trigger] seen@[k2]@,
            forall|j: int|
                results@.len() <= j < rs.len() && #[trigger] newest_passing(rs, service_uuid, j) ==> 0
                    <= slot[j] < out@.len() && cj[slot[j]] == j,
        decreases results@.len(),
    {
        let ghost n = results@.len() - 1;
        let d = results.pop().unwrap();
        assert(d == rs[n]);
        assert(results@ =~= rs.take(n));
        let ghost old_out = out@;
        let ghost old_seen = seen@;
        let ghost old_emitted = emitted@;
        let ok = passes(&d, &service_uuid);
        match position(&seen, &d.id) {
            None => {
                assert(latest_of(rs, n, n)) by {
                    assert forall|k: int| n < k < rs.len() implies #[trigger] rs[k].id@ != rs[n].id@ by {
                        assert(seen@[seen_at[k]]@ == rs[k].id@);
                    }
                }
                seen.push(d.id.clone());
                seen_rssi.push(d.rssi);
                emitted.push(ok);
                proof {
                    seen_at = seen_at.update(n, old_seen.len() as int);
                    seen_src = seen_src.push(n);
                    emit_src = emit_src.push(n);
                }
                if ok {
                    assert(newest_passing(rs, service_uuid, n));
                    assert(entry(rs, n, n) == d);
                    out.push(d);
                    proof {
                        cj = cj.push(n);
                        ci = ci.push(n);
                        slot = slot.update(n, old_out.len() as int);
                    }
                }
                proof {
                    assert forall|k1: int, k2: int| 0 <= k1 < k2 < seen@.len() implies #[trigger] seen@[k1]@
                        != #[trigger] seen@[k2]@ by {
                        assert(seen@[k1] == old_seen[k1]);
                        if k2 < old_seen.len() {
                            assert(seen@[k2] == old_seen[k2]);
                        }
                    }
                    assert forall|k: int, t: int|
                        0 <= k < seen@.len() && !emitted@[k] && n <= t < rs.len() && #[trigger] rs[t].id@
                            == #[trigger] seen@[k]@ implies !advertises(rs[t], service_uuid) by {
                        if k < old_seen.len() {
                            assert(seen@[k] == old_seen[k]);
                            assert(emitted@[k] == old_emitted[k]);
                            assert(t != n);
                        } else {
                            assert(seen@[k]@ == rs[n].id@);
                            if t > n {
                                assert(rs[t].id@ != rs[n].id@);
                            }
                        }
                    }
                }
            },
            Some(k) => {
                proof {
                    seen_at = seen_at.update(n, k as int);
                }
                let already = emitted[k];
                if ok && !already {
                    let ghost i = seen_src[k as int];
                    assert(newest_passing(rs, service_uuid, n));
                    assert(latest_of(rs, i, n));
                    let rssi = seen_rssi[k];
                    assert(entry(rs, i, n) == DeviceInfo { rssi, ..d });
                    out.push(DeviceInfo { rssi, ..d });
                    emitted.set(k, true);
                    proof {
                        emit_src = emit_src.update(k as int, n);
                        cj = cj.push(n);
                        ci = ci.push(i);
                        slot = slot.update(n, old_out.len() as int);
                    }
                } else if already {
                    assert(!newest_passing(rs, service_uuid, n)) by {
                        assert(rs[emit_src[k as int]].id@ == rs[n].id@);
                    }
                }
                proof {
                    assert forall|kk: int, t: int|
                        0 <= kk < seen@.len() && !emitted@[kk] && n <= t < rs.len() && #[trigger] rs[t].id@
                            == #[trigger] seen@[kk]@ implies !advertises(rs[t], service_uuid) by {
                        assert(seen@[kk] == old_seen[kk]);
                        if kk != k {
                            assert(emitted@[kk] == old_emitted[kk]);
                            if t == n {
                                assert(seen@[k as int]@ == rs[n].id@);
                                if kk < k {
                                    assert(seen@[kk]@ != seen@[k as int]@);
                                } else {
                                    assert(seen@[k as int]@ != seen@[kk]@);
                                }
                            }
                        } else {
                            assert(emitted@[kk] == old_emitted[kk]);
                        }
                    }
                }
            },
        }
        proof {
            assert forall|m: int| 0 <= m < old_out.len() implies out@[m] == old_out[m] by {}
        }
    }
    assert(scan_result(rs, service_uuid, out@)) by {
        assert forall|m: int| 0 <= m < out@.len() implies reported(rs, service_uuid, #[trigger] out@[m]) by {
            assert(newest_passing(rs, service_uuid, cj[m]));
            assert(latest_of(rs, ci[m], cj[m]));
        }
        assert forall|j: int, i: int|
            #[trigger] newest_passing(rs, service_uuid, j) && #[trigger] latest_of(rs, i, j) implies out@.contains(
            entry(rs, i, j),
        ) by {
            let m = slot[j];
            assert(latest_of(rs, ci[m], j));
            if ci[m] < i {
                assert(rs[i].id@ != rs[j].id@);
            } else if ci[m] > i {
                assert(rs[ci[m]].id@ != rs[j].id@);
            }
            assert(out@[m] == entry(rs, i, j));
        }
        assert forall|m: int, n: int| 0 <= m < n < out@.len() implies out@[m].id@ != out@[n].id@ by {
            assert(cj[m] > cj[n]);
            assert(out@[m].id@ == rs[cj[m]].id@);
            assert(out@[n].id@ == rs[cj[n]].id@);
            if rs[cj[m]].id@ == rs[cj[n]].id@ {
                assert(!advertises(rs[cj[m]], service_uuid));
            }
        }
    }
    Ok(out)
}

/// Classifies a device by its advertised services: a trainer when it offers FTMS or cycling
/// power, otherwise a heart-rate monitor when it offers heart rate.
pub fn device_type(d: &DeviceInfo) -> (r: DeviceType)
    ensures
        r == (if holds_string(d.services@, FTMS_SERVICE@) || holds_string(d.services@, CYCLING_POWER_SERVICE@) {
            DeviceType::SmartTrainer
        } else if holds_string(d.services@, HEART_RATE_SERVICE@) {
            DeviceType::HeartRateMonitor
        } else {
            DeviceType::Unknown
        }),
{
    let ftms = FTMS_SERVICE.to_string();
    let power = CYCLING_POWER_SERVICE.to_string();
    let hr = HEART_RATE_SERVICE.to_string();
    if holds(&d.services, &ftms) || holds(&d.services, &power) {
        DeviceType::SmartTrainer
    } else if holds(&d.services, &hr) {
        DeviceType::HeartRateMonitor
    } else {
        DeviceType::Unknown
    }
}

} // verus!
