//! Decoders for the telemetry characteristics and the FTMS control point codec.
//! Every function here is a pure transform on byte sequences.
use vstd::prelude::*;
use crate::types::{
    CSCData, ControlPointRequest, ControlPointResponse, CrankSample, DecodeError, HeartRateData, IndoorBikeData, PowerData, ResultCode,
    WheelSample,
};

verus! {

/// Event times count in 1/1024 s: revolutions per event tick times this gives revolutions per minute.
pub const TICKS_PER_MINUTE: u64 = 61440;

/// Opcode that starts every control point response indication.
pub const RESPONSE_OPCODE: u8 = 0x80;

pub open spec fn le16_at(b: Seq<u8>, i: int) -> int {
    b[i] as int + 256 * (b[i + 1] as int)
}

pub open spec fn le32_at(b: Seq<u8>, i: int) -> int {
    b[i] as int + 256 * (b[i + 1] as int) + 65536 * (b[i + 2] as int) + 16777216 * (b[i + 3] as int)
}

/// Two's complement reading of a 16-bit value.
pub open spec fn signed16(u: int) -> int {
    if u < 32768 {
        u
    } else {
        u - 65536
    }
}

/// Bytes taken by an optional field of `n` bytes.
pub open spec fn field_len(present: bool, n: int) -> int {
    if present {
        n
    } else {
        0
    }
}

/// Difference of two readings of a counter that wraps at `modulus`.
pub open spec fn wrapping_delta(prev: int, cur: int, modulus: int) -> int {
    if cur >= prev {
        cur - prev
    } else {
        cur + modulus - prev
    }
}

/// Revolutions per minute between two readings, absent when no time elapsed.
pub open spec fn revs_per_minute(prev_revs: int, cur_revs: int, revs_modulus: int, prev_time: u16, cur_time: u16) -> Option<int> {
    let dt = wrapping_delta(prev_time as int, cur_time as int, 65536);
    if dt == 0 {
        None
    } else {
        Some(wrapping_delta(prev_revs, cur_revs, revs_modulus) * 61440 / dt)
    }
}

pub open spec fn wheel_rpm(prev: WheelSample, cur: WheelSample) -> Option<u64> {
    match revs_per_minute(prev.revolutions as int, cur.revolutions as int, 0x1_0000_0000, prev.event_time, cur.event_time) {
        Some(v) => Some(v as u64),
        None => None,
    }
}

pub open spec fn crank_rpm(prev: CrankSample, cur: CrankSample) -> Option<u64> {
    match revs_per_minute(prev.revolutions as int, cur.revolutions as int, 65536, prev.event_time, cur.event_time) {
        Some(v) => Some(v as u64),
        None => None,
    }
}

fn read_u16(b: &Vec<u8>, i: usize) -> (r: u16)
    requires
        i + 1 < b.len(),
    ensures
        r as int == le16_at(b@, i as int),
{
    b[i] as u16 + (b[i + 1] as u16) * 256
}

fn read_u32(b: &Vec<u8>, i: usize) -> (r: u32)
    requires
        i + 3 < b.len(),
    ensures
        r as int == le32_at(b@, i as int),
{
    b[i] as u32 + (b[i + 1] as u32) * 256 + (b[i + 2] as u32) * 65536 + (b[i + 3] as u32) * 16777216
}

fn to_signed16(u: u16) -> (r: i16)
    ensures
        r as int == signed16(u as int),
{
    if u < 32768 {
        u as i16
    } else {
        (u as i32 - 65536) as i16
    }
}

fn tick_delta(prev: u16, cur: u16) -> (r: u64)
    ensures
        r as int == wrapping_delta(prev as int, cur as int, 65536),
        r < 65536,
{
    if cur >= prev {
        (cur - prev) as u64
    } else {
        cur as u64 + 65536 - prev as u64
    }
}

/// Wheel revolutions per minute between two wheel readings, with both counters wrapping.
pub fn wheel_speed(prev: WheelSample, cur: WheelSample) -> (r: Option<u64>)
    ensures
        r == wheel_rpm(prev, cur),
{
    let dt = tick_delta(prev.event_time, cur.event_time);
    if dt == 0 {
        return None;
    }
    let dr: u64 = if cur.revolutions >= prev.revolutions {
        (cur.revolutions - prev.revolutions) as u64
    } else {
        cur.revolutions as u64 + 0x1_0000_0000 - prev.revolutions as u64
    };
    assert(dr * 61440 <= 0xffff_ffff * 61440) by (nonlinear_arith)
        requires
            dr <= 0xffff_ffff,
    ;
    Some(dr * TICKS_PER_MINUTE / dt)
}

/// Crank revolutions per minute between two crank readings, with both counters wrapping.
pub fn crank_cadence(prev: CrankSample, cur: CrankSample) -> (r: Option<u64>)
    ensures
        r == crank_rpm(prev, cur),
{
    let dt = tick_delta(prev.event_time, cur.event_time);
    if dt == 0 {
        return None;
    }
    let dr = tick_delta(prev.revolutions, cur.revolutions);
    assert(dr * 61440 <= 65535 * 61440) by (nonlinear_arith)
        requires
            dr <= 65535,
    ;
    Some(dr * TICKS_PER_MINUTE / dt)
}

// ---------------------------------------------------------------- heart rate

pub open spec fn hr_wide(b: Seq<u8>) -> bool {
    b[0] & 0x01u8 != 0
}

pub open spec fn hr_has_rr(b: Seq<u8>) -> bool {
    b[0] & 0x10u8 != 0
}

pub open spec fn hr_rr_start(b: Seq<u8>) -> int {
    (if hr_wide(b) { 3int } else { 2int }) + field_len(b[0] & 0x08u8 != 0, 2)
}

pub open spec fn heart_rate_truncated(b: Seq<u8>) -> bool {
    b.len() == 0 || b.len() < hr_rr_start(b)
}

pub open spec fn hr_bpm(b: Seq<u8>) -> int {
    if hr_wide(b) {
        le16_at(b, 1)
    } else {
        b[1] as int
    }
}

pub open spec fn hr_contact(b: Seq<u8>) -> bool {
    b[0] & 0x02u8 != 0 && b[0] & 0x04u8 != 0
}

/// The RR intervals: every whole 16-bit field after the fixed part; a lone trailing byte is ignored.
pub open spec fn hr_rr(b: Seq<u8>) -> Seq<u16> {
    if hr_has_rr(b) {
        let start = hr_rr_start(b);
        Seq::new(((b.len() - start) / 2) as nat, |k: int| le16_at(b, start + 2 * k) as u16)
    } else {
        Seq::empty()
    }
}

/// What decoding `b` as a Heart Rate Measurement at time `ts` yields.
pub open spec fn heart_rate_decoded(b: Seq<u8>, ts: u64, r: Result<HeartRateData, DecodeError>) -> bool {
    match r {
        Ok(d) => !heart_rate_truncated(b) && d.bpm as int == hr_bpm(b) && d.timestamp == ts
            && d.sensor_contact == hr_contact(b) && d.rr_intervals@ == hr_rr(b),
        Err(e) => heart_rate_truncated(b) && e == DecodeError::Truncated,
    }
}

/// Decodes a Heart Rate Measurement notification captured at `timestamp`.
pub fn decode_heart_rate(bytes: &Vec<u8>, timestamp: u64) -> (r: Result<HeartRateData, DecodeError>)
    ensures
        heart_rate_decoded(bytes@, timestamp, r),
{
    let len = bytes.len();
    if len == 0 {
        return Err(DecodeError::Truncated);
    }
    let flags = bytes[0];
    let wide = flags & 0x01u8 != 0;
    let mut pos: usize = if wide { 3 } else { 2 };
    if flags & 0x08u8 != 0 {
        pos = pos + 2;
    }
    if len < pos {
        return Err(DecodeError::Truncated);
    }
    let bpm: u16 = if wide { read_u16(bytes, 1) } else { bytes[1] as u16 };
    let sensor_contact = flags & 0x02u8 != 0 && flags & 0x04u8 != 0;
    let mut rr_intervals: Vec<u16> = Vec::new();
    if flags & 0x10u8 != 0 {
        let n: usize = (len - pos) / 2;
        let mut k: usize = 0;
        while k < n
            invariant
                len == bytes@.len(),
                pos == hr_rr_start(bytes@),
                pos <= len,
                n == (len - pos) / 2,
                hr_has_rr(bytes@),
                k <= n,
                rr_intervals@ =~= hr_rr(bytes@).take(k as int),
            decreases n - k,
        {
            let v = read_u16(bytes, pos + 2 * k);
            rr_intervals.push(v);
            k = k + 1;
            assert(rr_intervals@ =~= hr_rr(bytes@).take(k as int));
        }
        assert(rr_intervals@ =~= hr_rr(bytes@));
    } else {
        assert(rr_intervals@ =~= hr_rr(bytes@));
    }
    Ok(HeartRateData { bpm, timestamp, sensor_contact, rr_intervals })
}

// ---------------------------------------------------------------- cycling power

pub open spec fn pw_flags(b: Seq<u8>) -> u16 {
    le16_at(b, 0) as u16
}

pub open spec fn pw_has_crank(b: Seq<u8>) -> bool {
    pw_flags(b) & 0x0020u16 != 0
}

/// Offset of the crank revolution data: after power, pedal balance, accumulated torque and wheel data.
pub open spec fn pw_crank_at(b: Seq<u8>) -> int {
    let f = pw_flags(b);
    4 + field_len(f & 0x0001u16 != 0, 1) + field_len(f & 0x0004u16 != 0, 2) + field_len(
        f & 0x0010u16 != 0,
        6,
    )
}

pub open spec fn pw_end(b: Seq<u8>) -> int {
    pw_crank_at(b) + field_len(pw_has_crank(b), 4)
}

pub open spec fn pw_crank(b: Seq<u8>) -> Option<CrankSample> {
    if pw_has_crank(b) {
        let at = pw_crank_at(b);
        Some(CrankSample { revolutions: le16_at(b, at) as u16, event_time: le16_at(b, at + 2) as u16 })
    } else {
        None
    }
}

/// Cadence kept in a power record: crank rpm, held at 255 when the derived value is larger.
pub open spec fn power_cadence(prev: Option<CrankSample>, cur: Option<CrankSample>) -> Option<u8> {
    match (prev, cur) {
        (Some(p), Some(c)) => match crank_rpm(p, c) {
            Some(v) => Some(if v > 255 { 255u8 } else { v as u8 }),
            None => None,
        },
        _ => None,
    }
}

/// What decoding `b` as a Cycling Power Measurement yields, given the crank data of the previous one.
pub open spec fn power_spec(b: Seq<u8>, prev_crank: Option<CrankSample>, ts: u64) -> Result<PowerData, DecodeError> {
    if b.len() < 4 || b.len() < pw_end(b) {
        Err(DecodeError::Truncated)
    } else {
        Ok(PowerData {
            watts: signed16(le16_at(b, 2)) as i16,
            cadence: power_cadence(prev_crank, pw_crank(b)),
            crank: pw_crank(b),
            timestamp: ts,
        })
    }
}

/// Decodes a Cycling Power Measurement notification captured at `timestamp`; the cadence is
/// derived from `prev_crank`, the crank data of the previous measurement, when both exist.
pub fn decode_power(bytes: &Vec<u8>, prev_crank: Option<CrankSample>, timestamp: u64) -> (r: Result<PowerData, DecodeError>)
    ensures
        r == power_spec(bytes@, prev_crank, timestamp),
{
    let len = bytes.len();
    if len < 4 {
        return Err(DecodeError::Truncated);
    }
    let flags = read_u16(bytes, 0);
    let watts = to_signed16(read_u16(bytes, 2));
    let mut pos: usize = 4;
    if flags & 0x0001u16 != 0 {
        pos = pos + 1;
    }
    if flags & 0x0004u16 != 0 {
        pos = pos + 2;
    }
    if flags & 0x0010u16 != 0 {
        pos = pos + 6;
    }
    assert(pos == pw_crank_at(bytes@));
    let has_crank = flags & 0x0020u16 != 0;
    if has_crank && len < pos + 4 || len < pos {
        return Err(DecodeError::Truncated);
    }
    let crank = if has_crank {
        Some(CrankSample { revolutions: read_u16(bytes, pos), event_time: read_u16(bytes, pos + 2) })
    } else {
        None
    };
    let cadence = match (prev_crank, crank) {
        (Some(p), Some(c)) => match crank_cadence(p, c) {
            Some(v) => Some(if v > 255 { 255u8 } else { v as u8 }),
            None => None,
        },
        _ => None,
    };
    Ok(PowerData { watts, cadence, crank, timestamp })
}

// ---------------------------------------------------------------- cycling speed and cadence

pub open spec fn csc_has_wheel(b: Seq<u8>) -> bool {
    b[0] & 0x01u8 != 0
}

pub open spec fn csc_has_crank(b: Seq<u8>) -> bool {
    b[0] & 0x02u8 != 0
}

pub open spec fn csc_crank_at(b: Seq<u8>) -> int {
    1 + field_len(csc_has_wheel(b), 6)
}

pub open spec fn csc_end(b: Seq<u8>) -> int {
    csc_crank_at(b) + field_len(csc_has_crank(b), 4)
}

pub open spec fn csc_wheel(b: Seq<u8>) -> Option<WheelSample> {
    if csc_has_wheel(b) {
        Some(WheelSample { revolutions: le32_at(b, 1) as u32, event_time: le16_at(b, 5) as u16 })
    } else {
        None
    }
}

pub open spec fn csc_crank(b: Seq<u8>) -> Option<CrankSample> {
    if csc_has_crank(b) {
        let at = csc_crank_at(b);
        Some(CrankSample { revolutions: le16_at(b, at) as u16, event_time: le16_at(b, at + 2) as u16 })
    } else {
        None
    }
}

pub open spec fn opt_wheel_rpm(prev: Option<WheelSample>, cur: Option<WheelSample>) -> Option<u64> {
    match (prev, cur) {
        (Some(p), Some(c)) => wheel_rpm(p, c),
        _ => None,
    }
}

pub open spec fn opt_crank_rpm(prev: Option<CrankSample>, cur: Option<CrankSample>) -> Option<u64> {
    match (prev, cur) {
        (Some(p), Some(c)) => crank_rpm(p, c),
        _ => None,
    }
}

/// What decoding `b` as a CSC Measurement yields, given the readings of the previous one.
pub open spec fn csc_spec(b: Seq<u8>, prev_wheel: Option<WheelSample>, prev_crank: Option<CrankSample>, ts: u64) -> Result<CSCData, DecodeError> {
    if b.len() < 1 || b.len() < csc_end(b) {
        Err(DecodeError::Truncated)
    } else {
        Ok(CSCData {
            cadence: opt_crank_rpm(prev_crank, csc_crank(b)),
            speed: opt_wheel_rpm(prev_wheel, csc_wheel(b)),
            wheel: csc_wheel(b),
            crank: csc_crank(b),
            timestamp: ts,
        })
    }
}

/// Decodes a CSC Measurement notification captured at `timestamp`. Speed and cadence are
/// derived against the previous readings and are absent when there is none.
pub fn decode_csc(bytes: &Vec<u8>, prev_wheel: Option<WheelSample>, prev_crank: Option<CrankSample>, timestamp: u64) -> (r: Result<CSCData, DecodeError>)
    ensures
        r == csc_spec(bytes@, prev_wheel, prev_crank, timestamp),
{
    let len = bytes.len();
    if len < 1 {
        return Err(DecodeError::Truncated);
    }
    let flags = bytes[0];
    let has_wheel = flags & 0x01u8 != 0;
    let has_crank = flags & 0x02u8 != 0;
    let pos: usize = if has_wheel { 7 } else { 1 };
    if has_wheel && len < 7 || has_crank && len < pos + 4 {
        return Err(DecodeError::Truncated);
    }
    let wheel = if has_wheel {
        Some(WheelSample { revolutions: read_u32(bytes, 1), event_time: read_u16(bytes, 5) })
    } else {
        None
    };
    let crank = if has_crank {
        Some(CrankSample { revolutions: read_u16(bytes, pos), event_time: read_u16(bytes, pos + 2) })
    } else {
        None
    };
    let speed = match (prev_wheel, wheel) {
        (Some(p), Some(c)) => wheel_speed(p, c),
        _ => None,
    };
    let cadence = match (prev_crank, crank) {
        (Some(p), Some(c)) => crank_cadence(p, c),
        _ => None,
    };
    Ok(CSCData { cadence, speed, wheel, crank, timestamp })
}

// ---------------------------------------------------------------- FTMS indoor bike data

/// The cursor after an optional field of `n` bytes.
fn advance(pos: usize, present: bool, n: usize) -> (r: usize)
    requires
        pos <= 64,
        n <= 8,
    ensures
        r == pos + field_len(present, n as int),
        r <= pos + 8,
{
    if present {
        pos + n
    } else {
        pos
    }
}

pub open spec fn ibd_flags(b: Seq<u8>) -> u16 {
    le16_at(b, 0) as u16
}

/// Instantaneous speed is present when the "more data" bit is clear.
pub open spec fn ibd_has_speed(b: Seq<u8>) -> bool {
    ibd_flags(b) & 0x0001u16 == 0
}

pub open spec fn ibd_has_cadence(b: Seq<u8>) -> bool {
    ibd_flags(b) & 0x0004u16 != 0
}

pub open spec fn ibd_has_power(b: Seq<u8>) -> bool {
    ibd_flags(b) & 0x0040u16 != 0
}

pub open spec fn ibd_has_heart_rate(b: Seq<u8>) -> bool {
    ibd_flags(b) & 0x0200u16 != 0
}

/// Offset of instantaneous cadence: after speed and average speed.
pub open spec fn ibd_cadence_at(b: Seq<u8>) -> int {
    2 + field_len(ibd_has_speed(b), 2) + field_len(ibd_flags(b) & 0x0002u16 != 0, 2)
}

/// Offset of instantaneous power: after cadence, average cadence, total distance and resistance level.
pub open spec fn ibd_power_at(b: Seq<u8>) -> int {
    let f = ibd_flags(b);
    ibd_cadence_at(b) + field_len(ibd_has_cadence(b), 2) + field_len(f & 0x0008u16 != 0, 2)
        + field_len(f & 0x0010u16 != 0, 3) + field_len(f & 0x0020u16 != 0, 2)
}

/// Offset of heart rate: after power, average power and expended energy.
pub open spec fn ibd_heart_rate_at(b: Seq<u8>) -> int {
    let f = ibd_flags(b);
    ibd_power_at(b) + field_len(ibd_has_power(b), 2) + field_len(f & 0x0080u16 != 0, 2)
        + field_len(f & 0x0100u16 != 0, 5)
}

pub open spec fn ibd_end(b: Seq<u8>) -> int {
    ibd_heart_rate_at(b) + field_len(ibd_has_heart_rate(b), 1)
}

/// What decoding `b` as FTMS Indoor Bike Data yields; fields after heart rate are not read.
pub open spec fn indoor_bike_spec(b: Seq<u8>, ts: u64) -> Result<IndoorBikeData, DecodeError> {
    if b.len() < 2 || b.len() < ibd_end(b) {
        Err(DecodeError::Truncated)
    } else {
        Ok(IndoorBikeData {
            speed: if ibd_has_speed(b) { Some(le16_at(b, 2) as u16) } else { None },
            cadence: if ibd_has_cadence(b) { Some(le16_at(b, ibd_cadence_at(b)) as u16) } else { None },
            power: if ibd_has_power(b) { Some(signed16(le16_at(b, ibd_power_at(b))) as i16) } else { None },
            heart_rate: if ibd_has_heart_rate(b) { Some(b[ibd_heart_rate_at(b)]) } else { None },
            timestamp: ts,
        })
    }
}

/// Decodes an FTMS Indoor Bike Data notification captured at `timestamp`.
#[verifier::rlimit(40)]
pub fn decode_indoor_bike_data(bytes: &Vec<u8>, timestamp: u64) -> (r: Result<IndoorBikeData, DecodeError>)
    ensures
        r == indoor_bike_spec(bytes@, timestamp),
{
    let len = bytes.len();
    if len < 2 {
        return Err(DecodeError::Truncated);
    }
    let flags = read_u16(bytes, 0);
    let has_speed = flags & 0x0001u16 == 0;
    let has_cadence = flags & 0x0004u16 != 0;
    let has_power = flags & 0x0040u16 != 0;
    let has_hr = flags & 0x0200u16 != 0;
    assert(flags == ibd_flags(bytes@));
    let cadence_at = advance(advance(2, has_speed, 2), flags & 0x0002u16 != 0, 2);
    let power_at = advance(
        advance(
            advance(advance(cadence_at, has_cadence, 2), flags & 0x0008u16 != 0, 2),
            flags & 0x0010u16 != 0,
            3,
        ),
        flags & 0x0020u16 != 0,
        2,
    );
    let hr_at = advance(
        advance(advance(power_at, has_power, 2), flags & 0x0080u16 != 0, 2),
        flags & 0x0100u16 != 0,
        5,
    );
    let pos = advance(hr_at, has_hr, 1);
    assert(cadence_at == ibd_cadence_at(bytes@));
    assert(power_at == ibd_power_at(bytes@));
    assert(hr_at == ibd_heart_rate_at(bytes@));
    if len < pos {
        return Err(DecodeError::Truncated);
    }
    let speed = if has_speed { Some(read_u16(bytes, 2)) } else { None };
    let cadence = if has_cadence { Some(read_u16(bytes, cadence_at)) } else { None };
    let power = if has_power { Some(to_signed16(read_u16(bytes, power_at))) } else { None };
    let heart_rate = if has_hr { Some(bytes[hr_at]) } else { None };
    Ok(IndoorBikeData { speed, cadence, power, heart_rate, timestamp })
}

// ---------------------------------------------------------------- FTMS control point

pub open spec fn opcode_of(req: ControlPointRequest) -> u8 {
    match req {
        ControlPointRequest::RequestControl => 0x00,
        ControlPointRequest::SetTargetResistanceLevel(_) => 0x04,
        ControlPointRequest::SetTargetPower(_) => 0x05,
        ControlPointRequest::StartOrResume => 0x07,
        ControlPointRequest::StopOrPause { .. } => 0x08,
        ControlPointRequest::SetIndoorBikeSimulation { .. } => 0x11,
    }
}

/// Little-endian two's complement bytes of a 16-bit value.
pub open spec fn i16_bytes(v: i16) -> Seq<u8> {
    let u = if v >= 0 { v as int } else { v as int + 65536 };
    seq![(u % 256) as u8, (u / 256) as u8]
}

/// The bytes written to the control point for `req`: opcode, then its parameters.
pub open spec fn control_point_bytes(req: ControlPointRequest) -> Seq<u8> {
    match req {
        ControlPointRequest::RequestControl => seq![0x00u8],
        ControlPointRequest::SetTargetResistanceLevel(level) => seq![0x04u8, level],
        ControlPointRequest::SetTargetPower(watts) => seq![0x05u8] + i16_bytes(watts),
        ControlPointRequest::StartOrResume => seq![0x07u8],
        ControlPointRequest::StopOrPause { pause } => seq![0x08u8, if pause { 2u8 } else { 1u8 }],
        ControlPointRequest::SetIndoorBikeSimulation { wind_speed, grade, crr, cw } => seq![0x11u8]
            + i16_bytes(wind_speed) + i16_bytes(grade) + seq![crr, cw],
    }
}

pub open spec fn result_code_from(c: u8) -> Option<ResultCode> {
    if c == 0x01 {
        Some(ResultCode::Success)
    } else if c == 0x02 {
        Some(ResultCode::NotSupported)
    } else if c == 0x03 {
        Some(ResultCode::InvalidParameter)
    } else if c == 0x04 {
        Some(ResultCode::OperationFailed)
    } else if c == 0x05 {
        Some(ResultCode::ControlNotPermitted)
    } else {
        None
    }
}

pub open spec fn result_code_byte(r: ResultCode) -> u8 {
    match r {
        ResultCode::Success => 0x01,
        ResultCode::NotSupported => 0x02,
        ResultCode::InvalidParameter => 0x03,
        ResultCode::OperationFailed => 0x04,
        ResultCode::ControlNotPermitted => 0x05,
    }
}

/// What decoding `b` as a control point response indication yields.
pub open spec fn control_point_response_spec(b: Seq<u8>) -> Result<ControlPointResponse, DecodeError> {
    if b.len() < 3 {
        Err(DecodeError::Truncated)
    } else if b[0] != RESPONSE_OPCODE {
        Err(DecodeError::NotAResponse(b[0]))
    } else {
        match result_code_from(b[2]) {
            Some(result) => Ok(ControlPointResponse { request_opcode: b[1], result }),
            None => Err(DecodeError::UnknownResultCode(b[2])),
        }
    }
}

fn push_i16(out: &mut Vec<u8>, v: i16)
    ensures
        final(out)@ == old(out)@ + i16_bytes(v),
{
    let u: u32 = if v >= 0 { v as u32 } else { (v as i32 + 65536) as u32 };
    out.push((u % 256) as u8);
    out.push((u / 256) as u8);
    assert(final(out)@ =~= old(out)@ + i16_bytes(v));
}

/// The opcode byte of a request.
pub fn opcode(req: &ControlPointRequest) -> (r: u8)
    ensures
        r == opcode_of(*req),
{
    match req {
        ControlPointRequest::RequestControl => 0x00,
        ControlPointRequest::SetTargetResistanceLevel(_) => 0x04,
        ControlPointRequest::SetTargetPower(_) => 0x05,
        ControlPointRequest::StartOrResume => 0x07,
        ControlPointRequest::StopOrPause { .. } => 0x08,
        ControlPointRequest::SetIndoorBikeSimulation { .. } => 0x11,
    }
}

/// Encodes a control point request into the bytes to write.
pub fn encode_control_point(req: &ControlPointRequest) -> (r: Vec<u8>)
    ensures
        r@ == control_point_bytes(*req),
{
    let mut out: Vec<u8> = Vec::new();
    out.push(opcode(req));
    match req {
        ControlPointRequest::SetTargetResistanceLevel(level) => {
            out.push(*level);
        },
        ControlPointRequest::SetTargetPower(watts) => {
            push_i16(&mut out, *watts);
        },
        ControlPointRequest::StopOrPause { pause } => {
            out.push(if *pause { 2u8 } else { 1u8 });
        },
        ControlPointRequest::SetIndoorBikeSimulation { wind_speed, grade, crr, cw } => {
            push_i16(&mut out, *wind_speed);
            push_i16(&mut out, *grade);
            out.push(*crr);
            out.push(*cw);
        },
        _ => {},
    }
    assert(out@ =~= control_point_bytes(*req));
    out
}

fn result_code(c: u8) -> (r: Option<ResultCode>)
    ensures
        r == result_code_from(c),
{
    if c == 0x01 {
        Some(ResultCode::Success)
    } else if c == 0x02 {
        Some(ResultCode::NotSupported)
    } else if c == 0x03 {
        Some(ResultCode::InvalidParameter)
    } else if c == 0x04 {
        Some(ResultCode::OperationFailed)
    } else if c == 0x05 {
        Some(ResultCode::ControlNotPermitted)
    } else {
        None
    }
}

/// Decodes a control point response indication: response opcode, echoed request opcode, result code.
pub fn decode_control_point_response(bytes: &Vec<u8>) -> (r: Result<ControlPointResponse, DecodeError>)
    ensures
        r == control_point_response_spec(bytes@),
{
    if bytes.len() < 3 {
        return Err(DecodeError::Truncated);
    }
    if bytes[0] != RESPONSE_OPCODE {
        return Err(DecodeError::NotAResponse(bytes[0]));
    }
    match result_code(bytes[2]) {
        Some(result) => Ok(ControlPointResponse { request_opcode: bytes[1], result }),
        None => Err(DecodeError::UnknownResultCode(bytes[2])),
    }
}

/// Every encoded request starts with its opcode, and the response that echoes that opcode
/// with any result code decodes successfully to that opcode and that result.
pub proof fn lemma_response_round_trip(req: ControlPointRequest, result: ResultCode)
    ensures
        control_point_bytes(req).len() >= 1,
        control_point_bytes(req)[0] == opcode_of(req),
        control_point_response_spec(
            seq![RESPONSE_OPCODE, control_point_bytes(req)[0], result_code_byte(result)],
        ) == Ok::<ControlPointResponse, DecodeError>(
            ControlPointResponse { request_opcode: opcode_of(req), result },
        ),
{
}

/// A payload shorter than the fixed part of its characteristic is refused as truncated:
/// 2 bytes for heart rate, 4 for cycling power, 1 for CSC, 2 for indoor bike data and
/// 3 for a control point response.
pub proof fn lemma_short_payloads_truncated(
    b: Seq<u8>,
    prev_wheel: Option<WheelSample>,
    prev_crank: Option<CrankSample>,
    ts: u64,
)
    ensures
        b.len() < 2 ==> heart_rate_truncated(b),
        b.len() < 4 ==> power_spec(b, prev_crank, ts) == Err::<PowerData, DecodeError>(DecodeError::Truncated),
        b.len() < 1 ==> csc_spec(b, prev_wheel, prev_crank, ts) == Err::<CSCData, DecodeError>(DecodeError::Truncated),
        b.len() < 2 ==> indoor_bike_spec(b, ts) == Err::<IndoorBikeData, DecodeError>(DecodeError::Truncated),
        b.len() < 3 ==> control_point_response_spec(b) == Err::<ControlPointResponse, DecodeError>(DecodeError::Truncated),
{
}

} // verus!
