use fitness_ble::codec::{
    crank_cadence, decode_control_point_response, decode_csc, decode_heart_rate,
    decode_indoor_bike_data, decode_power, encode_control_point, opcode, wheel_speed,
};
use fitness_ble::types::{
    ControlPointRequest, ControlPointResponse, CrankSample, DecodeError, ResultCode, WheelSample,
};

#[test]
fn heart_rate_eight_bit_without_rr() {
    let d = decode_heart_rate(&vec![0x00, 0x3C], 7).unwrap();
    assert_eq!(d.bpm, 60);
    assert_eq!(d.timestamp, 7);
    assert!(!d.sensor_contact);
    assert!(d.rr_intervals.is_empty());
}

#[test]
fn heart_rate_eight_bit_with_rr_flag() {
    // 8-bit value 0x3C, then the RR field starts at the third byte: 0x00 0x20 is one
    // interval (0x2000) and the lone trailing byte is not a whole field.
    let d = decode_heart_rate(&vec![0x10, 0x3C, 0x00, 0x20, 0x03], 0).unwrap();
    assert_eq!(d.bpm, 60);
    assert_eq!(d.rr_intervals, vec![0x2000]);
}

#[test]
fn heart_rate_sixteen_bit_with_rr() {
    let d = decode_heart_rate(&vec![0x11, 0x3C, 0x00, 0x20, 0x03], 0).unwrap();
    assert_eq!(d.bpm, 60);
    assert_eq!(d.rr_intervals, vec![0x0320]);
}

#[test]
fn heart_rate_contact_and_energy() {
    let d = decode_heart_rate(&vec![0x0E, 0x50, 0x10, 0x00], 0).unwrap();
    assert_eq!(d.bpm, 0x50);
    assert!(d.sensor_contact);
    let d = decode_heart_rate(&vec![0x02, 0x50], 0).unwrap();
    assert!(!d.sensor_contact);
    assert_eq!(decode_heart_rate(&vec![0x08, 0x50, 0x10], 0).unwrap_err(), DecodeError::Truncated);
}

#[test]
fn short_payloads_are_truncated() {
    assert_eq!(decode_heart_rate(&vec![], 0).unwrap_err(), DecodeError::Truncated);
    assert_eq!(decode_heart_rate(&vec![0x00], 0).unwrap_err(), DecodeError::Truncated);
    assert_eq!(decode_heart_rate(&vec![0x01, 0x3C], 0).unwrap_err(), DecodeError::Truncated);
    for n in 0..4usize {
        assert_eq!(decode_power(&vec![0u8; n], None, 0).unwrap_err(), DecodeError::Truncated);
    }
    assert_eq!(decode_csc(&vec![], None, None, 0).unwrap_err(), DecodeError::Truncated);
    assert_eq!(decode_csc(&vec![0x01, 1, 2, 3], None, None, 0).unwrap_err(), DecodeError::Truncated);
    assert_eq!(decode_indoor_bike_data(&vec![0x00], 0).unwrap_err(), DecodeError::Truncated);
    assert_eq!(decode_indoor_bike_data(&vec![0x00, 0x00, 0x10], 0).unwrap_err(), DecodeError::Truncated);
    for n in 0..3usize {
        assert_eq!(decode_control_point_response(&vec![0x80u8; n]).unwrap_err(), DecodeError::Truncated);
    }
}

#[test]
fn power_instantaneous_only() {
    let d = decode_power(&vec![0x00, 0x00, 0xC8, 0x00], None, 3).unwrap();
    assert_eq!(d.watts, 200);
    assert_eq!(d.cadence, None);
    assert_eq!(d.crank, None);
    assert_eq!(d.timestamp, 3);
    let d = decode_power(&vec![0x00, 0x00, 0x38, 0xFF], None, 0).unwrap();
    assert_eq!(d.watts, -200);
}

#[test]
fn power_crank_cadence() {
    // balance (1 byte) and crank data present
    let bytes = vec![0x21, 0x00, 0x64, 0x00, 0x32, 0x0A, 0x00, 0x00, 0x04];
    let d = decode_power(&bytes, None, 0).unwrap();
    assert_eq!(d.watts, 100);
    assert_eq!(d.crank, Some(CrankSample { revolutions: 10, event_time: 1024 }));
    assert_eq!(d.cadence, None);
    let prev = Some(CrankSample { revolutions: 9, event_time: 0 });
    let d = decode_power(&bytes, prev, 0).unwrap();
    assert_eq!(d.cadence, Some(60));
    assert_eq!(decode_power(&bytes[..8].to_vec(), prev, 0).unwrap_err(), DecodeError::Truncated);
}

#[test]
fn csc_wheel_speed_over_two_samples() {
    let first = decode_csc(&vec![0x01, 100, 0, 0, 0, 0x00, 0x00], None, None, 0).unwrap();
    assert_eq!(first.speed, None);
    assert_eq!(first.wheel, Some(WheelSample { revolutions: 100, event_time: 0 }));
    let second = decode_csc(&vec![0x01, 105, 0, 0, 0, 0x00, 0x04], first.wheel, first.crank, 1).unwrap();
    // 5 revolutions in 1024/1024 s: 300 revolutions per minute
    assert_eq!(second.speed, Some(300));
    assert_eq!(second.cadence, None);
}

#[test]
fn csc_event_time_wraps() {
    let prev = WheelSample { revolutions: 100, event_time: 65000 };
    let t = ((65000u32 + 1024) % 65536) as u16;
    let bytes = vec![0x01, 105, 0, 0, 0, (t & 0xFF) as u8, (t >> 8) as u8];
    let d = decode_csc(&bytes, Some(prev), None, 0).unwrap();
    assert_eq!(d.speed, Some(300));
    let cur = WheelSample { revolutions: 4, event_time: 512 };
    let prev = WheelSample { revolutions: u32::MAX, event_time: 0 };
    assert_eq!(wheel_speed(prev, cur), Some(5 * 61440 / 512));
    assert_eq!(wheel_speed(cur, cur), None);
}

#[test]
fn csc_crank_cadence() {
    let prev = Some(CrankSample { revolutions: 65535, event_time: 65024 });
    let d = decode_csc(&vec![0x02, 0x01, 0x00, 0x00, 0x00], None, prev, 0).unwrap();
    assert_eq!(d.crank, Some(CrankSample { revolutions: 1, event_time: 0 }));
    assert_eq!(d.cadence, Some(2 * 61440 / 512));
    assert_eq!(crank_cadence(prev.unwrap(), prev.unwrap()), None);
}

#[test]
fn indoor_bike_data_fields() {
    let d = decode_indoor_bike_data(&vec![0x44, 0x00, 0xE8, 0x03, 0xB4, 0x00, 0x96, 0x00], 9).unwrap();
    assert_eq!(d.speed, Some(1000));
    assert_eq!(d.cadence, Some(180));
    assert_eq!(d.power, Some(150));
    assert_eq!(d.heart_rate, None);
    assert_eq!(d.timestamp, 9);
    let d = decode_indoor_bike_data(&vec![0x01, 0x02, 0x78], 0).unwrap();
    assert_eq!(d.speed, None);
    assert_eq!(d.heart_rate, Some(120));
    // every field up to heart rate present, speed aside: 2+2+2+3+2+2+2+5 bytes
    let mut bytes = vec![0xFF, 0x03];
    bytes.extend(vec![0u8; 20]);
    bytes.push(0x5A);
    let d = decode_indoor_bike_data(&bytes, 0).unwrap();
    assert_eq!(d.heart_rate, Some(0x5A));
    assert_eq!(d.power, Some(0));
}

#[test]
fn control_point_encoding() {
    assert_eq!(encode_control_point(&ControlPointRequest::RequestControl), vec![0x00]);
    assert_eq!(encode_control_point(&ControlPointRequest::SetTargetPower(200)), vec![0x05, 0xC8, 0x00]);
    assert_eq!(encode_control_point(&ControlPointRequest::SetTargetPower(-1)), vec![0x05, 0xFF, 0xFF]);
    assert_eq!(encode_control_point(&ControlPointRequest::SetTargetResistanceLevel(40)), vec![0x04, 40]);
    assert_eq!(encode_control_point(&ControlPointRequest::StartOrResume), vec![0x07]);
    assert_eq!(encode_control_point(&ControlPointRequest::StopOrPause { pause: true }), vec![0x08, 0x02]);
    assert_eq!(encode_control_point(&ControlPointRequest::StopOrPause { pause: false }), vec![0x08, 0x01]);
    let sim = ControlPointRequest::SetIndoorBikeSimulation { wind_speed: -1000, grade: 250, crr: 40, cw: 51 };
    assert_eq!(encode_control_point(&sim), vec![0x11, 0x18, 0xFC, 0xFA, 0x00, 40, 51]);
}

#[test]
fn control_point_response_decoding() {
    assert_eq!(
        decode_control_point_response(&vec![0x80, 0x05, 0x01]),
        Ok(ControlPointResponse { request_opcode: 0x05, result: ResultCode::Success })
    );
    assert_eq!(
        decode_control_point_response(&vec![0x80, 0x11, 0x05]),
        Ok(ControlPointResponse { request_opcode: 0x11, result: ResultCode::ControlNotPermitted })
    );
    assert_eq!(decode_control_point_response(&vec![0x80, 0x05, 0x09]), Err(DecodeError::UnknownResultCode(9)));
    assert_eq!(decode_control_point_response(&vec![0x05, 0x05, 0x01]), Err(DecodeError::NotAResponse(5)));
}

#[test]
fn response_round_trip_for_every_request() {
    let requests = vec![
        ControlPointRequest::RequestControl,
        ControlPointRequest::SetTargetResistanceLevel(3),
        ControlPointRequest::SetTargetPower(250),
        ControlPointRequest::StartOrResume,
        ControlPointRequest::StopOrPause { pause: false },
        ControlPointRequest::SetIndoorBikeSimulation { wind_speed: 0, grade: 100, crr: 33, cw: 51 },
    ];
    let codes = [(1u8, ResultCode::Success), (2, ResultCode::NotSupported), (3, ResultCode::InvalidParameter),
        (4, ResultCode::OperationFailed), (5, ResultCode::ControlNotPermitted)];
    for req in requests.iter() {
        let bytes = encode_control_point(req);
        assert_eq!(bytes[0], opcode(req));
        for (code, result) in codes.iter() {
            let resp = decode_control_point_response(&vec![0x80, bytes[0], *code]).unwrap();
            assert_eq!(resp.request_opcode, opcode(req));
            assert_eq!(resp.result, *result);
        }
    }
}
