use core_cube::codec::{
    decode_button, decode_sensor, encode_light, encode_move, encode_move_to, encode_sensor_bytes,
    encode_sound, ButtonStatus, CollisionStatus, DecodeError, DoubleTapStatus, PostureStatus,
    SensorSnapshot, SlopeStatus,
};

#[test]
fn motor_frame_layout() {
    // Both motors at speed 100, one forward and one reverse, for the
    // longest duration.
    let frame = encode_move(0x01, 0x64, 0x02, 0x64, 0xff);
    assert_eq!(frame, vec![0x02, 0x01, 0x01, 0x64, 0x02, 0x02, 0x64, 0xff]);
}

#[test]
fn move_to_frame_little_endian() {
    let frame = encode_move_to(4, 0, 80, 3, 0x1234, 703, 270);
    assert_eq!(frame.len(), 13);
    assert_eq!(&frame[0..7], &[0x03, 0x00, 4, 0, 80, 3, 0x00]);
    assert_eq!(frame[7], 0x34);
    assert_eq!(frame[8], 0x12);
    assert_eq!(frame[9], 191); // 703 = 2 * 256 + 191
    assert_eq!(frame[10], 2);
    assert_eq!(frame[11], 14); // 270 = 1 * 256 + 14
    assert_eq!(frame[12], 1);
}

#[test]
fn light_frame_layout() {
    let frame = encode_light(0x00, 0x10, 0x00);
    assert_eq!(frame, vec![0x03, 0x00, 0x01, 0x01, 0x00, 0x00, 0x10, 0x00]);
}

#[test]
fn sound_frame_layout() {
    // The shutdown beep: one repeat, one note triple.
    let beep = encode_sound(0x01, &vec![(0x0a, 57, 0xff)]);
    assert_eq!(beep, vec![0x03, 0x01, 0x01, 0x0a, 57, 0xff]);
    // The long-press chime.
    let chime = encode_sound(0x01, &vec![(0x05, 97, 0x80)]);
    assert_eq!(chime, vec![0x03, 0x01, 0x01, 0x05, 97, 0x80]);
    // Two triples lay out flat after the repeat count.
    let two = encode_sound(0x02, &vec![(1, 2, 3), (4, 5, 6)]);
    assert_eq!(two, vec![0x03, 0x01, 0x02, 1, 2, 3, 4, 5, 6]);
}

#[test]
fn button_decoding() {
    let press = decode_button(&vec![0x01, 0x80], 42).unwrap();
    assert_eq!(press.time, 42);
    assert_eq!(press.button, ButtonStatus::Press);
    let release = decode_button(&vec![0x01, 0x00], 43).unwrap();
    assert_eq!(release.button, ButtonStatus::Release);
    let odd = decode_button(&vec![0x01, 0x55], 44).unwrap();
    assert_eq!(odd.button, ButtonStatus::Unknown);
}

#[test]
fn button_too_short_is_decode_error() {
    assert_eq!(decode_button(&vec![0x01], 0), Err(DecodeError::TooShort));
    assert_eq!(decode_button(&vec![], 0), Err(DecodeError::TooShort));
}

#[test]
fn sensor_decoding() {
    let s = decode_sensor(&vec![0x01, 0x01, 0x00, 0x01, 0x05, 0xc8], 7).unwrap();
    assert_eq!(s.timestamp, 7);
    assert_eq!(s.slope, SlopeStatus::Horizontal);
    assert_eq!(s.collision, CollisionStatus::NotDetect);
    assert_eq!(s.double_tap, DoubleTapStatus::Detect);
    assert_eq!(s.posture, PostureStatus::RightSideUp);
    assert_eq!(s.shaking, 200);
}

#[test]
fn sensor_unknown_bytes_decode_to_unknown() {
    let s = decode_sensor(&vec![0x01, 0x09, 0x07, 0x07, 0x00, 0x00], 0).unwrap();
    assert_eq!(s.slope, SlopeStatus::Unknown);
    assert_eq!(s.collision, CollisionStatus::Unknown);
    assert_eq!(s.double_tap, DoubleTapStatus::Unknown);
    assert_eq!(s.posture, PostureStatus::Unknown);
}

#[test]
fn sensor_too_short_is_decode_error() {
    assert_eq!(decode_sensor(&vec![0x01, 0x00, 0x00, 0x00, 0x01], 0), Err(DecodeError::TooShort));
}

#[test]
fn sensor_roundtrip_all_combinations() {
    let slopes = [SlopeStatus::Unknown, SlopeStatus::Aslant, SlopeStatus::Horizontal];
    let collisions = [
        CollisionStatus::Unknown,
        CollisionStatus::NotDetect,
        CollisionStatus::Detect,
    ];
    let taps = [DoubleTapStatus::Unknown, DoubleTapStatus::NotDetect, DoubleTapStatus::Detect];
    let postures = [
        PostureStatus::Unknown,
        PostureStatus::Normal,
        PostureStatus::Reverse,
        PostureStatus::Downward,
        PostureStatus::Upward,
        PostureStatus::RightSideUp,
        PostureStatus::LeftSideUp,
    ];
    for &slope in &slopes {
        for &collision in &collisions {
            for &double_tap in &taps {
                for &posture in &postures {
                    for &shaking in &[0u8, 1, 128, 255] {
                        let s = SensorSnapshot {
                            timestamp: 123,
                            slope,
                            collision,
                            double_tap,
                            posture,
                            shaking,
                        };
                        let bytes = encode_sensor_bytes(&s);
                        assert_eq!(decode_sensor(&bytes, 123), Ok(s));
                    }
                }
            }
        }
    }
}
