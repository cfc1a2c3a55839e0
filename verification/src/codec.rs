//! Binary codec for the cube's commands and notifications.
//!
//! Commands are a type byte plus payload; notifications are fixed-layout byte
//! arrays. Every encoder states its exact frame, and the decoders map unknown
//! byte values to an explicit `Unknown` variant rather than failing. Only a
//! payload too short to carry its fields is a `DecodeError`.

use vstd::prelude::*;

verus! {

/// State of the cube's top button as a notification reports it.
#[derive(Debug, Copy, Clone, PartialEq, Eq, Structural)]
pub enum ButtonStatus {
    Unknown,
    Press,
    Release,
}

/// Whether the cube sits level or aslant.
#[derive(Debug, Copy, Clone, PartialEq, Eq, Structural)]
pub enum SlopeStatus {
    Unknown,
    Aslant,
    Horizontal,
}

/// Whether the motion sensor reports a collision.
#[derive(Debug, Copy, Clone, PartialEq, Eq, Structural)]
pub enum CollisionStatus {
    Unknown,
    NotDetect,
    Detect,
}

/// Whether the motion sensor reports a double tap.
#[derive(Debug, Copy, Clone, PartialEq, Eq, Structural)]
pub enum DoubleTapStatus {
    Unknown,
    NotDetect,
    Detect,
}

/// Which face of the cube points up.
#[derive(Debug, Copy, Clone, PartialEq, Eq, Structural)]
pub enum PostureStatus {
    Unknown,
    Normal,
    Reverse,
    Downward,
    Upward,
    RightSideUp,
    LeftSideUp,
}

/// One decoded motion-sensor notification. The latest snapshot is
/// authoritative; `timestamp` is the arrival time in milliseconds, supplied by
/// the notification path.
#[derive(Debug, Copy, Clone, PartialEq, Eq, Structural)]
pub struct SensorSnapshot {
    pub timestamp: u64,
    pub slope: SlopeStatus,
    pub collision: CollisionStatus,
    pub double_tap: DoubleTapStatus,
    pub posture: PostureStatus,
    pub shaking: u8,
}

/// One decoded button notification, timestamped on arrival (milliseconds).
#[derive(Debug, Copy, Clone, PartialEq, Eq, Structural)]
pub struct ButtonEvent {
    pub time: u64,
    pub button: ButtonStatus,
}

/// A malformed notification payload: too short to carry its fields. The
/// caller drops the event; decoding never panics.
#[derive(Debug, Copy, Clone, PartialEq, Eq, Structural)]
pub enum DecodeError {
    TooShort,
}

pub open spec fn button_of_byte(b: u8) -> ButtonStatus {
    if b == 0x00 {
        ButtonStatus::Release
    } else if b == 0x80 {
        ButtonStatus::Press
    } else {
        ButtonStatus::Unknown
    }
}

pub open spec fn slope_of_byte(b: u8) -> SlopeStatus {
    if b == 0x00 {
        SlopeStatus::Aslant
    } else if b == 0x01 {
        SlopeStatus::Horizontal
    } else {
        SlopeStatus::Unknown
    }
}

pub open spec fn collision_of_byte(b: u8) -> CollisionStatus {
    if b == 0x00 {
        CollisionStatus::NotDetect
    } else if b == 0x01 {
        CollisionStatus::Detect
    } else {
        CollisionStatus::Unknown
    }
}

pub open spec fn double_tap_of_byte(b: u8) -> DoubleTapStatus {
    if b == 0x00 {
        DoubleTapStatus::NotDetect
    } else if b == 0x01 {
        DoubleTapStatus::Detect
    } else {
        DoubleTapStatus::Unknown
    }
}

pub open spec fn posture_of_byte(b: u8) -> PostureStatus {
    if b == 0x01 {
        PostureStatus::Normal
    } else if b == 0x02 {
        PostureStatus::Reverse
    } else if b == 0x03 {
        PostureStatus::Downward
    } else if b == 0x04 {
        PostureStatus::Upward
    } else if b == 0x05 {
        PostureStatus::RightSideUp
    } else if b == 0x06 {
        PostureStatus::LeftSideUp
    } else {
        PostureStatus::Unknown
    }
}

pub open spec fn byte_of_slope(s: SlopeStatus) -> u8 {
    match s {
        SlopeStatus::Aslant => 0x00,
        SlopeStatus::Horizontal => 0x01,
        SlopeStatus::Unknown => 0xff,
    }
}

pub open spec fn byte_of_collision(s: CollisionStatus) -> u8 {
    match s {
        CollisionStatus::NotDetect => 0x00,
        CollisionStatus::Detect => 0x01,
        CollisionStatus::Unknown => 0xff,
    }
}

pub open spec fn byte_of_double_tap(s: DoubleTapStatus) -> u8 {
    match s {
        DoubleTapStatus::NotDetect => 0x00,
        DoubleTapStatus::Detect => 0x01,
        DoubleTapStatus::Unknown => 0xff,
    }
}

pub open spec fn byte_of_posture(s: PostureStatus) -> u8 {
    match s {
        PostureStatus::Normal => 0x01,
        PostureStatus::Reverse => 0x02,
        PostureStatus::Downward => 0x03,
        PostureStatus::Upward => 0x04,
        PostureStatus::RightSideUp => 0x05,
        PostureStatus::LeftSideUp => 0x06,
        PostureStatus::Unknown => 0xff,
    }
}

/// The snapshot that a sensor notification of at least six bytes decodes to,
/// given the arrival time.
pub open spec fn sensor_of_bytes(data: Seq<u8>, timestamp: u64) -> SensorSnapshot
    recommends
        data.len() >= 6,
{
    SensorSnapshot {
        timestamp,
        slope: slope_of_byte(data[1]),
        collision: collision_of_byte(data[2]),
        double_tap: double_tap_of_byte(data[3]),
        posture: posture_of_byte(data[4]),
        shaking: data[5],
    }
}

/// The wire bytes that stand for a snapshot; byte 0 is the notification's
/// type byte.
pub open spec fn sensor_bytes_of(s: SensorSnapshot) -> Seq<u8> {
    seq![
        0x01u8,
        byte_of_slope(s.slope),
        byte_of_collision(s.collision),
        byte_of_double_tap(s.double_tap),
        byte_of_posture(s.posture),
        s.shaking,
    ]
}

/// Decodes a raw button notification. Byte 1 carries the state; any value
/// other than the two documented ones maps to `Unknown`.
pub fn decode_button(data: &Vec<u8>, timestamp: u64) -> (r: Result<ButtonEvent, DecodeError>)
    ensures
        data@.len() >= 2 ==> r == Ok::<ButtonEvent, DecodeError>(
            ButtonEvent { time: timestamp, button: button_of_byte(data@[1]) },
        ),
        data@.len() < 2 ==> r == Err::<ButtonEvent, DecodeError>(DecodeError::TooShort),
{
    if data.len() < 2 {
        return Err(DecodeError::TooShort);
    }
    let b = data[1];
    let button = if b == 0x00 {
        ButtonStatus::Release
    } else if b == 0x80 {
        ButtonStatus::Press
    } else {
        ButtonStatus::Unknown
    };
    Ok(ButtonEvent { time: timestamp, button })
}

/// Decodes a raw motion-sensor notification into a snapshot. Bytes 1 to 5
/// carry slope, collision, double tap, posture and shaking magnitude.
pub fn decode_sensor(data: &Vec<u8>, timestamp: u64) -> (r: Result<SensorSnapshot, DecodeError>)
    ensures
        data@.len() >= 6 ==> r == Ok::<SensorSnapshot, DecodeError>(
            sensor_of_bytes(data@, timestamp),
        ),
        data@.len() < 6 ==> r == Err::<SensorSnapshot, DecodeError>(DecodeError::TooShort),
{
    if data.len() < 6 {
        return Err(DecodeError::TooShort);
    }
    let slope_b = data[1];
    let slope = if slope_b == 0x00 {
        SlopeStatus::Aslant
    } else if slope_b == 0x01 {
        SlopeStatus::Horizontal
    } else {
        SlopeStatus::Unknown
    };
    let col_b = data[2];
    let collision = if col_b == 0x00 {
        CollisionStatus::NotDetect
    } else if col_b == 0x01 {
        CollisionStatus::Detect
    } else {
        CollisionStatus::Unknown
    };
    let tap_b = data[3];
    let double_tap = if tap_b == 0x00 {
        DoubleTapStatus::NotDetect
    } else if tap_b == 0x01 {
        DoubleTapStatus::Detect
    } else {
        DoubleTapStatus::Unknown
    };
    let pos_b = data[4];
    let posture = if pos_b == 0x01 {
        PostureStatus::Normal
    } else if pos_b == 0x02 {
        PostureStatus::Reverse
    } else if pos_b == 0x03 {
        PostureStatus::Downward
    } else if pos_b == 0x04 {
        PostureStatus::Upward
    } else if pos_b == 0x05 {
        PostureStatus::RightSideUp
    } else if pos_b == 0x06 {
        PostureStatus::LeftSideUp
    } else {
        PostureStatus::Unknown
    };
    Ok(SensorSnapshot { timestamp, slope, collision, double_tap, posture, shaking: data[5] })
}

/// Encodes a snapshot back into the wire layout that `decode_sensor` reads.
/// `Unknown` variants take a byte outside every documented range.
pub fn encode_sensor_bytes(s: &SensorSnapshot) -> (r: Vec<u8>)
    ensures
        r@ == sensor_bytes_of(*s),
{
    let b1: u8 = match s.slope {
        SlopeStatus::Aslant => 0x00,
        SlopeStatus::Horizontal => 0x01,
        SlopeStatus::Unknown => 0xff,
    };
    let b2: u8 = match s.collision {
        CollisionStatus::NotDetect => 0x00,
        CollisionStatus::Detect => 0x01,
        CollisionStatus::Unknown => 0xff,
    };
    let b3: u8 = match s.double_tap {
        DoubleTapStatus::NotDetect => 0x00,
        DoubleTapStatus::Detect => 0x01,
        DoubleTapStatus::Unknown => 0xff,
    };
    let b4: u8 = match s.posture {
        PostureStatus::Normal => 0x01,
        PostureStatus::Reverse => 0x02,
        PostureStatus::Downward => 0x03,
        PostureStatus::Upward => 0x04,
        PostureStatus::RightSideUp => 0x05,
        PostureStatus::LeftSideUp => 0x06,
        PostureStatus::Unknown => 0xff,
    };
    let r: Vec<u8> = vec![0x01, b1, b2, b3, b4, s.shaking];
    proof {
        assert(r@ =~= sensor_bytes_of(*s));
    }
    r
}

/// Codec round trip: a snapshot encoded to wire bytes and decoded again, with
/// its own timestamp, is itself — for every combination of field values.
pub proof fn lemma_sensor_roundtrip(s: SensorSnapshot)
    ensures
        sensor_of_bytes(sensor_bytes_of(s), s.timestamp) == s,
{
}

/// The motor-control frame: both motors' direction and speed plus a shared
/// duration in deciseconds.
pub open spec fn move_frame(dir1: u8, speed1: u8, dir2: u8, speed2: u8, duration: u8) -> Seq<u8> {
    seq![0x02u8, 0x01, dir1, speed1, 0x02, dir2, speed2, duration]
}

/// The absolute-position frame; x, y and heading travel little-endian.
pub open spec fn move_to_frame(
    timeout: u8,
    moving_type: u8,
    max_speed: u8,
    accel: u8,
    x: u16,
    y: u16,
    deg: u16,
) -> Seq<u8> {
    seq![
        0x03u8,
        0x00,
        timeout,
        moving_type,
        max_speed,
        accel,
        0x00,
        (x % 256) as u8,
        (x / 256) as u8,
        (y % 256) as u8,
        (y / 256) as u8,
        (deg % 256) as u8,
        (deg / 256) as u8,
    ]
}

/// The lamp frame: a single-shot setting, one repeat, lamp on, then the
/// colour.
pub open spec fn light_frame(red: u8, green: u8, blue: u8) -> Seq<u8> {
    seq![0x03u8, 0x00, 0x01, 0x01, 0x00, red, green, blue]
}

/// The note triples of a sound frame laid out flat: duration, note, volume
/// for each entry.
pub open spec fn note_bytes(notes: Seq<(u8, u8, u8)>) -> Seq<u8> {
    Seq::new(
        notes.len() * 3,
        |k: int|
            if k % 3 == 0 {
                notes[k / 3].0
            } else if k % 3 == 1 {
                notes[k / 3].1
            } else {
                notes[k / 3].2
            },
    )
}

/// The sound frame: the type bytes, a repeat count, then the note triples.
pub open spec fn sound_frame(repeat: u8, notes: Seq<(u8, u8, u8)>) -> Seq<u8> {
    seq![0x03u8, 0x01, repeat] + note_bytes(notes)
}

/// Encodes a motor command.
pub fn encode_move(dir1: u8, speed1: u8, dir2: u8, speed2: u8, duration: u8) -> (r: Vec<u8>)
    ensures
        r@ == move_frame(dir1, speed1, dir2, speed2, duration),
{
    let r: Vec<u8> = vec![0x02, 0x01, dir1, speed1, 0x02, dir2, speed2, duration];
    proof {
        assert(r@ =~= move_frame(dir1, speed1, dir2, speed2, duration));
    }
    r
}

/// Encodes an absolute-position command over mat coordinates.
pub fn encode_move_to(
    timeout: u8,
    moving_type: u8,
    max_speed: u8,
    accel: u8,
    x: u16,
    y: u16,
    deg: u16,
) -> (r: Vec<u8>)
    ensures
        r@ == move_to_frame(timeout, moving_type, max_speed, accel, x, y, deg),
{
    let r: Vec<u8> = vec![
        0x03,
        0x00,
        timeout,
        moving_type,
        max_speed,
        accel,
        0x00,
        (x % 256) as u8,
        (x / 256) as u8,
        (y % 256) as u8,
        (y / 256) as u8,
        (deg % 256) as u8,
        (deg / 256) as u8,
    ];
    proof {
        assert(r@ =~= move_to_frame(timeout, moving_type, max_speed, accel, x, y, deg));
    }
    r
}

/// Encodes a lamp command for the given colour.
pub fn encode_light(red: u8, green: u8, blue: u8) -> (r: Vec<u8>)
    ensures
        r@ == light_frame(red, green, blue),
{
    let r: Vec<u8> = vec![0x03, 0x00, 0x01, 0x01, 0x00, red, green, blue];
    proof {
        assert(r@ =~= light_frame(red, green, blue));
    }
    r
}

/// Encodes a sound command: a repeat count and a list of
/// (duration, note, volume) triples.
pub fn encode_sound(repeat: u8, notes: &Vec<(u8, u8, u8)>) -> (r: Vec<u8>)
    ensures
        r@ == sound_frame(repeat, notes@),
{
    let mut r: Vec<u8> = vec![0x03, 0x01, repeat];
    let mut i: usize = 0;
    while i < notes.len()
        invariant
            i <= notes@.len(),
            r@.len() == 3 + 3 * i,
            r@[0] == 0x03u8 && r@[1] == 0x01u8 && r@[2] == repeat,
            forall|j: int|
                0 <= j < i ==> {
                    &&& r@[3 + 3 * j] == notes@[j].0
                    &&& r@[3 + 3 * j + 1] == notes@[j].1
                    &&& r@[3 + 3 * j + 2] == notes@[j].2
                },
        decreases notes@.len() - i,
    {
        let (d, n, v) = notes[i];
        r.push(d);
        r.push(n);
        r.push(v);
        i = i + 1;
    }
    proof {
        assert(r@ =~= sound_frame(repeat, notes@));
    }
    r
}

} // verus!
