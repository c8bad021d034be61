//! The Seatalk datagram decoder and the `$STALK` sentence unwrapper.
//!
//! A datagram is a byte sequence whose first byte names the message type.
//! `decodes_to` is the full specification of decoding: it fixes, for every
//! byte sequence, either the exact message produced or the exact error
//! returned, and `SeatalkMessage::parse_seatalk_data` is proved against it.

use vstd::prelude::*;
use vstd::slice::*;
use vstd::string::*;

use crate::messages::{
    AlarmType, AutopilotMode, EngineAlarmType, GeoAngle, HeadingStatus, NavigationCommandType,
    SeatalkError, SeatalkMessage, SteeringMode,
};
use crate::strutil::{has_prefix, push_two_digit_dec, split_chars, split_str, str_views, two_digit_dec};

verus! {

/// The twelve-bit interleaving rule used by several datagram fields: the low
/// seven bits of the first byte supply bits one and up, and the top bit of
/// the following byte supplies bit zero.
pub open spec fn spec_pack12(hi: u8, lo: u8) -> u16 {
    (((hi as u16) & 0x7f) << 1) | (((lo as u16) & 0x80) >> 7)
}

/// A big-endian sixteen-bit quantity.
pub open spec fn spec_u16_be(hi: u8, lo: u8) -> u16 {
    ((hi as u16) << 8) | (lo as u16)
}

/// Whether the discriminator byte is in the dispatch table.
pub open spec fn is_known_type(t: u8) -> bool {
    ||| t == 0x00
    ||| t == 0x20
    ||| t == 0x27
    ||| t == 0x10
    ||| t == 0x84
    ||| t == 0x52
    ||| t == 0x53
    ||| t == 0x9c
    ||| t == 0x21
    ||| t == 0x86
    ||| t == 0x5a
    ||| t == 0x5b
    ||| t == 0x5c
    ||| t == 0x5d
    ||| t == 0x5e
    ||| t == 0x85
    ||| t == 0x9b
    ||| t == 0x8d
    ||| t == 0x30
    ||| t == 0x31
    ||| t == 0x32
    ||| t == 0x87
}

/// The minimum datagram length, discriminator byte included, that a known
/// discriminator requires. The minimum counts every byte the field rules
/// read, so a datagram that passes the length check is decoded without any
/// out-of-range access.
pub open spec fn required_min_len(t: u8) -> nat {
    if t == 0x00 {
        4
    } else if t == 0x20 {
        3
    } else if t == 0x27 {
        3
    } else if t == 0x10 {
        5
    } else if t == 0x84 {
        4
    } else if t == 0x52 {
        9
    } else if t == 0x53 {
        7
    } else if t == 0x9c {
        3
    } else if t == 0x21 {
        7
    } else if t == 0x86 {
        2
    } else if t == 0x5a {
        9
    } else if t == 0x5b {
        7
    } else if t == 0x5c {
        2
    } else if t == 0x5d {
        2
    } else if t == 0x5e {
        2
    } else if t == 0x85 {
        5
    } else if t == 0x9b {
        4
    } else if t == 0x8d {
        3
    } else if t == 0x30 {
        4
    } else if t == 0x31 {
        3
    } else if t == 0x32 {
        6
    } else if t == 0x87 {
        3
    } else {
        1
    }
}

/// The mode an autopilot command byte selects.
pub open spec fn spec_autopilot_mode(b: u8) -> AutopilotMode {
    if b == 0x00 {
        AutopilotMode::Standby
    } else if b == 0x01 {
        AutopilotMode::Auto
    } else if b == 0x02 {
        AutopilotMode::Wind
    } else if b == 0x03 {
        AutopilotMode::Track
    } else {
        AutopilotMode::Unknown(b)
    }
}

/// The alarm a general alarm byte names.
pub open spec fn spec_alarm_type(b: u8) -> AlarmType {
    if b == 0x01 {
        AlarmType::Depth
    } else if b == 0x02 {
        AlarmType::Anchor
    } else if b == 0x03 {
        AlarmType::Wind
    } else {
        AlarmType::Custom(b)
    }
}

/// The command a navigation command byte names.
pub open spec fn spec_nav_command(b: u8) -> NavigationCommandType {
    if b == 0x01 {
        NavigationCommandType::GoToWaypoint
    } else if b == 0x02 {
        NavigationCommandType::FollowRoute
    } else {
        NavigationCommandType::Unknown(b)
    }
}

/// The mode a course-to-steer byte selects.
pub open spec fn spec_steering_mode(b: u8) -> SteeringMode {
    if b == 0x00 {
        SteeringMode::Manual
    } else if b == 0x01 {
        SteeringMode::Auto
    } else {
        SteeringMode::Unknown(b)
    }
}

/// The validity flag in the least-significant bit of a status byte.
pub open spec fn spec_heading_status(b: u8) -> HeadingStatus {
    if b & 0x01 == 0x01 {
        HeadingStatus::Valid
    } else {
        HeadingStatus::Invalid
    }
}

/// The alarm an engine alarm byte names.
pub open spec fn spec_engine_alarm_type(b: u8) -> EngineAlarmType {
    if b == 0x01 {
        EngineAlarmType::Overheat
    } else if b == 0x02 {
        EngineAlarmType::LowOilPressure
    } else if b == 0x03 {
        EngineAlarmType::LowFuel
    } else {
        EngineAlarmType::Custom(b)
    }
}

/// A geographic angle read from a degrees byte, a minutes byte, a seconds
/// byte and a hemisphere byte; `neg` is the ASCII letter (`S` or `W`) that
/// makes the angle negative.
pub open spec fn spec_geo_angle(deg: u8, min: u8, sec: u8, dir: u8, neg: u8) -> GeoAngle {
    GeoAngle { degrees: deg, minutes: min, seconds: sec, negative: dir == neg }
}

/// The `HH:MM:SS` rendering of a time, each component zero padded.
pub open spec fn spec_time_text(h: u8, m: u8, s: u8) -> Seq<char> {
    two_digit_dec(h) + seq![':'] + two_digit_dec(m) + seq![':'] + two_digit_dec(s)
}

/// The `DD/MM/YY` rendering of a date, each component zero padded.
pub open spec fn spec_date_text(d: u8, m: u8, y: u8) -> Seq<char> {
    two_digit_dec(d) + seq!['/'] + two_digit_dec(m) + seq!['/'] + two_digit_dec(y)
}

/// What `String::from_utf8_lossy` yields on the given bytes: a function of
/// the bytes alone, left unspecified here beyond that.
pub uninterp spec fn lossy_decode(bytes: Seq<u8>) -> Seq<char>;

/// Relies on `String::from_utf8_lossy` (std): its result depends on the
/// bytes alone, replacing invalid UTF-8 sequences with U+FFFD.
#[verifier::external_body]
fn utf8_lossy(bytes: &[u8]) -> (r: String)
    ensures
        r@ == lossy_decode(bytes@),
{
    String::from_utf8_lossy(bytes).into_owned()
}

/// The fields each known, long-enough datagram decodes to. Holds only when
/// `r` is exactly the message the dispatch table prescribes for `data`.
pub open spec fn decoded_fields(data: Seq<u8>, r: Result<SeatalkMessage, SeatalkError>) -> bool {
    let t = data[0];
    if t == 0x00 {
        r == Ok::<SeatalkMessage, SeatalkError>(
            SeatalkMessage::Depth { depth_tenths_m: spec_pack12(data[1], data[2]) },
        )
    } else if t == 0x20 {
        r == Ok::<SeatalkMessage, SeatalkError>(
            SeatalkMessage::Speed { speed_tenths_kn: spec_pack12(data[1], data[2]) },
        )
    } else if t == 0x27 {
        r == Ok::<SeatalkMessage, SeatalkError>(
            SeatalkMessage::WaterTemperature {
                temperature_tenths_c: spec_pack12(data[1], data[2]),
            },
        )
    } else if t == 0x10 {
        r == Ok::<SeatalkMessage, SeatalkError>(
            SeatalkMessage::WindData {
                apparent_wind_angle_half_deg: spec_pack12(data[1], data[2]),
                apparent_wind_speed_tenths_kn: spec_pack12(data[2], data[3]),
            },
        )
    } else if t == 0x84 {
        r == Ok::<SeatalkMessage, SeatalkError>(
            SeatalkMessage::AutopilotCommand {
                heading_half_deg: spec_pack12(data[1], data[2]),
                mode: spec_autopilot_mode(data[3]),
            },
        )
    } else if t == 0x52 {
        r == Ok::<SeatalkMessage, SeatalkError>(
            SeatalkMessage::GPSPosition {
                latitude: spec_geo_angle(data[1], data[2], data[3], data[4], 0x53),
                longitude: spec_geo_angle(data[5], data[6], data[7], data[8], 0x57),
            },
        )
    } else if t == 0x53 {
        r matches Ok(SeatalkMessage::GPSTimeDate { time, date }) && time@ == spec_time_text(
            data[1],
            data[2],
            data[3],
        ) && date@ == spec_date_text(data[4], data[5], data[6])
    } else if t == 0x9c {
        r == Ok::<SeatalkMessage, SeatalkError>(
            SeatalkMessage::RudderPosition { angle_half_deg: spec_pack12(data[1], data[2]) },
        )
    } else if t == 0x21 {
        r == Ok::<SeatalkMessage, SeatalkError>(
            SeatalkMessage::TripLog {
                trip_distance_tenths_nm: spec_pack12(data[1], data[2]),
                total_distance_tenths_nm: spec_pack12(data[3], data[4]),
            },
        )
    } else if t == 0x86 {
        r == Ok::<SeatalkMessage, SeatalkError>(
            SeatalkMessage::Alarm { alarm_type: spec_alarm_type(data[1]) },
        )
    } else if t == 0x5a {
        r == Ok::<SeatalkMessage, SeatalkError>(
            SeatalkMessage::WaypointLocation {
                latitude: spec_geo_angle(data[1], data[2], data[3], data[4], 0x53),
                longitude: spec_geo_angle(data[5], data[6], data[7], data[8], 0x57),
            },
        )
    } else if t == 0x5b {
        r == Ok::<SeatalkMessage, SeatalkError>(
            SeatalkMessage::NavigationData {
                cross_track_error_tenths_nm: spec_pack12(data[1], data[2]),
                bearing_to_waypoint_half_deg: spec_pack12(data[3], data[4]),
                distance_to_waypoint_tenths_nm: spec_pack12(data[5], data[6]),
            },
        )
    } else if t == 0x5c {
        r matches Ok(SeatalkMessage::RouteName { name }) && name@ == lossy_decode(data.skip(1))
    } else if t == 0x5d {
        r matches Ok(SeatalkMessage::WaypointName { name }) && name@ == lossy_decode(data.skip(1))
    } else if t == 0x5e {
        r == Ok::<SeatalkMessage, SeatalkError>(
            SeatalkMessage::NavigationCommand { command: spec_nav_command(data[1]) },
        )
    } else if t == 0x85 {
        r == Ok::<SeatalkMessage, SeatalkError>(
            SeatalkMessage::CourseToSteer {
                heading_half_deg: spec_u16_be(data[1], data[2]),
                rudder_position_deg: data[3] as i8,
                mode: spec_steering_mode(data[4]),
            },
        )
    } else if t == 0x9b {
        r == Ok::<SeatalkMessage, SeatalkError>(
            SeatalkMessage::VesselHeading {
                heading_half_deg: spec_u16_be(data[1], data[2]),
                status: spec_heading_status(data[3]),
            },
        )
    } else if t == 0x8d {
        r == Ok::<SeatalkMessage, SeatalkError>(
            SeatalkMessage::CrossTrackError { error_tenths_nm: spec_u16_be(data[1], data[2]) },
        )
    } else if t == 0x30 {
        r == Ok::<SeatalkMessage, SeatalkError>(
            SeatalkMessage::EngineRPM {
                rpm: spec_u16_be(data[2], data[3]),
                engine_number: data[1],
            },
        )
    } else if t == 0x31 {
        r == Ok::<SeatalkMessage, SeatalkError>(
            SeatalkMessage::EngineTemperature {
                temperature_c: data[2],
                engine_number: data[1],
            },
        )
    } else if t == 0x32 {
        r == Ok::<SeatalkMessage, SeatalkError>(
            SeatalkMessage::EngineFuelData {
                fuel_flow_tenths_lph: spec_u16_be(data[2], data[3]),
                fuel_total_l: spec_u16_be(data[4], data[5]),
                engine_number: data[1],
            },
        )
    } else if t == 0x87 {
        r == Ok::<SeatalkMessage, SeatalkError>(
            SeatalkMessage::EngineAlarm {
                alarm_type: spec_engine_alarm_type(data[2]),
                engine_number: data[1],
            },
        )
    } else {
        false
    }
}

/// The full decoding relation: for every byte sequence, exactly one result
/// satisfies it up to the views of owned fields. An empty sequence is the
/// empty-datagram error; an unrecognized discriminator is the catch-all
/// message carrying the input verbatim, never an error; a recognized one is
/// either the truncation error or the message of `decoded_fields`.
pub open spec fn decodes_to(data: Seq<u8>, r: Result<SeatalkMessage, SeatalkError>) -> bool {
    if data.len() == 0 {
        r == Err::<SeatalkMessage, SeatalkError>(SeatalkError::EmptyDatagram)
    } else if !is_known_type(data[0]) {
        r matches Ok(SeatalkMessage::Unknown { message_type, data: raw }) && message_type
            == data[0] && raw@ == data
    } else if data.len() < required_min_len(data[0]) {
        r == Err::<SeatalkMessage, SeatalkError>(
            SeatalkError::TruncatedMessage {
                expected_min: required_min_len(data[0]) as usize,
                actual: data.len() as usize,
            },
        )
    } else {
        decoded_fields(data, r)
    }
}

/// Whether a hexadecimal digit, upper or lower case.
pub open spec fn is_hex_digit(c: char) -> bool {
    let v = c as int;
    (0x30 <= v && v <= 0x39)  // '0' to '9'
     || (0x61 <= v && v <= 0x66)  // 'a' to 'f'
     || (0x41 <= v && v <= 0x46)  // 'A' to 'F'

}

/// The value of a hexadecimal digit; other characters are given zero so that
/// the function is total.
pub open spec fn hex_digit_val(c: char) -> int {
    let v = c as int;
    if 0x30 <= v && v <= 0x39 {
        v - 0x30
    } else if 0x61 <= v && v <= 0x66 {
        v - 0x61 + 10
    } else if 0x41 <= v && v <= 0x46 {
        v - 0x41 + 10
    } else {
        0
    }
}

/// Whether a character sequence is a well-formed hexadecimal payload: even
/// length, hexadecimal digits throughout.
pub open spec fn valid_hex(s: Seq<char>) -> bool {
    s.len() % 2 == 0 && (forall|i: int| 0 <= i < s.len() ==> is_hex_digit(s[i]))
}

/// The bytes a hexadecimal character sequence denotes, one byte per digit
/// pair.
pub open spec fn spec_hex_bytes(s: Seq<char>) -> Seq<u8> {
    Seq::new(s.len() / 2, |i: int| (hex_digit_val(s[2 * i]) * 16 + hex_digit_val(s[2 * i + 1])) as u8)
}

/// Relies on `hex::decode`: it succeeds exactly on an even-length string of
/// hexadecimal digits (upper or lower case) and yields one byte per digit
/// pair, high digit first; an odd length or any other character fails.
/// `hex::decode` works on the UTF-8 bytes, but over characters the same
/// condition holds: a string of hexadecimal digits is one byte per
/// character, and any other character contributes a non-digit byte (every
/// byte of a multi-byte character is above `0x7F`), so it fails either on
/// that byte or on an odd byte count.
#[verifier::external_body]
fn decode_hex(s: &str) -> (r: Option<Vec<u8>>)
    ensures
        r is Some <==> valid_hex(s@),
        r matches Some(v) ==> v@ == spec_hex_bytes(s@),
{
    hex::decode(s).ok()
}

/// Whether the sentence begins with the literal `$STALK`.
pub open spec fn stalk_prefix(s: Seq<char>) -> bool {
    "$STALK"@.len() <= s.len() && s.subrange(0, "$STALK"@.len() as int) == "$STALK"@
}

impl SeatalkMessage {
    /// Strips the `$STALK` envelope from an NMEA-style line, decodes the
    /// hexadecimal payload in its second comma-separated field, and decodes
    /// the resulting datagram.
    pub fn parse_nmea_sentence(sentence: &str) -> (r: Result<SeatalkMessage, SeatalkError>)
        ensures
            !stalk_prefix(sentence@) ==> r == Err::<SeatalkMessage, SeatalkError>(
                SeatalkError::NotSeatalk,
            ),
            stalk_prefix(sentence@) && split_chars(sentence@, ',').len() < 2 ==> r == Err::<
                SeatalkMessage,
                SeatalkError,
            >(SeatalkError::MalformedSentence),
            stalk_prefix(sentence@) && split_chars(sentence@, ',').len() >= 2 && !valid_hex(
                split_chars(sentence@, ',')[1],
            ) ==> r == Err::<SeatalkMessage, SeatalkError>(SeatalkError::InvalidHexPayload),
            stalk_prefix(sentence@) && split_chars(sentence@, ',').len() >= 2 && valid_hex(
                split_chars(sentence@, ',')[1],
            ) ==> decodes_to(spec_hex_bytes(split_chars(sentence@, ',')[1]), r),
    {
        if !has_prefix(sentence, "$STALK") {
            return Err(SeatalkError::NotSeatalk);
        }
        let fields = split_str(sentence, ',');
        proof {
            assert(str_views(fields@).len() == fields@.len());
        }
        if fields.len() < 2 {
            return Err(SeatalkError::MalformedSentence);
        }
        proof {
            assert(fields@[1]@ == str_views(fields@)[1]);
        }
        match decode_hex(fields[1].as_str()) {
            None => Err(SeatalkError::InvalidHexPayload),
            Some(bytes) => Self::parse_seatalk_data(bytes.as_slice()),
        }
    }

    /// Decodes a raw Seatalk datagram. The first byte names the message
    /// type; each recognized type reads its fields only after the length
    /// check that `required_min_len` prescribes, and an unrecognized type is
    /// carried verbatim rather than rejected.
    pub fn parse_seatalk_data(data: &[u8]) -> (r: Result<SeatalkMessage, SeatalkError>)
        ensures
            decodes_to(data@, r),
            r is Err <==> (data@.len() == 0 || (is_known_type(data@[0]) && data@.len()
                < required_min_len(data@[0]))),
    {
        if data.len() == 0 {
            return Err(SeatalkError::EmptyDatagram);
        }
        match data[0] {
            // Depth
            0x00 => {
                if data.len() < 4 {
                    return Err(SeatalkError::TruncatedMessage { expected_min: 4, actual: data.len() });
                }
                let depth_tenths_m: u16 = (((data[1] as u16) & 0x7f) << 1) | (((data[2] as u16)
                    & 0x80) >> 7);
                Ok(SeatalkMessage::Depth { depth_tenths_m })
            },
            // Speed through water
            0x20 => {
                if data.len() < 3 {
                    return Err(SeatalkError::TruncatedMessage { expected_min: 3, actual: data.len() });
                }
                let speed_tenths_kn: u16 = (((data[1] as u16) & 0x7f) << 1) | (((data[2] as u16)
                    & 0x80) >> 7);
                Ok(SeatalkMessage::Speed { speed_tenths_kn })
            },
            // Water temperature
            0x27 => {
                if data.len() < 3 {
                    return Err(SeatalkError::TruncatedMessage { expected_min: 3, actual: data.len() });
                }
                let temperature_tenths_c: u16 = (((data[1] as u16) & 0x7f) << 1) | (((data[2]
                    as u16) & 0x80) >> 7);
                Ok(SeatalkMessage::WaterTemperature { temperature_tenths_c })
            },
            // Apparent wind
            0x10 => {
                if data.len() < 5 {
                    return Err(SeatalkError::TruncatedMessage { expected_min: 5, actual: data.len() });
                }
                let apparent_wind_angle_half_deg: u16 = (((data[1] as u16) & 0x7f) << 1) | (((
                data[2] as u16) & 0x80) >> 7);
                let apparent_wind_speed_tenths_kn: u16 = (((data[2] as u16) & 0x7f) << 1) | (((
                data[3] as u16) & 0x80) >> 7);
                Ok(
                    SeatalkMessage::WindData {
                        apparent_wind_angle_half_deg,
                        apparent_wind_speed_tenths_kn,
                    },
                )
            },
            // Autopilot command
            0x84 => {
                if data.len() < 4 {
                    return Err(SeatalkError::TruncatedMessage { expected_min: 4, actual: data.len() });
                }
                let heading_half_deg: u16 = (((data[1] as u16) & 0x7f) << 1) | (((data[2] as u16)
                    & 0x80) >> 7);
                let mode = match data[3] {
                    0x00 => AutopilotMode::Standby,
                    0x01 => AutopilotMode::Auto,
                    0x02 => AutopilotMode::Wind,
                    0x03 => AutopilotMode::Track,
                    _ => AutopilotMode::Unknown(data[3]),
                };
                Ok(SeatalkMessage::AutopilotCommand { heading_half_deg, mode })
            },
            // Current position
            0x52 => {
                if data.len() < 9 {
                    return Err(SeatalkError::TruncatedMessage { expected_min: 9, actual: data.len() });
                }
                let latitude = GeoAngle {
                    degrees: data[1],
                    minutes: data[2],
                    seconds: data[3],
                    negative: data[4] == 0x53,  // ASCII 'S'
                };
                let longitude = GeoAngle {
                    degrees: data[5],
                    minutes: data[6],
                    seconds: data[7],
                    negative: data[8] == 0x57,  // ASCII 'W'
                };
                Ok(SeatalkMessage::GPSPosition { latitude, longitude })
            },
            // Time and date
            0x53 => {
                if data.len() < 7 {
                    return Err(SeatalkError::TruncatedMessage { expected_min: 7, actual: data.len() });
                }
                let mut time = String::new();
                push_two_digit_dec(&mut time, data[1]);
                time.append(":");
                push_two_digit_dec(&mut time, data[2]);
                time.append(":");
                push_two_digit_dec(&mut time, data[3]);
                let mut date = String::new();
                push_two_digit_dec(&mut date, data[4]);
                date.append("/");
                push_two_digit_dec(&mut date, data[5]);
                date.append("/");
                push_two_digit_dec(&mut date, data[6]);
                proof {
                    reveal_strlit(":");
                    reveal_strlit("/");
                    assert(time@ =~= spec_time_text(data@[1], data@[2], data@[3]));
                    assert(date@ =~= spec_date_text(data@[4], data@[5], data@[6]));
                }
                Ok(SeatalkMessage::GPSTimeDate { time, date })
            },
            // Rudder position
            0x9c => {
                if data.len() < 3 {
                    return Err(SeatalkError::TruncatedMessage { expected_min: 3, actual: data.len() });
                }
                let angle_half_deg: u16 = (((data[1] as u16) & 0x7f) << 1) | (((data[2] as u16)
                    & 0x80) >> 7);
                Ok(SeatalkMessage::RudderPosition { angle_half_deg })
            },
            // Trip log
            0x21 => {
                if data.len() < 7 {
                    return Err(SeatalkError::TruncatedMessage { expected_min: 7, actual: data.len() });
                }
                let trip_distance_tenths_nm: u16 = (((data[1] as u16) & 0x7f) << 1) | (((data[2]
                    as u16) & 0x80) >> 7);
                let total_distance_tenths_nm: u16 = (((data[3] as u16) & 0x7f) << 1) | (((data[4]
                    as u16) & 0x80) >> 7);
                Ok(SeatalkMessage::TripLog { trip_distance_tenths_nm, total_distance_tenths_nm })
            },
            // Alarm
            0x86 => {
                if data.len() < 2 {
                    return Err(SeatalkError::TruncatedMessage { expected_min: 2, actual: data.len() });
                }
                let alarm_type = match data[1] {
                    0x01 => AlarmType::Depth,
                    0x02 => AlarmType::Anchor,
                    0x03 => AlarmType::Wind,
                    _ => AlarmType::Custom(data[1]),
                };
                Ok(SeatalkMessage::Alarm { alarm_type })
            },
            // Waypoint location
            0x5a => {
                if data.len() < 9 {
                    return Err(SeatalkError::TruncatedMessage { expected_min: 9, actual: data.len() });
                }
                let latitude = GeoAngle {
                    degrees: data[1],
                    minutes: data[2],
                    seconds: data[3],
                    negative: data[4] == 0x53,  // ASCII 'S'
                };
                let longitude = GeoAngle {
                    degrees: data[5],
                    minutes: data[6],
                    seconds: data[7],
                    negative: data[8] == 0x57,  // ASCII 'W'
                };
                Ok(SeatalkMessage::WaypointLocation { latitude, longitude })
            },
            // Navigation data
            0x5b => {
                if data.len() < 7 {
                    return Err(SeatalkError::TruncatedMessage { expected_min: 7, actual: data.len() });
                }
                let cross_track_error_tenths_nm: u16 = (((data[1] as u16) & 0x7f) << 1) | (((
                data[2] as u16) & 0x80) >> 7);
                let bearing_to_waypoint_half_deg: u16 = (((data[3] as u16) & 0x7f) << 1) | (((
                data[4] as u16) & 0x80) >> 7);
                let distance_to_waypoint_tenths_nm: u16 = (((data[5] as u16) & 0x7f) << 1) | (((
                data[6] as u16) & 0x80) >> 7);
                Ok(
                    SeatalkMessage::NavigationData {
                        cross_track_error_tenths_nm,
                        bearing_to_waypoint_half_deg,
                        distance_to_waypoint_tenths_nm,
                    },
                )
            },
            // Route name
            0x5c => {
                if data.len() < 2 {
                    return Err(SeatalkError::TruncatedMessage { expected_min: 2, actual: data.len() });
                }
                let name = utf8_lossy(slice_subrange(data, 1, data.len()));
                proof {
                    assert(data@.subrange(1, data@.len() as int) =~= data@.skip(1));
                }
                Ok(SeatalkMessage::RouteName { name })
            },
            // Waypoint name
            0x5d => {
                if data.len() < 2 {
                    return Err(SeatalkError::TruncatedMessage { expected_min: 2, actual: data.len() });
                }
                let name = utf8_lossy(slice_subrange(data, 1, data.len()));
                proof {
                    assert(data@.subrange(1, data@.len() as int) =~= data@.skip(1));
                }
                Ok(SeatalkMessage::WaypointName { name })
            },
            // Navigation command
            0x5e => {
                if data.len() < 2 {
                    return Err(SeatalkError::TruncatedMessage { expected_min: 2, actual: data.len() });
                }
                let command = match data[1] {
                    0x01 => NavigationCommandType::GoToWaypoint,
                    0x02 => NavigationCommandType::FollowRoute,
                    _ => NavigationCommandType::Unknown(data[1]),
                };
                Ok(SeatalkMessage::NavigationCommand { command })
            },
            // Course to steer
            0x85 => {
                if data.len() < 5 {
                    return Err(SeatalkError::TruncatedMessage { expected_min: 5, actual: data.len() });
                }
                let heading_half_deg: u16 = ((data[1] as u16) << 8) | (data[2] as u16);
                let rudder_position_deg: i8 = data[3] as i8;
                let mode = match data[4] {
                    0x00 => SteeringMode::Manual,
                    0x01 => SteeringMode::Auto,
                    _ => SteeringMode::Unknown(data[4]),
                };
                Ok(SeatalkMessage::CourseToSteer { heading_half_deg, rudder_position_deg, mode })
            },
            // Vessel heading
            0x9b => {
                if data.len() < 4 {
                    return Err(SeatalkError::TruncatedMessage { expected_min: 4, actual: data.len() });
                }
                let heading_half_deg: u16 = ((data[1] as u16) << 8) | (data[2] as u16);
                let status = if data[3] & 0x01 == 0x01 {
                    HeadingStatus::Valid
                } else {
                    HeadingStatus::Invalid
                };
                Ok(SeatalkMessage::VesselHeading { heading_half_deg, status })
            },
            // Cross-track error
            0x8d => {
                if data.len() < 3 {
                    return Err(SeatalkError::TruncatedMessage { expected_min: 3, actual: data.len() });
                }
                let error_tenths_nm: u16 = ((data[1] as u16) << 8) | (data[2] as u16);
                Ok(SeatalkMessage::CrossTrackError { error_tenths_nm })
            },
            // Engine revolutions
            0x30 => {
                if data.len() < 4 {
                    return Err(SeatalkError::TruncatedMessage { expected_min: 4, actual: data.len() });
                }
                let engine_number = data[1];
                let rpm: u16 = ((data[2] as u16) << 8) | (data[3] as u16);
                Ok(SeatalkMessage::EngineRPM { rpm, engine_number })
            },
            // Engine temperature
            0x31 => {
                if data.len() < 3 {
                    return Err(SeatalkError::TruncatedMessage { expected_min: 3, actual: data.len() });
                }
                let engine_number = data[1];
                let temperature_c = data[2];
                Ok(SeatalkMessage::EngineTemperature { temperature_c, engine_number })
            },
            // Engine fuel
            0x32 => {
                if data.len() < 6 {
                    return Err(SeatalkError::TruncatedMessage { expected_min: 6, actual: data.len() });
                }
                let engine_number = data[1];
                let fuel_flow_tenths_lph: u16 = ((data[2] as u16) << 8) | (data[3] as u16);
                let fuel_total_l: u16 = ((data[4] as u16) << 8) | (data[5] as u16);
                Ok(SeatalkMessage::EngineFuelData { fuel_flow_tenths_lph, fuel_total_l, engine_number })
            },
            // Engine alarm
            0x87 => {
                if data.len() < 3 {
                    return Err(SeatalkError::TruncatedMessage { expected_min: 3, actual: data.len() });
                }
                let engine_number = data[1];
                let alarm_type = match data[2] {
                    0x01 => EngineAlarmType::Overheat,
                    0x02 => EngineAlarmType::LowOilPressure,
                    0x03 => EngineAlarmType::LowFuel,
                    _ => EngineAlarmType::Custom(data[2]),
                };
                Ok(SeatalkMessage::EngineAlarm { alarm_type, engine_number })
            },
            // Unrecognized: carried verbatim
            _ => {
                Ok(SeatalkMessage::Unknown { message_type: data[0], data: slice_to_vec(data) })
            },
        }
    }
}

} // verus!
