//! The typed representation of a decoded Seatalk datagram, together with the
//! error taxonomy of the decoding pipeline.
//!
//! Quantities that the bus carries in fixed-point units are kept in those
//! units, named in the field (`_tenths_m` is tenths of a metre, `_half_deg`
//! is halves of a degree, and so on), so that every value is exact.

use vstd::prelude::*;

verus! {

/// The mode byte of an autopilot command.
#[derive(Debug, Clone, Copy, PartialEq, Eq, Structural)]
pub enum AutopilotMode {
    Standby,
    Auto,
    Wind,
    Track,
    Unknown(u8),
}

/// The alarm byte of a general alarm datagram.
#[derive(Debug, Clone, Copy, PartialEq, Eq, Structural)]
pub enum AlarmType {
    Depth,
    Anchor,
    Wind,
    Custom(u8),
}

/// The command byte of a navigation command datagram.
#[derive(Debug, Clone, Copy, PartialEq, Eq, Structural)]
pub enum NavigationCommandType {
    GoToWaypoint,
    FollowRoute,
    Unknown(u8),
}

/// The mode byte of a course-to-steer datagram.
#[derive(Debug, Clone, Copy, PartialEq, Eq, Structural)]
pub enum SteeringMode {
    Manual,
    Auto,
    Unknown(u8),
}

/// Whether a vessel-heading datagram flags its heading as valid.
#[derive(Debug, Clone, Copy, PartialEq, Eq, Structural)]
pub enum HeadingStatus {
    Valid,
    Invalid,
}

/// The alarm byte of an engine alarm datagram.
#[derive(Debug, Clone, Copy, PartialEq, Eq, Structural)]
pub enum EngineAlarmType {
    Overheat,
    LowOilPressure,
    LowFuel,
    Custom(u8),
}

/// A geographic angle as the bus transmits it: whole degrees, minutes and
/// seconds, plus the hemisphere sign. The value in degrees is
/// `degrees + minutes/60 + seconds/3600`, negated when `negative` holds
/// (south for a latitude, west for a longitude).
#[derive(Debug, Clone, Copy, PartialEq, Eq, Structural)]
pub struct GeoAngle {
    pub degrees: u8,
    pub minutes: u8,
    pub seconds: u8,
    pub negative: bool,
}

impl GeoAngle {
    /// The angle converted to whole seconds of arc, signed.
    pub open spec fn spec_signed_seconds(self) -> int {
        let magnitude = self.degrees * 3600 + self.minutes * 60 + self.seconds;
        if self.negative {
            -magnitude
        } else {
            magnitude
        }
    }

    /// The angle converted to whole seconds of arc, signed: dividing by 3600
    /// gives the angle in degrees.
    pub fn signed_seconds(&self) -> (r: i32)
        ensures
            r as int == self.spec_signed_seconds(),
    {
        let magnitude: i32 = (self.degrees as i32) * 3600 + (self.minutes as i32) * 60
            + (self.seconds as i32);
        if self.negative {
            -magnitude
        } else {
            magnitude
        }
    }
}

/// A decoded Seatalk datagram: one variant for each recognized discriminator
/// byte, plus a catch-all that carries an unrecognized datagram verbatim.
///
/// A value of this type is either fully formed by a successful decode or not
/// constructed at all; no partially decoded message exists.
#[derive(Debug, Clone, PartialEq)]
pub enum SeatalkMessage {
    /// Water depth, in tenths of a metre.
    Depth { depth_tenths_m: u16 },
    /// Speed through water, in tenths of a knot.
    Speed { speed_tenths_kn: u16 },
    /// Water temperature, in tenths of a degree Celsius.
    WaterTemperature { temperature_tenths_c: u16 },
    /// Apparent wind: angle in halves of a degree, speed in tenths of a knot.
    WindData { apparent_wind_angle_half_deg: u16, apparent_wind_speed_tenths_kn: u16 },
    /// Autopilot target heading, in halves of a degree, and its mode.
    AutopilotCommand { heading_half_deg: u16, mode: AutopilotMode },
    /// Current position.
    GPSPosition { latitude: GeoAngle, longitude: GeoAngle },
    /// Time of day as `HH:MM:SS` and date as `DD/MM/YY`, zero padded.
    GPSTimeDate { time: String, date: String },
    /// Rudder angle, in halves of a degree.
    RudderPosition { angle_half_deg: u16 },
    /// Trip and total log distances, in tenths of a nautical mile.
    TripLog { trip_distance_tenths_nm: u16, total_distance_tenths_nm: u16 },
    /// A raised alarm.
    Alarm { alarm_type: AlarmType },
    /// Location of the active waypoint.
    WaypointLocation { latitude: GeoAngle, longitude: GeoAngle },
    /// Cross-track error and distance in tenths of a nautical mile, bearing
    /// in halves of a degree.
    NavigationData {
        cross_track_error_tenths_nm: u16,
        bearing_to_waypoint_half_deg: u16,
        distance_to_waypoint_tenths_nm: u16,
    },
    /// Name of the active route, decoded leniently from the payload bytes.
    RouteName { name: String },
    /// Name of the active waypoint, decoded leniently from the payload bytes.
    WaypointName { name: String },
    /// A navigation command.
    NavigationCommand { command: NavigationCommandType },
    /// Commanded course: heading in halves of a degree, rudder angle in
    /// whole signed degrees, and the steering mode.
    CourseToSteer { heading_half_deg: u16, rudder_position_deg: i8, mode: SteeringMode },
    /// Compass heading in halves of a degree, and whether it is valid.
    VesselHeading { heading_half_deg: u16, status: HeadingStatus },
    /// Cross-track error, in tenths of a nautical mile.
    CrossTrackError { error_tenths_nm: u16 },
    /// Engine revolutions per minute.
    EngineRPM { rpm: u16, engine_number: u8 },
    /// Engine temperature, in whole degrees Celsius.
    EngineTemperature { temperature_c: u8, engine_number: u8 },
    /// Fuel flow in tenths of a litre per hour and total fuel in whole
    /// litres.
    EngineFuelData { fuel_flow_tenths_lph: u16, fuel_total_l: u16, engine_number: u8 },
    /// An engine alarm.
    EngineAlarm { alarm_type: EngineAlarmType, engine_number: u8 },
    /// A datagram whose discriminator is not in the dispatch table, carried
    /// verbatim for forward compatibility.
    Unknown { message_type: u8, data: Vec<u8> },
}

/// Why a sentence or datagram was rejected. Every rejection is reported this
/// way; no input makes the decoder panic.
#[derive(Debug, Clone, Copy, PartialEq, Eq, Structural)]
pub enum SeatalkError {
    /// The sentence does not begin with the `$STALK` prefix.
    NotSeatalk,
    /// The sentence has fewer than two comma-separated fields.
    MalformedSentence,
    /// The payload field is not an even-length string of hexadecimal digits.
    InvalidHexPayload,
    /// The datagram holds no bytes at all.
    EmptyDatagram,
    /// The discriminator is recognized but the datagram is shorter than the
    /// minimum its fields require.
    TruncatedMessage { expected_min: usize, actual: usize },
}

} // verus!
