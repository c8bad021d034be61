//! Global laws of the datagram decoder, stated as public proof functions
//! over the decoding relation.

use vstd::prelude::*;

use crate::decoder::{decodes_to, is_known_type, lossy_decode, required_min_len};
use crate::messages::{SeatalkError, SeatalkMessage};

verus! {

/// Structural equality up to the contents of owned fields: the same variant,
/// all fields agreeing, strings and byte vectors compared by their views.
pub open spec fn message_equivalent(a: SeatalkMessage, b: SeatalkMessage) -> bool {
    match (a, b) {
        (
            SeatalkMessage::Depth { depth_tenths_m: x1 },
            SeatalkMessage::Depth { depth_tenths_m: y1 },
        ) => x1 == y1,
        (
            SeatalkMessage::Speed { speed_tenths_kn: x1 },
            SeatalkMessage::Speed { speed_tenths_kn: y1 },
        ) => x1 == y1,
        (
            SeatalkMessage::WaterTemperature { temperature_tenths_c: x1 },
            SeatalkMessage::WaterTemperature { temperature_tenths_c: y1 },
        ) => x1 == y1,
        (
            SeatalkMessage::WindData {
                apparent_wind_angle_half_deg: x1,
                apparent_wind_speed_tenths_kn: x2,
            },
            SeatalkMessage::WindData {
                apparent_wind_angle_half_deg: y1,
                apparent_wind_speed_tenths_kn: y2,
            },
        ) => x1 == y1 && x2 == y2,
        (
            SeatalkMessage::AutopilotCommand { heading_half_deg: x1, mode: x2 },
            SeatalkMessage::AutopilotCommand { heading_half_deg: y1, mode: y2 },
        ) => x1 == y1 && x2 == y2,
        (
            SeatalkMessage::GPSPosition { latitude: x1, longitude: x2 },
            SeatalkMessage::GPSPosition { latitude: y1, longitude: y2 },
        ) => x1 == y1 && x2 == y2,
        (
            SeatalkMessage::GPSTimeDate { time: x1, date: x2 },
            SeatalkMessage::GPSTimeDate { time: y1, date: y2 },
        ) => x1@ == y1@ && x2@ == y2@,
        (
            SeatalkMessage::RudderPosition { angle_half_deg: x1 },
            SeatalkMessage::RudderPosition { angle_half_deg: y1 },
        ) => x1 == y1,
        (
            SeatalkMessage::TripLog { trip_distance_tenths_nm: x1, total_distance_tenths_nm: x2 },
            SeatalkMessage::TripLog { trip_distance_tenths_nm: y1, total_distance_tenths_nm: y2 },
        ) => x1 == y1 && x2 == y2,
        (
            SeatalkMessage::Alarm { alarm_type: x1 },
            SeatalkMessage::Alarm { alarm_type: y1 },
        ) => x1 == y1,
        (
            SeatalkMessage::WaypointLocation { latitude: x1, longitude: x2 },
            SeatalkMessage::WaypointLocation { latitude: y1, longitude: y2 },
        ) => x1 == y1 && x2 == y2,
        (
            SeatalkMessage::NavigationData {
                cross_track_error_tenths_nm: x1,
                bearing_to_waypoint_half_deg: x2,
                distance_to_waypoint_tenths_nm: x3,
            },
            SeatalkMessage::NavigationData {
                cross_track_error_tenths_nm: y1,
                bearing_to_waypoint_half_deg: y2,
                distance_to_waypoint_tenths_nm: y3,
            },
        ) => x1 == y1 && x2 == y2 && x3 == y3,
        (
            SeatalkMessage::RouteName { name: x1 },
            SeatalkMessage::RouteName { name: y1 },
        ) => x1@ == y1@,
        (
            SeatalkMessage::WaypointName { name: x1 },
            SeatalkMessage::WaypointName { name: y1 },
        ) => x1@ == y1@,
        (
            SeatalkMessage::NavigationCommand { command: x1 },
            SeatalkMessage::NavigationCommand { command: y1 },
        ) => x1 == y1,
        (
            SeatalkMessage::CourseToSteer { heading_half_deg: x1, rudder_position_deg: x2, mode: x3 },
            SeatalkMessage::CourseToSteer { heading_half_deg: y1, rudder_position_deg: y2, mode: y3 },
        ) => x1 == y1 && x2 == y2 && x3 == y3,
        (
            SeatalkMessage::VesselHeading { heading_half_deg: x1, status: x2 },
            SeatalkMessage::VesselHeading { heading_half_deg: y1, status: y2 },
        ) => x1 == y1 && x2 == y2,
        (
            SeatalkMessage::CrossTrackError { error_tenths_nm: x1 },
            SeatalkMessage::CrossTrackError { error_tenths_nm: y1 },
        ) => x1 == y1,
        (
            SeatalkMessage::EngineRPM { rpm: x1, engine_number: x2 },
            SeatalkMessage::EngineRPM { rpm: y1, engine_number: y2 },
        ) => x1 == y1 && x2 == y2,
        (
            SeatalkMessage::EngineTemperature { temperature_c: x1, engine_number: x2 },
            SeatalkMessage::EngineTemperature { temperature_c: y1, engine_number: y2 },
        ) => x1 == y1 && x2 == y2,
        (
            SeatalkMessage::EngineFuelData { fuel_flow_tenths_lph: x1, fuel_total_l: x2, engine_number: x3 },
            SeatalkMessage::EngineFuelData { fuel_flow_tenths_lph: y1, fuel_total_l: y2, engine_number: y3 },
        ) => x1 == y1 && x2 == y2 && x3 == y3,
        (
            SeatalkMessage::EngineAlarm { alarm_type: x1, engine_number: x2 },
            SeatalkMessage::EngineAlarm { alarm_type: y1, engine_number: y2 },
        ) => x1 == y1 && x2 == y2,
        (
            SeatalkMessage::Unknown { message_type: x1, data: x2 },
            SeatalkMessage::Unknown { message_type: y1, data: y2 },
        ) => x1 == y1 && x2@ == y2@,
        (_, _) => false,
    }
}

/// Equality of decode results up to the contents of owned fields.
pub open spec fn result_equivalent(
    r1: Result<SeatalkMessage, SeatalkError>,
    r2: Result<SeatalkMessage, SeatalkError>,
) -> bool {
    match (r1, r2) {
        (Ok(a), Ok(b)) => message_equivalent(a, b),
        (Err(e1), Err(e2)) => e1 == e2,
        (_, _) => false,
    }
}

/// Decoding is deterministic: any two results the decoding relation admits
/// for the same datagram are structurally equal, owned fields compared by
/// contents. Decoding a datagram twice therefore yields equal messages;
/// nothing about the result depends on hidden state.
pub proof fn lemma_decode_deterministic(
    data: Seq<u8>,
    r1: Result<SeatalkMessage, SeatalkError>,
    r2: Result<SeatalkMessage, SeatalkError>,
)
    requires
        decodes_to(data, r1),
        decodes_to(data, r2),
    ensures
        result_equivalent(r1, r2),
{
}

/// A recognized discriminator followed by fewer bytes than its declared
/// minimum always decodes to the truncation error naming that minimum and
/// the actual length — never to a message, and never by reading out of
/// range.
pub proof fn lemma_short_datagram_is_truncated(
    data: Seq<u8>,
    r: Result<SeatalkMessage, SeatalkError>,
)
    requires
        0 < data.len() < required_min_len(data[0]),
        is_known_type(data[0]),
        decodes_to(data, r),
    ensures
        r == Err::<SeatalkMessage, SeatalkError>(
            SeatalkError::TruncatedMessage {
                expected_min: required_min_len(data[0]) as usize,
                actual: data.len() as usize,
            },
        ),
{
}

/// A discriminator outside the dispatch table, whatever bytes follow it,
/// decodes to the catch-all message carrying the discriminator and the whole
/// datagram verbatim: unfamiliarity is never an error.
pub proof fn lemma_unknown_type_is_carried_verbatim(
    data: Seq<u8>,
    r: Result<SeatalkMessage, SeatalkError>,
)
    requires
        data.len() > 0,
        !is_known_type(data[0]),
        decodes_to(data, r),
    ensures
        r matches Ok(SeatalkMessage::Unknown { message_type, data: raw }) && message_type
            == data[0] && raw@ == data,
{
}

/// Name datagrams never fail on their payload: whatever bytes a long-enough
/// route-name or waypoint-name datagram carries, it decodes to its variant,
/// the name being the lenient text decoding of the payload.
pub proof fn lemma_name_decoding_never_fails(
    data: Seq<u8>,
    r: Result<SeatalkMessage, SeatalkError>,
)
    requires
        data.len() >= 2,
        data[0] == 0x5c || data[0] == 0x5d,
        decodes_to(data, r),
    ensures
        r is Ok,
        data[0] == 0x5c ==> (r matches Ok(SeatalkMessage::RouteName { name }) && name@
            == lossy_decode(data.skip(1))),
        data[0] == 0x5d ==> (r matches Ok(SeatalkMessage::WaypointName { name }) && name@
            == lossy_decode(data.skip(1))),
{
}

} // verus!
