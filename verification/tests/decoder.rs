use seatalk::messages::{
    AlarmType, AutopilotMode, EngineAlarmType, GeoAngle, HeadingStatus, NavigationCommandType,
    SeatalkError, SeatalkMessage, SteeringMode,
};

#[test]
fn depth_scaling_concrete() {
    // pack of (0x01, 0x02) is ((1 & 0x7F) << 1) | ((2 & 0x80) >> 7) = 2,
    // scaled by 0.1 that is 0.2 metres.
    let r = SeatalkMessage::parse_seatalk_data(&[0x00, 0x01, 0x02, 0x03]);
    assert_eq!(r, Ok(SeatalkMessage::Depth { depth_tenths_m: 2 }));
    let SeatalkMessage::Depth { depth_tenths_m } = r.unwrap() else {
        unreachable!()
    };
    assert_eq!(depth_tenths_m as f64 * 0.1, 0.2);
}

#[test]
fn depth_truncated() {
    let r = SeatalkMessage::parse_seatalk_data(&[0x00, 0x01, 0x02]);
    assert_eq!(
        r,
        Err(SeatalkError::TruncatedMessage { expected_min: 4, actual: 3 })
    );
}

#[test]
fn every_known_type_one_byte_short_is_truncated() {
    let table: [(u8, usize); 22] = [
        (0x00, 4),
        (0x20, 3),
        (0x27, 3),
        (0x10, 5),
        (0x84, 4),
        (0x52, 9),
        (0x53, 7),
        (0x9C, 3),
        (0x21, 7),
        (0x86, 2),
        (0x5A, 9),
        (0x5B, 7),
        (0x5C, 2),
        (0x5D, 2),
        (0x5E, 2),
        (0x85, 5),
        (0x9B, 4),
        (0x8D, 3),
        (0x30, 4),
        (0x31, 3),
        (0x32, 6),
        (0x87, 3),
    ];
    for (t, min) in table {
        let mut data = vec![0u8; min - 1];
        data[0] = t;
        let r = SeatalkMessage::parse_seatalk_data(&data);
        assert_eq!(
            r,
            Err(SeatalkError::TruncatedMessage { expected_min: min, actual: min - 1 }),
            "discriminator {t:#04x}"
        );
    }
}

#[test]
fn decode_is_total_over_all_discriminators_and_lengths() {
    for t in 0u8..=255 {
        for len in 1usize..=12 {
            let mut data = vec![0x41u8; len];
            data[0] = t;
            // Decoding must return, never abort, whatever the input.
            let _ = SeatalkMessage::parse_seatalk_data(&data);
        }
    }
    assert_eq!(
        SeatalkMessage::parse_seatalk_data(&[]),
        Err(SeatalkError::EmptyDatagram)
    );
}

#[test]
fn unknown_type_carries_data_verbatim() {
    let r = SeatalkMessage::parse_seatalk_data(&[0xFF, 0x2A, 0x2B, 0x2C]);
    assert_eq!(
        r,
        Ok(SeatalkMessage::Unknown { message_type: 0xFF, data: vec![0xFF, 0x2A, 0x2B, 0x2C] })
    );
}

#[test]
fn unknown_type_with_no_trailing_bytes() {
    let r = SeatalkMessage::parse_seatalk_data(&[0x01]);
    assert_eq!(
        r,
        Ok(SeatalkMessage::Unknown { message_type: 0x01, data: vec![0x01] })
    );
}

#[test]
fn decoding_twice_yields_equal_output() {
    let inputs: [&[u8]; 4] = [
        &[0x00, 0x01, 0x02, 0x03],
        &[0x5C, 0x52, 0x6F, 0x75, 0x74, 0x65],
        &[0xFF, 0x2A],
        &[0x53, 1, 2, 3, 4, 5, 6],
    ];
    for data in inputs {
        let first = SeatalkMessage::parse_seatalk_data(data);
        let second = SeatalkMessage::parse_seatalk_data(data);
        assert_eq!(first, second);
    }
}

#[test]
fn signed_geography_south_west() {
    // Latitude 10 deg 30 min 0 sec south, longitude 20 deg 15 min 0 sec west.
    let r = SeatalkMessage::parse_seatalk_data(&[0x52, 10, 30, 0, 0x53, 20, 15, 0, 0x57]);
    let expected_lat = GeoAngle { degrees: 10, minutes: 30, seconds: 0, negative: true };
    let expected_lon = GeoAngle { degrees: 20, minutes: 15, seconds: 0, negative: true };
    assert_eq!(
        r,
        Ok(SeatalkMessage::GPSPosition { latitude: expected_lat, longitude: expected_lon })
    );
    assert_eq!(expected_lat.signed_seconds(), -37800);
    assert_eq!(expected_lon.signed_seconds(), -72900);
    assert_eq!(expected_lat.signed_seconds() as f64 / 3600.0, -10.5);
    assert_eq!(expected_lon.signed_seconds() as f64 / 3600.0, -20.25);
}

#[test]
fn geography_north_east_is_positive() {
    let r = SeatalkMessage::parse_seatalk_data(&[0x5A, 10, 30, 0, 0x4E, 20, 15, 0, 0x45]);
    let expected_lat = GeoAngle { degrees: 10, minutes: 30, seconds: 0, negative: false };
    let expected_lon = GeoAngle { degrees: 20, minutes: 15, seconds: 0, negative: false };
    assert_eq!(
        r,
        Ok(SeatalkMessage::WaypointLocation { latitude: expected_lat, longitude: expected_lon })
    );
    assert_eq!(expected_lat.signed_seconds(), 37800);
}

#[test]
fn engine_rpm_concrete() {
    let r = SeatalkMessage::parse_seatalk_data(&[0x30, 0x01, 0x12, 0x34]);
    assert_eq!(
        r,
        Ok(SeatalkMessage::EngineRPM { rpm: 0x1234, engine_number: 1 })
    );
    assert_eq!(0x1234, 4660);
}

#[test]
fn lossy_name_with_invalid_bytes_still_decodes() {
    let r = SeatalkMessage::parse_seatalk_data(&[0x5C, 0xFF, 0x52]);
    assert_eq!(
        r,
        Ok(SeatalkMessage::RouteName { name: "\u{FFFD}R".to_string() })
    );
    let r = SeatalkMessage::parse_seatalk_data(&[0x5D, 0xC3]);
    assert_eq!(
        r,
        Ok(SeatalkMessage::WaypointName { name: "\u{FFFD}".to_string() })
    );
}

#[test]
fn route_and_waypoint_names() {
    let r = SeatalkMessage::parse_nmea_sentence("$STALK,5C526F7574652031");
    assert_eq!(
        r,
        Ok(SeatalkMessage::RouteName { name: "Route 1".to_string() })
    );
    let r = SeatalkMessage::parse_nmea_sentence("$STALK,5D576179706F696E742031");
    assert_eq!(
        r,
        Ok(SeatalkMessage::WaypointName { name: "Waypoint 1".to_string() })
    );
}

#[test]
fn prefix_rejection() {
    assert_eq!(
        SeatalkMessage::parse_nmea_sentence("$GPGGA,002153.000"),
        Err(SeatalkError::NotSeatalk)
    );
    assert_eq!(
        SeatalkMessage::parse_nmea_sentence("STALK,00010203"),
        Err(SeatalkError::NotSeatalk)
    );
    assert_eq!(
        SeatalkMessage::parse_nmea_sentence(""),
        Err(SeatalkError::NotSeatalk)
    );
}

#[test]
fn sentence_error_taxonomy() {
    assert_eq!(
        SeatalkMessage::parse_nmea_sentence("$STALK"),
        Err(SeatalkError::MalformedSentence)
    );
    assert_eq!(
        SeatalkMessage::parse_nmea_sentence("$STALK,zz"),
        Err(SeatalkError::InvalidHexPayload)
    );
    assert_eq!(
        SeatalkMessage::parse_nmea_sentence("$STALK,123"),
        Err(SeatalkError::InvalidHexPayload)
    );
    assert_eq!(
        SeatalkMessage::parse_nmea_sentence("$STALK,"),
        Err(SeatalkError::EmptyDatagram)
    );
}

#[test]
fn sentence_trailing_fields_are_ignored() {
    let r = SeatalkMessage::parse_nmea_sentence("$STALK,00010203,extra,fields");
    assert_eq!(r, Ok(SeatalkMessage::Depth { depth_tenths_m: 2 }));
}

#[test]
fn hex_payload_case_insensitive() {
    let r = SeatalkMessage::parse_nmea_sentence("$STALK,8d00FF");
    assert_eq!(r, Ok(SeatalkMessage::CrossTrackError { error_tenths_nm: 0x00FF }));
}

#[test]
fn speed_and_temperature() {
    let r = SeatalkMessage::parse_seatalk_data(&[0x20, 0x04, 0x85]);
    // (4 & 0x7F) << 1 = 8, (0x85 & 0x80) >> 7 = 1: 9 tenths of a knot.
    assert_eq!(r, Ok(SeatalkMessage::Speed { speed_tenths_kn: 9 }));
    let r = SeatalkMessage::parse_seatalk_data(&[0x27, 0x07, 0x08]);
    assert_eq!(
        r,
        Ok(SeatalkMessage::WaterTemperature { temperature_tenths_c: 14 })
    );
}

#[test]
fn wind_data_overlapping_bytes() {
    let r = SeatalkMessage::parse_seatalk_data(&[0x10, 0x0A, 0x0B, 0x0C, 0x0D]);
    assert_eq!(
        r,
        Ok(SeatalkMessage::WindData {
            apparent_wind_angle_half_deg: 20,
            apparent_wind_speed_tenths_kn: 22,
        })
    );
}

#[test]
fn autopilot_modes() {
    let cases = [
        (0x00u8, AutopilotMode::Standby),
        (0x01, AutopilotMode::Auto),
        (0x02, AutopilotMode::Wind),
        (0x03, AutopilotMode::Track),
        (0x7E, AutopilotMode::Unknown(0x7E)),
    ];
    for (b, mode) in cases {
        let r = SeatalkMessage::parse_seatalk_data(&[0x84, 0x0D, 0x0E, b]);
        assert_eq!(
            r,
            Ok(SeatalkMessage::AutopilotCommand { heading_half_deg: 26, mode })
        );
    }
}

#[test]
fn gps_time_date_formatting() {
    let r = SeatalkMessage::parse_seatalk_data(&[0x53, 0x1A, 0x1B, 0x1C, 0x1D, 0x1E, 0x1F]);
    assert_eq!(
        r,
        Ok(SeatalkMessage::GPSTimeDate { time: "26:27:28".to_string(), date: "29/30/31".to_string() })
    );
    // A byte above 99 renders with three digits, as {:02} formatting does.
    let r = SeatalkMessage::parse_seatalk_data(&[0x53, 200, 5, 61, 7, 13, 99]);
    assert_eq!(
        r,
        Ok(SeatalkMessage::GPSTimeDate { time: "200:05:61".to_string(), date: "07/13/99".to_string() })
    );
}

#[test]
fn rudder_and_trip_log() {
    let r = SeatalkMessage::parse_seatalk_data(&[0x9C, 0x20, 0x21]);
    assert_eq!(r, Ok(SeatalkMessage::RudderPosition { angle_half_deg: 64 }));
    let r = SeatalkMessage::parse_seatalk_data(&[0x21, 0x23, 0x24, 0x25, 0x26, 0x27, 0x28]);
    assert_eq!(
        r,
        Ok(SeatalkMessage::TripLog {
            trip_distance_tenths_nm: 70,
            total_distance_tenths_nm: 74,
        })
    );
}

#[test]
fn alarm_types() {
    let cases = [
        (0x01u8, AlarmType::Depth),
        (0x02, AlarmType::Anchor),
        (0x03, AlarmType::Wind),
        (0x28, AlarmType::Custom(0x28)),
    ];
    for (b, alarm_type) in cases {
        let r = SeatalkMessage::parse_seatalk_data(&[0x86, b]);
        assert_eq!(r, Ok(SeatalkMessage::Alarm { alarm_type }));
    }
}

#[test]
fn navigation_data_three_packs() {
    let r = SeatalkMessage::parse_seatalk_data(&[0x5B, 0x33, 0x34, 0x35, 0x36, 0x37, 0x38]);
    assert_eq!(
        r,
        Ok(SeatalkMessage::NavigationData {
            cross_track_error_tenths_nm: 0x66,
            bearing_to_waypoint_half_deg: 0x6A,
            distance_to_waypoint_tenths_nm: 0x6E,
        })
    );
}

#[test]
fn navigation_commands() {
    let cases = [
        (0x01u8, NavigationCommandType::GoToWaypoint),
        (0x02, NavigationCommandType::FollowRoute),
        (0x09, NavigationCommandType::Unknown(0x09)),
    ];
    for (b, command) in cases {
        let r = SeatalkMessage::parse_seatalk_data(&[0x5E, b]);
        assert_eq!(r, Ok(SeatalkMessage::NavigationCommand { command }));
    }
}

#[test]
fn course_to_steer_signed_rudder() {
    let r = SeatalkMessage::parse_seatalk_data(&[0x85, 0x01, 0xF2, 0x03, 0x00]);
    assert_eq!(
        r,
        Ok(SeatalkMessage::CourseToSteer {
            heading_half_deg: 0x01F2,
            rudder_position_deg: 3,
            mode: SteeringMode::Manual,
        })
    );
    // 0xF2 read as a signed byte is -14.
    let r = SeatalkMessage::parse_seatalk_data(&[0x85, 0x00, 0x10, 0xF2, 0x01]);
    assert_eq!(
        r,
        Ok(SeatalkMessage::CourseToSteer {
            heading_half_deg: 0x0010,
            rudder_position_deg: -14,
            mode: SteeringMode::Auto,
        })
    );
    let r = SeatalkMessage::parse_seatalk_data(&[0x85, 0x00, 0x10, 0x00, 0x05]);
    assert_eq!(
        r,
        Ok(SeatalkMessage::CourseToSteer {
            heading_half_deg: 0x0010,
            rudder_position_deg: 0,
            mode: SteeringMode::Unknown(0x05),
        })
    );
}

#[test]
fn vessel_heading_status_bit() {
    let r = SeatalkMessage::parse_seatalk_data(&[0x9B, 0x03, 0xE8, 0x01]);
    assert_eq!(
        r,
        Ok(SeatalkMessage::VesselHeading { heading_half_deg: 0x03E8, status: HeadingStatus::Valid })
    );
    let r = SeatalkMessage::parse_seatalk_data(&[0x9B, 0x03, 0xE8, 0x02]);
    assert_eq!(
        r,
        Ok(SeatalkMessage::VesselHeading {
            heading_half_deg: 0x03E8,
            status: HeadingStatus::Invalid,
        })
    );
    // The status byte is part of the required length: three bytes are short.
    let r = SeatalkMessage::parse_seatalk_data(&[0x9B, 0x03, 0xE8]);
    assert_eq!(
        r,
        Err(SeatalkError::TruncatedMessage { expected_min: 4, actual: 3 })
    );
}

#[test]
fn cross_track_error_tenths() {
    let r = SeatalkMessage::parse_seatalk_data(&[0x8D, 0x00, 0x19]);
    assert_eq!(r, Ok(SeatalkMessage::CrossTrackError { error_tenths_nm: 25 }));
    assert_eq!(25 as f64 / 10.0, 2.5);
}

#[test]
fn engine_temperature_and_fuel() {
    let r = SeatalkMessage::parse_seatalk_data(&[0x31, 0x02, 0x45]);
    assert_eq!(
        r,
        Ok(SeatalkMessage::EngineTemperature { temperature_c: 0x45, engine_number: 2 })
    );
    let r = SeatalkMessage::parse_seatalk_data(&[0x32, 0x03, 0x00, 0x64, 0x01, 0xF4]);
    assert_eq!(
        r,
        Ok(SeatalkMessage::EngineFuelData {
            fuel_flow_tenths_lph: 100,
            fuel_total_l: 500,
            engine_number: 3,
        })
    );
    // The sixteen-bit total needs six bytes; five are short.
    let r = SeatalkMessage::parse_seatalk_data(&[0x32, 0x03, 0x00, 0x64, 0x01]);
    assert_eq!(
        r,
        Err(SeatalkError::TruncatedMessage { expected_min: 6, actual: 5 })
    );
}

#[test]
fn engine_alarm_types() {
    let cases = [
        (0x01u8, EngineAlarmType::Overheat),
        (0x02, EngineAlarmType::LowOilPressure),
        (0x03, EngineAlarmType::LowFuel),
        (0x77, EngineAlarmType::Custom(0x77)),
    ];
    for (b, alarm_type) in cases {
        let r = SeatalkMessage::parse_seatalk_data(&[0x87, 0x02, b]);
        assert_eq!(
            r,
            Ok(SeatalkMessage::EngineAlarm { alarm_type, engine_number: 2 })
        );
    }
}
