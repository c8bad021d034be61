use seatalk::tokenizer::{
    detect_and_parse_message, parse_dsc_message, parse_inmarsat_header, parse_inmarsat_message,
    parse_nmea_sentence, parse_seatalk_message, MessageType,
};

#[test]
fn nmea_sentence_with_checksum() {
    let r = parse_nmea_sentence("$GPGGA,002153.000,3342.6618,N,11751.3858,W,1,10,1.2,27.0,M,-34.2,M,,0000*5A")
        .unwrap();
    assert_eq!(r.sentence_type, '$');
    assert_eq!(r.talker_id, "GP");
    assert_eq!(r.message_type, "GGA");
    assert_eq!(r.data_fields.len(), 14);
    assert_eq!(r.data_fields[0], "002153.000");
    assert_eq!(r.data_fields[13], "0000");
    assert_eq!(r.checksum.as_deref(), Some("5A"));
}

#[test]
fn nmea_sentence_without_checksum() {
    let r = parse_nmea_sentence("$GPGGA,1,2").unwrap();
    assert_eq!(r.talker_id, "GP");
    assert_eq!(r.message_type, "GGA");
    assert_eq!(r.data_fields, vec!["1".to_string(), "2".to_string()]);
    assert_eq!(r.checksum, None);
}

#[test]
fn nmea_short_checksum_is_dropped() {
    let r = parse_nmea_sentence("$GPGGA,1*5").unwrap();
    assert_eq!(r.checksum, None);
    assert_eq!(r.data_fields, vec!["1".to_string()]);
}

#[test]
fn nmea_ais_lead_character() {
    let r = parse_nmea_sentence("!AIVDM,1,1,,A,13HOI:0P0000VOHLCnHQKwvL05Ip,0*23").unwrap();
    assert_eq!(r.sentence_type, '!');
    assert_eq!(r.talker_id, "AI");
    assert_eq!(r.message_type, "VDM");
    assert_eq!(r.checksum.as_deref(), Some("23"));
}

#[test]
fn nmea_rejects_other_lead() {
    assert_eq!(
        parse_nmea_sentence("GPGGA,1,2"),
        Err("Sentence must start with '$', '!', or '/'")
    );
    assert_eq!(
        parse_nmea_sentence(""),
        Err("Sentence must start with '$', '!', or '/'")
    );
}

#[test]
fn nmea_short_first_field() {
    let r = parse_nmea_sentence("$G").unwrap();
    assert_eq!(r.talker_id, "");
    assert_eq!(r.message_type, "");
    assert_eq!(r.data_fields.len(), 0);
}

#[test]
fn inmarsat_header_tags() {
    let r = parse_inmarsat_header("1-9-1234,s:egcterm1,n:213,c:1333636200").unwrap();
    assert_eq!(r.group_id, "1-9-1234");
    assert_eq!(r.station_id.as_deref(), Some("egcterm1"));
    assert_eq!(r.sequence_number.as_deref(), Some("213"));
    assert_eq!(r.timestamp.as_deref(), Some("1333636200"));
}

#[test]
fn inmarsat_header_last_tag_wins() {
    let r = parse_inmarsat_header("g,s:first,s:second").unwrap();
    assert_eq!(r.station_id.as_deref(), Some("second"));
    assert_eq!(r.sequence_number, None);
    assert_eq!(r.timestamp, None);
}

#[test]
fn inmarsat_header_bare_group() {
    let r = parse_inmarsat_header("group-only").unwrap();
    assert_eq!(r.group_id, "group-only");
    assert_eq!(r.station_id, None);
}

#[test]
fn inmarsat_message_header_and_payload() {
    let r = parse_inmarsat_message("hdr,s:x/$GPGGA,1,2*3F").unwrap();
    assert_eq!(r.header.group_id, "hdr");
    assert_eq!(r.header.station_id.as_deref(), Some("x"));
    assert_eq!(r.payload.sentence_type, '/');
    assert_eq!(r.payload.talker_id, "$G");
    assert_eq!(r.payload.message_type, "PGGA");
    assert_eq!(r.payload.data_fields, vec!["1".to_string(), "2".to_string()]);
    assert_eq!(r.payload.checksum.as_deref(), Some("3F"));
}

#[test]
fn inmarsat_message_without_separator() {
    assert_eq!(
        parse_inmarsat_message("no separator here"),
        Err("Invalid Inmarsat message format")
    );
}

#[test]
fn dsc_message_fields() {
    let r = parse_dsc_message(
        "$DSC,12,3380405810,00,1234567890,72,1234567890,00,00,00,00,00,00,00*3B",
    )
    .unwrap();
    assert_eq!(r.format_specifier, "12");
    assert_eq!(r.address, "3380405810");
    assert_eq!(r.category, "00");
    assert_eq!(r.self_id, "1234567890");
    assert_eq!(r.subsequent_communications, "72");
    assert_eq!(r.data_fields.len(), 8);
    assert_eq!(r.data_fields[0], "1234567890");
    assert_eq!(r.checksum.as_deref(), Some("3B"));
}

#[test]
fn dsc_error_taxonomy() {
    assert_eq!(
        parse_dsc_message("DSC,12,3380405810,00,1234567890,72"),
        Err("DSC message must start with '$'")
    );
    assert_eq!(
        parse_dsc_message("$DSC,1,2"),
        Err("DSC message must have at least 6 fields")
    );
    assert_eq!(
        parse_dsc_message("$XYZ,1,2,3,4,5"),
        Err("DSC message must have 'DSC' as talker ID")
    );
}

#[test]
fn seatalk_sentence_fields_and_checksum() {
    let r = parse_seatalk_message("$STALK,84,56,e,0,0,0,0,0,8*0F").unwrap();
    assert_eq!(
        r.data_fields,
        vec!["84", "56", "e", "0", "0", "0", "0", "0", "8"]
            .into_iter()
            .map(|s| s.to_string())
            .collect::<Vec<_>>()
    );
    assert_eq!(r.checksum, "0F");
}

#[test]
fn seatalk_sentence_errors() {
    assert_eq!(
        parse_seatalk_message("STALK,84*0F"),
        Err("SeaTalk sentence must start with '$'")
    );
    assert_eq!(
        parse_seatalk_message("$STALK,84,56"),
        Err("Invalid SeaTalk sentence format")
    );
}

#[test]
fn detect_routes_each_family() {
    let r = detect_and_parse_message(
        "$GPGGA,002153.000,3342.6618,N,11751.3858,W,1,10,1.2,27.0,M,-34.2,M,,0000*5A",
    )
    .unwrap();
    assert!(matches!(r, MessageType::Nmea(_)));
    let r = detect_and_parse_message("!AIVDM,1,1,,A,13HOI:0P0000VOHLCnHQKwvL05Ip,0*23").unwrap();
    assert!(matches!(r, MessageType::Ais(_)));
    let r = detect_and_parse_message(
        "/g:1-9-1234,s:egcterm1,n:213,c:1333636200*hh/$CSSM3,123456,005213*hh",
    )
    .unwrap();
    assert!(matches!(r, MessageType::Inmarsat(_)));
    let r = detect_and_parse_message("$STALK,84,56,e,0,0,0,0,0,8*0F").unwrap();
    match r {
        MessageType::Seatalk(m) => assert_eq!(m.checksum, "0F"),
        _ => unreachable!(),
    }
    let r = detect_and_parse_message(
        "$DSC,12,3380405810,00,1234567890,72,1234567890,00,00,00,00,00,00,00*3B",
    )
    .unwrap();
    assert!(matches!(r, MessageType::Dsc(_)));
}

#[test]
fn detect_rejects_unknown_format() {
    assert_eq!(
        detect_and_parse_message("hello world"),
        Err("Unknown message format")
    );
    assert_eq!(detect_and_parse_message(""), Err("Unknown message format"));
}

#[test]
fn detect_forwards_parse_errors() {
    // A $STALK sentence without a checksum separator fails in the Seatalk
    // tokenizer, and the router hands that error on.
    assert_eq!(
        detect_and_parse_message("$STALK,84,56"),
        Err("Invalid SeaTalk sentence format")
    );
}
