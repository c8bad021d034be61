use seatalk::xdr::{calculate_checksum, frame_sentence};

#[test]
fn checksum_of_empty_is_zero() {
    assert_eq!(calculate_checksum(""), 0);
}

#[test]
fn checksum_is_xor_of_bytes() {
    assert_eq!(calculate_checksum("A"), 0x41);
    assert_eq!(calculate_checksum("AB"), 0x41 ^ 0x42);
    let data = "IIXDR,29.5,P,B,ENGINE,25.0,T,C,COOLING";
    let expected = data.bytes().fold(0u8, |sum, b| sum ^ b);
    assert_eq!(calculate_checksum(data), expected);
}

#[test]
fn frame_matches_manual_formatting() {
    let data = "IIXDR,29.5,P,B,ENGINE,25.0,T,C,COOLING";
    let expected = format!("${}*{:02X}", data, calculate_checksum(data));
    assert_eq!(frame_sentence(data), expected);
}

#[test]
fn frame_of_empty_data() {
    assert_eq!(frame_sentence(""), "$*00");
}

#[test]
fn frame_pads_checksum_to_two_digits() {
    // The body "IM" has checksum 0x49 ^ 0x4D = 0x04, which must render as 04.
    assert_eq!(calculate_checksum("IM"), 0x04);
    assert_eq!(frame_sentence("IM"), "$IM*04");
}
