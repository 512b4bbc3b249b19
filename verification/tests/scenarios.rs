use easy_qr::encoding::{encode, Encodable, EncodeError};
use easy_qr::{EncodingMode, ErrorCorrection, QRCodeVersion};

#[test]
fn numeric_single_digit() {
    let (bytes, mode) = "9".create_bits(QRCodeVersion::V1, ErrorCorrection::H).unwrap();
    assert_eq!(mode, EncodingMode::Numeric);
    assert_eq!(bytes, vec![0x10, 0x06, 0x40, 0xEC, 0x11, 0xEC, 0x11, 0xEC, 0x11]);
}

#[test]
fn numeric_seventeen_digits_fill_the_symbol() {
    let (bytes, mode) =
        "99999999999999999".create_bits(QRCodeVersion::V1, ErrorCorrection::H).unwrap();
    assert_eq!(mode, EncodingMode::Numeric);
    assert_eq!(bytes, vec![0x10, 0x47, 0xE7, 0xF9, 0xFE, 0x7F, 0x9F, 0xE7, 0xC6]);
}

#[test]
fn alphanumeric_hello_world() {
    let (bytes, mode) = "HELLO WORLD".create_bits(QRCodeVersion::V4, ErrorCorrection::H).unwrap();
    assert_eq!(mode, EncodingMode::Alphanumeric);
    let mut expected = vec![0x20, 0x5B, 0x0B, 0x78, 0xD1, 0x72, 0xDC, 0x4D, 0x43, 0x40];
    while expected.len() < 36 {
        expected.push(if expected.len() % 2 == 0 { 0xEC } else { 0x11 });
    }
    assert_eq!(bytes, expected);
}

#[test]
fn eighteen_digits_overflow_version_one_h() {
    assert_eq!(
        encode("999999999999999999", QRCodeVersion::V1, ErrorCorrection::H),
        Err(EncodeError::CapacityExceeded)
    );
    assert!("999999999999999999".create_bits(QRCodeVersion::V1, ErrorCorrection::H).is_none());
}

#[test]
fn data_that_leaves_no_room_for_the_header_overflows() {
    // Nine bytes are 72 data bits, more than 9 * 8 - 4.
    assert_eq!(
        encode("abcdefghi", QRCodeVersion::V1, ErrorCorrection::H),
        Err(EncodeError::CapacityExceeded)
    );
    // Twenty-one digits are 70 data bits.
    assert_eq!(
        encode("123456789012345678901", QRCodeVersion::V1, ErrorCorrection::H),
        Err(EncodeError::CapacityExceeded)
    );
    // Thirteen symbols are 6 * 11 + 6 = 72 data bits.
    assert_eq!(
        encode("ABCDEFGHIJKLM", QRCodeVersion::V1, ErrorCorrection::H),
        Err(EncodeError::CapacityExceeded)
    );
}

#[test]
fn mode_selection() {
    assert_eq!(EncodingMode::analyze_string("123"), EncodingMode::Numeric);
    assert_eq!(EncodingMode::analyze_string("AB 12"), EncodingMode::Alphanumeric);
    assert_eq!(EncodingMode::analyze_string("AB12\u{e9}"), EncodingMode::Byte);
}
