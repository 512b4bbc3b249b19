use easy_qr::byte_stream::Bytes;
use easy_qr::encoding::{
    byte_to_alphanumeric, count_bits_count, encode, encode_alphanumeric, encode_byte, encode_end,
    encode_numeric, encode_start, Encodable, EncodeError,
};
use easy_qr::{EncodingMode, ErrorCorrection, QRCodeVersion};

const ALPHABET: &str = "0123456789ABCDEFGHIJKLMNOPQRSTUVWXYZ $%*+-./:";

#[test]
fn alphabet_maps_to_its_positions() {
    assert_eq!(ALPHABET.len(), 45);
    for (index, byte) in ALPHABET.bytes().enumerate() {
        assert_eq!(usize::from(byte_to_alphanumeric(byte)), index);
    }
}

#[test]
fn bytes_outside_the_alphabet_map_to_zero() {
    for byte in 0..=255u8 {
        if !ALPHABET.as_bytes().contains(&byte) {
            assert_eq!(byte_to_alphanumeric(byte), 0, "byte {byte}");
        }
    }
    assert_eq!(byte_to_alphanumeric(b'a'), 0);
    assert_eq!(byte_to_alphanumeric(b'#'), 0);
    assert_eq!(byte_to_alphanumeric(0xC3), 0);
}

#[test]
fn mode_selection_edge_cases() {
    assert_eq!(EncodingMode::analyze_string(""), EncodingMode::Numeric);
    assert_eq!(EncodingMode::analyze_string("0"), EncodingMode::Numeric);
    assert_eq!(EncodingMode::analyze_string("0123456789"), EncodingMode::Numeric);
    assert_eq!(EncodingMode::analyze_string("A"), EncodingMode::Alphanumeric);
    assert_eq!(EncodingMode::analyze_string("1A1"), EncodingMode::Alphanumeric);
    assert_eq!(EncodingMode::analyze_string(ALPHABET), EncodingMode::Alphanumeric);
    assert_eq!(EncodingMode::analyze_string("a"), EncodingMode::Byte);
    assert_eq!(EncodingMode::analyze_string("a123"), EncodingMode::Byte);
    assert_eq!(EncodingMode::analyze_string("123a"), EncodingMode::Byte);
    assert_eq!(EncodingMode::analyze_string("AB,CD"), EncodingMode::Byte);
    assert_eq!(EncodingMode::analyze_string("12\n"), EncodingMode::Byte);
    assert_eq!(EncodingMode::analyze_string("/"), EncodingMode::Alphanumeric);
    assert_eq!(EncodingMode::analyze_string("@"), EncodingMode::Byte);
    assert_eq!(EncodingMode::analyze_string("["), EncodingMode::Byte);
}

#[test]
fn header_holds_mode_and_count() {
    let mut stream = Bytes::with_capacity(2);
    encode_start(&mut stream, QRCodeVersion::V1, EncodingMode::Numeric, 17);
    // 0001 0000010001
    assert_eq!(stream.into_parts(), (vec![0b0001_0000, 0b0100_0100], 6));

    let mut stream = Bytes::with_capacity(2);
    encode_start(&mut stream, QRCodeVersion::V1, EncodingMode::Alphanumeric, 11);
    // 0010 000001011
    assert_eq!(stream.into_parts(), (vec![0b0010_0000, 0b0101_1000], 5));

    let mut stream = Bytes::with_capacity(2);
    encode_start(&mut stream, QRCodeVersion::V9, EncodingMode::Byte, 0xA5);
    // 0100 10100101
    assert_eq!(stream.into_parts(), (vec![0b0100_1010, 0b0101_0000], 4));

    let mut stream = Bytes::with_capacity(3);
    encode_start(&mut stream, QRCodeVersion::V10, EncodingMode::Byte, 0xBEEF);
    assert_eq!(stream.into_parts(), (vec![0x4B, 0xEE, 0xF0], 4));

    let mut stream = Bytes::with_capacity(3);
    encode_start(&mut stream, QRCodeVersion::V40, EncodingMode::Numeric, 7089);
    // 0001 01101110110001
    assert_eq!(stream.into_parts(), (vec![0x16, 0xEC, 0x40], 2));
}

#[test]
fn header_cuts_the_count_to_its_width() {
    let mut cut = Bytes::with_capacity(2);
    encode_start(&mut cut, QRCodeVersion::V1, EncodingMode::Byte, 256 + 5);
    let mut plain = Bytes::with_capacity(2);
    encode_start(&mut plain, QRCodeVersion::V1, EncodingMode::Byte, 5);
    assert_eq!(cut.into_parts(), plain.into_parts());

    let mut cut = Bytes::with_capacity(2);
    encode_start(&mut cut, QRCodeVersion::V1, EncodingMode::Numeric, 1024);
    assert_eq!(cut.into_parts(), (vec![0b0001_0000, 0b0000_0000], 6));

    let mut cut = Bytes::with_capacity(3);
    encode_start(&mut cut, QRCodeVersion::V27, EncodingMode::Byte, 0x1_0000 + 0x0102);
    assert_eq!(cut.into_parts(), (vec![0x40, 0x10, 0x20], 4));
}

#[test]
fn numeric_groups_of_three_two_and_one() {
    let mut stream = Bytes::with_capacity(4);
    encode_numeric("", &mut stream);
    assert_eq!(stream.len(), 0);

    let mut stream = Bytes::with_capacity(4);
    encode_numeric("7", &mut stream);
    assert_eq!(stream.into_parts(), (vec![0b0111_0000], 4));

    let mut stream = Bytes::with_capacity(4);
    encode_numeric("42", &mut stream);
    // 42 in seven bits: 0101010
    assert_eq!(stream.into_parts(), (vec![0b0101_0100], 7));

    let mut stream = Bytes::with_capacity(4);
    encode_numeric("123", &mut stream);
    // 123 in ten bits: 0001111011
    assert_eq!(stream.into_parts(), (vec![0b0001_1110, 0b1100_0000], 2));

    let mut stream = Bytes::with_capacity(4);
    encode_numeric("01234567", &mut stream);
    // 012 -> 0000001100, 345 -> 0101011001, 67 -> 1000011
    assert_eq!(stream.into_parts(), (vec![0b0000_0011, 0b0001_0101, 0b1001_1000, 0b0110_0000], 3));

    let mut stream = Bytes::with_capacity(4);
    encode_numeric("0000", &mut stream);
    assert_eq!(stream.into_parts(), (vec![0, 0], 6));
}

#[test]
fn alphanumeric_pairs_and_a_single() {
    let mut stream = Bytes::with_capacity(4);
    encode_alphanumeric("", &mut stream);
    assert_eq!(stream.len(), 0);

    let mut stream = Bytes::with_capacity(4);
    encode_alphanumeric(":", &mut stream);
    // 44 in six bits: 101100
    assert_eq!(stream.into_parts(), (vec![0b1011_0000], 6));

    let mut stream = Bytes::with_capacity(4);
    encode_alphanumeric("AC", &mut stream);
    // 10 * 45 + 12 = 462 in eleven bits: 00111001110
    assert_eq!(stream.into_parts(), (vec![0b0011_1001, 0b1100_0000], 3));

    let mut stream = Bytes::with_capacity(4);
    encode_alphanumeric("AC-", &mut stream);
    // then 41 in six bits: 101001
    assert_eq!(stream.into_parts(), (vec![0b0011_1001, 0b1101_0100, 0b1000_0000], 1));

    let mut stream = Bytes::with_capacity(4);
    encode_alphanumeric("::", &mut stream);
    // 44 * 45 + 44 = 2024 in eleven bits: 11111101000
    assert_eq!(stream.into_parts(), (vec![0b1111_1101, 0b0000_0000], 3));
}

#[test]
fn alphanumeric_takes_a_foreign_byte_as_zero() {
    let mut lenient = Bytes::with_capacity(4);
    encode_alphanumeric("a:", &mut lenient);
    let mut zero = Bytes::with_capacity(4);
    encode_alphanumeric("0:", &mut zero);
    assert_eq!(lenient.into_parts(), zero.into_parts());

    let mut lenient = Bytes::with_capacity(4);
    encode_alphanumeric("?", &mut lenient);
    assert_eq!(lenient.into_parts(), (vec![0], 6));
}

#[test]
fn byte_mode_copies_the_bytes() {
    let mut stream = Bytes::with_capacity(4);
    encode_byte("", &mut stream);
    assert_eq!(stream.len(), 0);

    let mut stream = Bytes::with_capacity(4);
    encode_byte("a\u{e9}", &mut stream);
    assert_eq!(stream.into_parts(), (vec![0x61, 0xC3, 0xA9], 0));

    let mut stream = Bytes::with_capacity(4);
    stream.push(0b0100, 4);
    encode_byte("\u{1f631}", &mut stream);
    assert_eq!(stream.into_parts(), (vec![0x4F, 0x09, 0xF9, 0x8B, 0x10], 4));
}

#[test]
fn byte_mode_counts_bytes() {
    let (bytes, mode) = "\u{e9}".create_bits(QRCodeVersion::V1, ErrorCorrection::H).unwrap();
    assert_eq!(mode, EncodingMode::Byte);
    assert_eq!(bytes, vec![0x40, 0x2C, 0x3A, 0x90, 0xEC, 0x11, 0xEC, 0x11, 0xEC]);
}

fn stream_with(bits: u16) -> Bytes {
    let mut stream = Bytes::with_capacity(4);
    stream.push(0xFF, 8);
    if bits > 0 {
        stream.push((1 << bits) - 1, bits);
    }
    stream
}

#[test]
fn end_adds_a_zero_byte_when_fewer_than_four_bits_are_free() {
    for bits in [0u16, 5, 6, 7] {
        let mut stream = stream_with(bits);
        let before = stream.to_vec();
        assert_eq!(encode_end(&mut stream, before.len() + 3), Ok(()));
        let mut expected = before;
        expected.extend([0x00, 0xEC, 0x11]);
        assert_eq!(stream.into_parts(), (expected, 0), "{bits} bits in use");
    }
}

#[test]
fn end_adds_no_zero_byte_when_four_bits_are_free() {
    for bits in [1u16, 2, 3, 4] {
        let mut stream = stream_with(bits);
        let before = stream.to_vec();
        assert_eq!(encode_end(&mut stream, before.len() + 3), Ok(()));
        let mut expected = before;
        expected.extend([0xEC, 0x11, 0xEC]);
        assert_eq!(stream.into_parts(), (expected, 0), "{bits} bits in use");
    }
}

#[test]
fn end_leaves_a_full_symbol_alone() {
    for bits in 0..8u16 {
        let mut stream = stream_with(bits);
        let before = stream.to_vec();
        assert_eq!(encode_end(&mut stream, before.len()), Ok(()));
        assert_eq!(stream.into_parts(), (before, u32::from(bits)));
    }
}

#[test]
fn end_with_room_for_the_zero_byte_only() {
    let mut stream = stream_with(7);
    assert_eq!(encode_end(&mut stream, 3), Ok(()));
    assert_eq!(stream.into_parts(), (vec![0xFF, 0xFE, 0x00], 0));
}

#[test]
fn end_pads_an_empty_stream() {
    let mut stream = Bytes::with_capacity(4);
    assert_eq!(encode_end(&mut stream, 4), Ok(()));
    assert_eq!(stream.into_parts(), (vec![0x00, 0xEC, 0x11, 0xEC], 0));

    let mut stream = Bytes::with_capacity(0);
    assert_eq!(encode_end(&mut stream, 0), Ok(()));
    assert_eq!(stream.into_parts(), (vec![], 0));
}

#[test]
fn end_reports_a_stream_that_is_too_long() {
    let mut stream = stream_with(3);
    assert_eq!(encode_end(&mut stream, 1), Err(EncodeError::CapacityExceeded));
    assert_eq!(stream.into_parts(), (vec![0xFF, 0xE0], 3));

    let mut stream = stream_with(0);
    assert_eq!(encode_end(&mut stream, 0), Err(EncodeError::CapacityExceeded));
    assert_eq!(stream.into_parts(), (vec![0xFF], 0));
}

#[test]
fn capacity_is_met_exactly() {
    let versions = [QRCodeVersion::V1, QRCodeVersion::V9, QRCodeVersion::V10, QRCodeVersion::V40];
    let levels = [ErrorCorrection::L, ErrorCorrection::M, ErrorCorrection::Q, ErrorCorrection::H];
    for version in versions {
        for ec in levels {
            for text in ["", "1", "12345", "HELLO", "hello", "\u{4e16}\u{754c}"] {
                let (bytes, _) = encode(text, version, ec).unwrap();
                assert_eq!(bytes.len(), version.data_size(ec));
            }
            let head = 4 + usize::from(count_bits_count(version, EncodingMode::Byte));
            for length in 0..200 {
                let found = encode(&"z".repeat(length), version, ec);
                assert_eq!(found.is_ok(), head + 8 * length <= 8 * version.data_size(ec));
                if let Ok((bytes, _)) = found {
                    assert_eq!(bytes.len(), version.data_size(ec));
                }
            }
        }
    }
}

#[test]
fn empty_text() {
    let (bytes, mode) = encode("", QRCodeVersion::V1, ErrorCorrection::H).unwrap();
    assert_eq!(mode, EncodingMode::Numeric);
    // 0001 0000000000 leaves two bits free: a zero byte follows.
    assert_eq!(bytes, vec![0x10, 0x00, 0x00, 0xEC, 0x11, 0xEC, 0x11, 0xEC, 0x11]);
}

#[test]
fn a_segment_that_ends_on_the_last_byte_boundary_fits() {
    // 4 + 8 + 7 * 8 = 68 bits leave four bits free in the ninth byte.
    let (bytes, mode) = encode("abcdefg", QRCodeVersion::V1, ErrorCorrection::H).unwrap();
    assert_eq!(mode, EncodingMode::Byte);
    assert_eq!(bytes, vec![0x40, 0x76, 0x16, 0x26, 0x36, 0x46, 0x56, 0x66, 0x70]);
    // 4 + 9 + 5 * 11 + 0 = 68 bits and 4 + 9 + 5 * 11 + 6 = 74 bits.
    assert!(encode("ABCDEFGHIJ", QRCodeVersion::V1, ErrorCorrection::H).is_ok());
    assert_eq!(
        encode("ABCDEFGHIJK", QRCodeVersion::V1, ErrorCorrection::H),
        Err(EncodeError::CapacityExceeded)
    );
}

#[test]
fn overflow_is_reported_in_every_mode() {
    assert_eq!(
        encode("abcdefgh", QRCodeVersion::V1, ErrorCorrection::H),
        Err(EncodeError::CapacityExceeded)
    );
    assert_eq!(
        encode(&"1".repeat(18), QRCodeVersion::V1, ErrorCorrection::H),
        Err(EncodeError::CapacityExceeded)
    );
    assert_eq!(
        encode(&"A".repeat(26), QRCodeVersion::V1, ErrorCorrection::L),
        Err(EncodeError::CapacityExceeded)
    );
    assert!(encode(&"A".repeat(25), QRCodeVersion::V1, ErrorCorrection::L).is_ok());
}

#[test]
fn a_text_longer_than_its_count_field_never_fits() {
    for version in [QRCodeVersion::V9, QRCodeVersion::V26, QRCodeVersion::V40] {
        let digits = 1usize << count_bits_count(version, EncodingMode::Numeric);
        assert!("0".repeat(digits).create_bits(version, ErrorCorrection::L).is_none());
        let symbols =
            1usize << count_bits_count(version, EncodingMode::Alphanumeric);
        assert!("A".repeat(symbols).create_bits(version, ErrorCorrection::L).is_none());
    }
    assert!("a".repeat(256).create_bits(QRCodeVersion::V9, ErrorCorrection::L).is_none());
    assert!("a".repeat(65536).create_bits(QRCodeVersion::V40, ErrorCorrection::L).is_none());
}

#[test]
fn create_bits_and_encode_agree() {
    for text in ["", "31415926", "PROJECT NAYUKI", "caf\u{e9}", &"7".repeat(100)] {
        for version in [QRCodeVersion::V1, QRCodeVersion::V2, QRCodeVersion::V5] {
            let found = text.create_bits(version, ErrorCorrection::Q);
            assert_eq!(found, encode(text, version, ErrorCorrection::Q).ok());
        }
    }
}

#[test]
fn same_input_same_output() {
    let first = encode("HELLO WORLD", QRCodeVersion::V2, ErrorCorrection::M);
    let second = encode("HELLO WORLD", QRCodeVersion::V2, ErrorCorrection::M);
    assert_eq!(first, second);
}
