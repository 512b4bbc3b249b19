use easy_qr::byte_stream::Bytes;

/// The bits of `value` in `width` places, most significant first.
fn field(value: u16, width: u16) -> Vec<bool> {
    (0..width).rev().map(|k| (value >> k) & 1 == 1).collect()
}

/// `bits` as bytes, the last one filled up with zeros.
fn packed(bits: &[bool]) -> Vec<u8> {
    bits.chunks(8)
        .map(|chunk| {
            let mut byte = 0u8;
            for (j, bit) in chunk.iter().enumerate() {
                if *bit {
                    byte |= 0x80 >> j;
                }
            }
            byte
        })
        .collect()
}

/// A stream with `shift` bits in use in its last byte, and the bits it holds.
fn stream_at(shift: u16) -> (Bytes, Vec<bool>) {
    let mut stream = Bytes::with_capacity(4);
    let mut bits = Vec::new();
    stream.push(0b1010_0101, 8);
    bits.extend(field(0b1010_0101, 8));
    if shift > 0 {
        let value = (1u16 << shift) - 1;
        stream.push(value, shift);
        bits.extend(field(value, shift));
    }
    (stream, bits)
}

#[test]
fn new_stream_is_empty() {
    let stream = Bytes::with_capacity(16);
    assert_eq!(stream.shift(), 0);
    assert_eq!(stream.len(), 0);
    let (bytes, shift) = stream.into_parts();
    assert!(bytes.is_empty());
    assert_eq!(shift, 0);
    let (bytes, shift) = Bytes::default().into_parts();
    assert!(bytes.is_empty());
    assert_eq!(shift, 0);
}

#[test]
fn push_on_a_byte_boundary_within_one_byte() {
    for width in 1..=8u16 {
        let value = (1u16 << width) - 1;
        let mut stream = Bytes::with_capacity(1);
        stream.push(value, width);
        assert_eq!(stream.shift(), u32::from(width % 8));
        let (bytes, _) = stream.into_parts();
        assert_eq!(bytes, vec![(0xFF00u16 >> width) as u8], "width {width}");
    }
}

#[test]
fn push_on_a_byte_boundary_over_two_bytes() {
    let mut stream = Bytes::with_capacity(2);
    stream.push(0b1_0000_0001, 9);
    assert_eq!(stream.shift(), 1);
    assert_eq!(stream.into_parts().0, vec![0x80, 0x80]);

    let mut stream = Bytes::with_capacity(2);
    stream.push(0xABCD, 16);
    assert_eq!(stream.shift(), 0);
    assert_eq!(stream.into_parts().0, vec![0xAB, 0xCD]);
}

#[test]
fn push_merges_into_the_last_byte() {
    let mut stream = Bytes::with_capacity(1);
    stream.push(0b101, 3);
    stream.push(0b11, 2);
    assert_eq!(stream.shift(), 5);
    stream.push(0b001, 3);
    assert_eq!(stream.shift(), 0);
    assert_eq!(stream.into_parts(), (vec![0b1011_1001], 0));
}

#[test]
fn push_crosses_one_boundary() {
    let mut stream = Bytes::with_capacity(2);
    stream.push(0b1, 1);
    stream.push(0b11_0000_1111, 10);
    assert_eq!(stream.shift(), 3);
    assert_eq!(stream.into_parts(), (vec![0b1110_0001, 0b1110_0000], 3));
}

#[test]
fn push_crosses_two_boundaries() {
    let mut stream = Bytes::with_capacity(3);
    stream.push(0b111_1111, 7);
    stream.push(0x8001, 16);
    assert_eq!(stream.shift(), 7);
    assert_eq!(stream.into_parts(), (vec![0xFF, 0x00, 0x02], 7));

    let mut stream = Bytes::with_capacity(3);
    stream.push(0, 1);
    stream.push(0xFFFF, 16);
    assert_eq!(stream.into_parts(), (vec![0x7F, 0xFF, 0x80], 1));
}

#[test]
fn every_width_at_every_shift() {
    for shift in 0..8u16 {
        for width in 1..=16u16 {
            let top = if width == 16 { 0xFFFF } else { (1u16 << width) - 1 };
            for value in [top, 1, 0, top & 0x5555, top & 0xAAAA, 1 << (width - 1)] {
                let (mut stream, mut bits) = stream_at(shift);
                stream.push(value, width);
                bits.extend(field(value, width));
                assert_eq!(stream.shift() as usize, bits.len() % 8);
                assert_eq!(stream.len(), (bits.len() + 7) / 8);
                let (bytes, left) = stream.into_parts();
                assert_eq!(left as usize, bits.len() % 8);
                assert_eq!(bytes, packed(&bits), "shift {shift}, width {width}, value {value}");
            }
        }
    }
}

#[test]
fn shift_and_length_follow_the_bits_pushed() {
    let mut stream = Bytes::with_capacity(0);
    let mut bits = Vec::new();
    let mut total = 0usize;
    for round in 0..200u16 {
        let width = round % 16 + 1;
        let value = round.wrapping_mul(0x9E37) & (((1u32 << width) - 1) as u16);
        stream.push(value, width);
        bits.extend(field(value, width));
        total += usize::from(width);
        assert!(stream.shift() < 8);
        assert_eq!(stream.shift() as usize, total % 8);
        assert_eq!(stream.len(), (total + 7) / 8);
    }
    assert_eq!(stream.into_parts().0, packed(&bits));
}

#[test]
fn full_byte_goes_to_the_next_boundary() {
    let mut stream = Bytes::with_capacity(2);
    stream.push(0b101, 3);
    stream.push_full_byte(0xEC);
    assert_eq!(stream.shift(), 0);
    assert_eq!(stream.len(), 2);
    stream.push_full_byte(0x11);
    stream.push(0b1, 1);
    assert_eq!(stream.into_parts(), (vec![0b1010_0000, 0xEC, 0x11, 0x80], 1));
}

#[test]
fn bytes_can_be_read_in_place() {
    let mut stream = Bytes::with_capacity(2);
    stream.push(0x1234, 16);
    stream.push(0b11, 2);
    assert_eq!(stream.len(), 3);
    assert_eq!(stream[0], 0x12);
    assert_eq!(stream.as_slice(), &[0x12, 0x34, 0xC0]);
}
