//! What the encoders have to produce: the bits of a segment and the
//! codewords of a symbol, as functions of the text.

use vstd::prelude::*;
use vstd::arithmetic::power2::{lemma2_to64, pow2};
use crate::alphabet::{alphanumeric_value, digit_value, is_digit};
use crate::bits::{bits_of_bytes, field_bits, lemma_field_bits_len, pack};
use crate::mode::EncodingMode;
use crate::version::{ErrorCorrection, QRCodeVersion};

verus! {

/// The width of the character count indicator: it depends on the mode and on
/// which of the bands 1 to 9, 10 to 26 and 27 to 40 the version lies in.
pub open spec fn count_width(version: QRCodeVersion, mode: EncodingMode) -> nat {
    let n = version.number();
    match mode {
        EncodingMode::Numeric => if n <= 9 {
            10
        } else if n <= 26 {
            12
        } else {
            14
        },
        EncodingMode::Alphanumeric => if n <= 9 {
            9
        } else if n <= 26 {
            11
        } else {
            13
        },
        EncodingMode::Byte => if n <= 9 {
            8
        } else {
            16
        },
    }
}

/// The head of a segment: the mode indicator in four bits, then the count,
/// cut to the width of the count indicator.
pub open spec fn header_bits(version: QRCodeVersion, mode: EncodingMode, count: nat) -> Seq<bool> {
    field_bits(mode.spec_indicator() as nat, 4) + field_bits(count, count_width(version, mode))
}

/// All bytes of `text` are digits.
pub open spec fn all_digits(text: Seq<u8>) -> bool {
    forall|i: int| 0 <= i < text.len() ==> is_digit(#[trigger] text[i])
}

/// Digits in the numeric mode: three at a time as a number of ten bits, a
/// last pair in seven bits, a last single digit in four.
pub open spec fn numeric_bits(digits: Seq<u8>) -> Seq<bool>
    decreases digits.len(),
{
    if digits.len() == 0 {
        Seq::empty()
    } else if digits.len() == 1 {
        field_bits(digit_value(digits[0]), 4)
    } else if digits.len() == 2 {
        field_bits(digit_value(digits[0]) * 10 + digit_value(digits[1]), 7)
    } else {
        field_bits(
            digit_value(digits[0]) * 100 + digit_value(digits[1]) * 10 + digit_value(digits[2]),
            10,
        ) + numeric_bits(digits.skip(3))
    }
}

/// Text in the alphanumeric mode: two symbols at a time as a number of
/// eleven bits, a last single symbol in six.
pub open spec fn alphanumeric_bits(text: Seq<u8>) -> Seq<bool>
    decreases text.len(),
{
    if text.len() == 0 {
        Seq::empty()
    } else if text.len() == 1 {
        field_bits(alphanumeric_value(text[0]), 6)
    } else {
        field_bits(alphanumeric_value(text[0]) * 45 + alphanumeric_value(text[1]), 11)
            + alphanumeric_bits(text.skip(2))
    }
}

/// Text in the byte mode: every byte as it is.
pub open spec fn byte_bits(text: Seq<u8>) -> Seq<bool> {
    bits_of_bytes(text)
}

/// The bits of a byte string that grows by one byte grow by that byte's
/// eight bits.
pub(crate) proof fn lemma_byte_bits_push(text: Seq<u8>, b: u8)
    ensures
        byte_bits(text.push(b)) == byte_bits(text) + field_bits(b as nat, 8),
{
    let grown = byte_bits(text.push(b));
    let expected = byte_bits(text) + field_bits(b as nat, 8);
    lemma_field_bits_len(b as nat, 8);
    assert forall|i: int| 0 <= i < grown.len() implies grown[i] == expected[i] by {
        if i >= 8 * text.len() {
            assert(i / 8 == text.len());
        }
    }
    assert(grown =~= expected);
}

/// The data bits of `text` in the given mode.
pub open spec fn data_bits(mode: EncodingMode, text: Seq<u8>) -> Seq<bool> {
    match mode {
        EncodingMode::Numeric => numeric_bits(text),
        EncodingMode::Alphanumeric => alphanumeric_bits(text),
        EncodingMode::Byte => byte_bits(text),
    }
}

/// The bits of the one segment that holds `text`: its head and its data.
pub open spec fn segment_bits(version: QRCodeVersion, mode: EncodingMode, text: Seq<u8>) -> Seq<
    bool,
> {
    header_bits(version, mode, text.len()) + data_bits(mode, text)
}

/// The number of data bits that a text of `count` bytes takes in the given
/// mode.
pub open spec fn data_len(mode: EncodingMode, count: nat) -> nat {
    match mode {
        EncodingMode::Numeric => 10 * (count / 3) + (if count % 3 == 0 {
            0nat
        } else if count % 3 == 1 {
            4nat
        } else {
            7nat
        }),
        EncodingMode::Alphanumeric => 11 * (count / 2) + 6 * (count % 2),
        EncodingMode::Byte => 8 * count,
    }
}

/// The data bits of a text are as many as its length and the mode say,
/// whatever the text holds.
pub proof fn lemma_data_bits_len(mode: EncodingMode, text: Seq<u8>)
    ensures
        data_bits(mode, text).len() == data_len(mode, text.len()),
    decreases text.len(),
{
    match mode {
        EncodingMode::Numeric => {
            if text.len() == 1 {
                lemma_field_bits_len(digit_value(text[0]), 4);
            } else if text.len() == 2 {
                lemma_field_bits_len(digit_value(text[0]) * 10 + digit_value(text[1]), 7);
            } else if text.len() >= 3 {
                lemma_field_bits_len(
                    digit_value(text[0]) * 100 + digit_value(text[1]) * 10 + digit_value(text[2]),
                    10,
                );
                lemma_data_bits_len(mode, text.skip(3));
            }
        },
        EncodingMode::Alphanumeric => {
            if text.len() == 1 {
                lemma_field_bits_len(alphanumeric_value(text[0]), 6);
            } else if text.len() >= 2 {
                lemma_field_bits_len(
                    alphanumeric_value(text[0]) * 45 + alphanumeric_value(text[1]),
                    11,
                );
                lemma_data_bits_len(mode, text.skip(2));
            }
        },
        EncodingMode::Byte => {},
    }
}

/// A segment is as long as its head and its data: four bits, the count
/// indicator, and what the mode needs for the text's length.
pub proof fn lemma_segment_len(version: QRCodeVersion, mode: EncodingMode, text: Seq<u8>)
    ensures
        segment_bits(version, mode, text).len() == 4 + count_width(version, mode) + data_len(
            mode,
            text.len(),
        ),
{
    lemma_field_bits_len(mode.spec_indicator() as nat, 4);
    lemma_field_bits_len(text.len(), count_width(version, mode));
    lemma_data_bits_len(mode, text);
}

/// `bits` take no more than `capacity` bytes.
pub open spec fn fits(bits: Seq<bool>, capacity: nat) -> bool {
    (bits.len() + 7) / 8 <= capacity
}

/// `n` pad bytes: `0xEC` and `0x11` in turn, `0xEC` first.
pub open spec fn pad_bytes(n: nat) -> Seq<u8> {
    Seq::new(
        n,
        |i: int|
            if i % 2 == 0 {
                0xECu8
            } else {
                0x11u8
            },
    )
}

/// A terminator byte is owed where the last byte has fewer than four unused
/// bits and the symbol still has room.
pub open spec fn needs_terminator(len: nat, shift: u32, required: nat) -> bool {
    (shift > 4 || shift == 0) && len < required
}

/// The codewords of a symbol with room for `required` of them, from the
/// bytes of a stream whose last byte has `shift` bits in use: the bytes, then
/// a zero byte where a terminator is owed, then pad bytes up to `required`.
pub open spec fn finished(content: Seq<u8>, shift: u32, required: nat) -> Seq<u8>
    recommends
        content.len() <= required,
{
    let ended = if needs_terminator(content.len(), shift, required) {
        content.push(0u8)
    } else {
        content
    };
    ended + pad_bytes((required - ended.len()) as nat)
}

/// Finished codewords fill the symbol exactly.
pub proof fn lemma_finished_len(content: Seq<u8>, shift: u32, required: nat)
    requires
        content.len() <= required,
    ensures
        finished(content, shift, required).len() == required,
{
}

/// The codewords of a symbol with room for `capacity` of them that holds
/// `bits`: the bits packed into bytes, the terminator where it is owed, and
/// the padding.
pub open spec fn codewords(bits: Seq<bool>, capacity: nat) -> Seq<u8>
    recommends
        fits(bits, capacity),
{
    finished(pack(bits), (bits.len() % 8) as u32, capacity)
}

/// The data codewords for `text` in a symbol of the given version and level,
/// or nothing where the text does not fit.
pub open spec fn encoded(text: Seq<u8>, version: QRCodeVersion, ec: ErrorCorrection) -> Option<
    Seq<u8>,
> {
    let bits = segment_bits(version, EncodingMode::of_bytes(text), text);
    if fits(bits, version.capacity(ec)) {
        Some(codewords(bits, version.capacity(ec)))
    } else {
        None
    }
}

/// Whatever fits comes out as exactly as many codewords as the symbol has
/// for data, neither more nor less.
pub proof fn lemma_encoded_fills_capacity(
    text: Seq<u8>,
    version: QRCodeVersion,
    ec: ErrorCorrection,
)
    ensures
        encoded(text, version, ec) matches Some(out) ==> out.len() == version.capacity(ec),
{
    let bits = segment_bits(version, EncodingMode::of_bytes(text), text);
    if fits(bits, version.capacity(ec)) {
        lemma_finished_len(pack(bits), (bits.len() % 8) as u32, version.capacity(ec));
    }
}

/// A text is refused exactly when its segment has more bits than the
/// symbol's data codewords: nothing is cut off to make it fit.
pub proof fn lemma_refused_iff_too_long(text: Seq<u8>, version: QRCodeVersion, ec: ErrorCorrection)
    ensures
        encoded(text, version, ec) is None <==> segment_bits(
            version,
            EncodingMode::of_bytes(text),
            text,
        ).len() > 8 * version.capacity(ec),
{
}

/// A text whose data bits alone leave fewer than four bits of the symbol
/// free is refused: there is no room left for the head of the segment.
pub proof fn lemma_overlong_is_refused(text: Seq<u8>, version: QRCodeVersion, ec: ErrorCorrection)
    requires
        data_bits(EncodingMode::of_bytes(text), text).len() > version.capacity(ec) * 8 - 4,
    ensures
        encoded(text, version, ec) is None,
{
    lemma_segment_len(version, EncodingMode::of_bytes(text), text);
    lemma_data_bits_len(EncodingMode::of_bytes(text), text);
}

/// In whatever fits, the count indicator holds the length of the text
/// itself: a text long enough to be cut at the indicator's width never
/// fits.
pub proof fn lemma_count_is_exact(text: Seq<u8>, version: QRCodeVersion, ec: ErrorCorrection)
    requires
        encoded(text, version, ec) is Some,
    ensures
        text.len() < pow2(count_width(version, EncodingMode::of_bytes(text))),
{
    let mode = EncodingMode::of_bytes(text);
    lemma2_to64();
    lemma_segment_len(version, mode, text);
    version.lemma_capacity_by_level();
    if version.number() <= 9 {
        if version.number() < 9 {
            version.lemma_capacity_grows(QRCodeVersion::V9, ErrorCorrection::L);
        }
    } else if version.number() <= 26 {
        if version.number() < 26 {
            version.lemma_capacity_grows(QRCodeVersion::V26, ErrorCorrection::L);
        }
    }
}

} // verus!
