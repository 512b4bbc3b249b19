//! The segment encoders and the terminator and padding policy.

use vstd::prelude::*;
use vstd::arithmetic::div_mod::lemma_mod_bound;
use vstd::arithmetic::power2::{lemma2_to64, pow2};
use vstd::bits::lemma_usize_shl_is_mul;
use vstd::string::StringSliceAdditionalSpecFns;
pub use crate::alphabet::byte_to_alphanumeric;
use crate::alphabet::{digit_value, is_digit};
use crate::bits::lemma_field_bits_truncates;
use crate::byte_stream::Bytes;
use crate::mode::EncodingMode;
use crate::segment::{
    all_digits, alphanumeric_bits, byte_bits, codewords, count_width, encoded, finished, fits,
    header_bits, lemma_byte_bits_push, numeric_bits, pad_bytes, segment_bits,
};
use crate::version::{ErrorCorrection, QRCodeVersion};

verus! {

/// Why a text could not be encoded.
#[derive(Debug, Clone, Copy, PartialEq, Eq, Structural)]
pub enum EncodeError {
    /// The encoded text takes more codewords than the symbol has for data.
    CapacityExceeded,
}

/// Returns the number of bits used to represent the character count.
#[inline]
#[must_use]
pub fn count_bits_count(version: QRCodeVersion, encoding: EncodingMode) -> (width: u16)
    ensures
        width == count_width(version, encoding),
        8 <= width <= 16,
{
    match version {
        QRCodeVersion::V1
        | QRCodeVersion::V2
        | QRCodeVersion::V3
        | QRCodeVersion::V4
        | QRCodeVersion::V5
        | QRCodeVersion::V6
        | QRCodeVersion::V7
        | QRCodeVersion::V8
        | QRCodeVersion::V9 => match encoding {
            EncodingMode::Numeric => 10,
            EncodingMode::Alphanumeric => 9,
            EncodingMode::Byte => 8,
        },
        QRCodeVersion::V10
        | QRCodeVersion::V11
        | QRCodeVersion::V12
        | QRCodeVersion::V13
        | QRCodeVersion::V14
        | QRCodeVersion::V15
        | QRCodeVersion::V16
        | QRCodeVersion::V17
        | QRCodeVersion::V18
        | QRCodeVersion::V19
        | QRCodeVersion::V20
        | QRCodeVersion::V21
        | QRCodeVersion::V22
        | QRCodeVersion::V23
        | QRCodeVersion::V24
        | QRCodeVersion::V25
        | QRCodeVersion::V26 => match encoding {
            EncodingMode::Numeric => 12,
            EncodingMode::Alphanumeric => 11,
            EncodingMode::Byte => 16,
        },
        QRCodeVersion::V27
        | QRCodeVersion::V28
        | QRCodeVersion::V29
        | QRCodeVersion::V30
        | QRCodeVersion::V31
        | QRCodeVersion::V32
        | QRCodeVersion::V33
        | QRCodeVersion::V34
        | QRCodeVersion::V35
        | QRCodeVersion::V36
        | QRCodeVersion::V37
        | QRCodeVersion::V38
        | QRCodeVersion::V39
        | QRCodeVersion::V40 => match encoding {
            EncodingMode::Numeric => 14,
            EncodingMode::Alphanumeric => 13,
            EncodingMode::Byte => 16,
        },
    }
}

/// Writes the head of a segment: mode indicator and character count.
#[inline]
pub fn encode_start(bytes: &mut Bytes, version: QRCodeVersion, mode: EncodingMode, count: usize)
    requires
        old(bytes).wf(),
    ensures
        final(bytes).wf(),
        final(bytes)@ == old(bytes)@ + header_bits(version, mode, count as nat),
{
    let count_bits = count_bits_count(version, mode);
    proof {
        lemma2_to64();
        lemma_usize_shl_is_mul(1, count_bits as usize);
        lemma_mod_bound(count as int, pow2(count_bits as nat) as int);
        lemma_field_bits_truncates(count as nat, count_bits as nat);
    }
    let cut = count % (1usize << count_bits);
    bytes.push(mode.indicator(), 4);
    bytes.push(cut as u16, count_bits);
}

/// Appends the bytes of `s` as they are.
#[inline]
pub fn encode_byte(s: &str, bytes: &mut Bytes)
    requires
        old(bytes).wf(),
    ensures
        final(bytes).wf(),
        final(bytes)@ == old(bytes)@ + byte_bits(s.spec_bytes()),
{
    let text = s.as_bytes();
    let mut i: usize = 0;
    proof {
        assert(byte_bits(text@.take(0)) =~= Seq::<bool>::empty());
    }
    while i < text.len()
        invariant
            i <= text.len(),
            text@ == s.spec_bytes(),
            bytes.wf(),
            bytes@ == old(bytes)@ + byte_bits(text@.take(i as int)),
        decreases text.len() - i,
    {
        proof {
            lemma2_to64();
            lemma_byte_bits_push(text@.take(i as int), text[i as int]);
            assert(text@.take(i + 1) =~= text@.take(i as int).push(text[i as int]));
        }
        bytes.push(text[i] as u16, 8);
        i += 1;
    }
    proof {
        assert(text@.take(i as int) =~= text@);
    }
}

/// Appends the text of `s` in the alphanumeric mode. A byte outside the
/// alphanumeric alphabet is taken as the symbol of value 0.
#[inline]
pub fn encode_alphanumeric(s: &str, bytes: &mut Bytes)
    requires
        old(bytes).wf(),
    ensures
        final(bytes).wf(),
        final(bytes)@ == old(bytes)@ + alphanumeric_bits(s.spec_bytes()),
{
    let text = s.as_bytes();
    let mut i: usize = 0;
    proof {
        assert(text@.skip(0) =~= text@);
    }
    while i < text.len()
        invariant
            i <= text.len(),
            text@ == s.spec_bytes(),
            bytes.wf(),
            bytes@ + alphanumeric_bits(text@.skip(i as int)) == old(bytes)@ + alphanumeric_bits(
                text@,
            ),
        decreases text.len() - i,
    {
        let ghost before = bytes@;
        let ghost rest = text@.skip(i as int);
        proof {
            lemma2_to64();
        }
        if text.len() - i >= 2 {
            let pair = byte_to_alphanumeric(text[i]) as u16 * 45 + byte_to_alphanumeric(
                text[i + 1],
            ) as u16;
            bytes.push(pair, 11);
            proof {
                assert(rest.skip(2) =~= text@.skip(i + 2));
                assert(bytes@ + alphanumeric_bits(text@.skip(i + 2)) =~= before
                    + alphanumeric_bits(rest));
            }
            i += 2;
        } else {
            bytes.push(byte_to_alphanumeric(text[i]) as u16, 6);
            proof {
                assert(alphanumeric_bits(text@.skip(i + 1)) =~= Seq::<bool>::empty());
                assert(bytes@ + alphanumeric_bits(text@.skip(i + 1)) =~= before
                    + alphanumeric_bits(rest));
            }
            i += 1;
        }
    }
    proof {
        assert(alphanumeric_bits(text@.skip(i as int)) =~= Seq::<bool>::empty());
        assert(bytes@ =~= bytes@ + Seq::<bool>::empty());
    }
}

/// The value of the digit `b`.
fn digit(b: u8) -> (value: u16)
    requires
        is_digit(b),
    ensures
        value == digit_value(b),
        value <= 9,
{
    (b - 0x30) as u16
}

/// Appends the digits of `s` in the numeric mode.
#[inline]
pub fn encode_numeric(s: &str, bytes: &mut Bytes)
    requires
        old(bytes).wf(),
        all_digits(s.spec_bytes()),
    ensures
        final(bytes).wf(),
        final(bytes)@ == old(bytes)@ + numeric_bits(s.spec_bytes()),
{
    let text = s.as_bytes();
    let mut i: usize = 0;
    proof {
        assert(text@.skip(0) =~= text@);
    }
    while i < text.len()
        invariant
            i <= text.len(),
            text@ == s.spec_bytes(),
            all_digits(text@),
            bytes.wf(),
            bytes@ + numeric_bits(text@.skip(i as int)) == old(bytes)@ + numeric_bits(text@),
        decreases text.len() - i,
    {
        let ghost before = bytes@;
        let ghost rest = text@.skip(i as int);
        proof {
            lemma2_to64();
        }
        if text.len() - i >= 3 {
            let triple = digit(text[i]) * 100 + digit(text[i + 1]) * 10 + digit(text[i + 2]);
            bytes.push(triple, 10);
            proof {
                assert(rest.skip(3) =~= text@.skip(i + 3));
                assert(bytes@ + numeric_bits(text@.skip(i + 3)) =~= before + numeric_bits(rest));
            }
            i += 3;
        } else if text.len() - i == 2 {
            bytes.push(digit(text[i]) * 10 + digit(text[i + 1]), 7);
            proof {
                assert(numeric_bits(text@.skip(i + 2)) =~= Seq::<bool>::empty());
                assert(bytes@ + numeric_bits(text@.skip(i + 2)) =~= before + numeric_bits(rest));
            }
            i += 2;
        } else {
            bytes.push(digit(text[i]), 4);
            proof {
                assert(numeric_bits(text@.skip(i + 1)) =~= Seq::<bool>::empty());
                assert(bytes@ + numeric_bits(text@.skip(i + 1)) =~= before + numeric_bits(rest));
            }
            i += 1;
        }
    }
    proof {
        assert(numeric_bits(text@.skip(i as int)) =~= Seq::<bool>::empty());
        assert(bytes@ =~= bytes@ + Seq::<bool>::empty());
    }
}

/// Ends the stream for a symbol with room for `required_code_words` data
/// codewords: adds the terminator where it is owed, then pad bytes until the
/// symbol is full. A stream that is already longer is left as it is and
/// reported.
#[inline]
pub fn encode_end(bytes: &mut Bytes, required_code_words: usize) -> (result: Result<
    (),
    EncodeError,
>)
    requires
        old(bytes).wf(),
    ensures
        final(bytes).wf(),
        fits(old(bytes)@, required_code_words as nat) ==> {
            &&& result == Ok::<(), EncodeError>(())
            &&& final(bytes).as_seq() == codewords(old(bytes)@, required_code_words as nat)
            &&& final(bytes).as_seq() == finished(
                old(bytes).as_seq(),
                old(bytes).spec_shift(),
                required_code_words as nat,
            )
            &&& final(bytes).as_seq().len() == required_code_words
            &&& final(bytes).spec_shift() == (if old(bytes).as_seq().len()
                == required_code_words {
                old(bytes).spec_shift()
            } else {
                0
            })
        },
        !fits(old(bytes)@, required_code_words as nat) ==> {
            &&& result == Err::<(), EncodeError>(EncodeError::CapacityExceeded)
            &&& final(bytes).as_seq() == old(bytes).as_seq()
            &&& final(bytes).spec_shift() == old(bytes).spec_shift()
            &&& final(bytes)@ == old(bytes)@
        },
{
    proof {
        bytes.lemma_shape();
    }
    if bytes.len() > required_code_words {
        return Err(EncodeError::CapacityExceeded);
    }
    if (bytes.shift() > 4 || bytes.shift() == 0) && bytes.len() < required_code_words {
        bytes.push_full_byte(0);
    }
    let ghost ended = bytes.as_seq();
    let mut i: usize = 0;
    while bytes.len() < required_code_words
        invariant
            bytes.wf(),
            bytes.as_seq().len() <= required_code_words,
            bytes.as_seq() == ended + pad_bytes(i as nat),
            i > 0 ==> bytes.spec_shift() == 0,
            i == 0 ==> bytes.spec_shift() == (if ended.len() == old(bytes).as_seq().len() {
                old(bytes).spec_shift()
            } else {
                0
            }),
        decreases required_code_words - bytes.as_seq().len(),
    {
        let pad: u8 = if i & 1 == 0 {
            0xEC
        } else {
            0x11
        };
        proof {
            assert(i & 1 == i % 2) by (bit_vector);
            assert(ended + pad_bytes((i + 1) as nat) =~= (ended + pad_bytes(i as nat)).push(pad));
        }
        bytes.push_full_byte(pad);
        i += 1;
    }
    proof {
        assert(ended + pad_bytes(0) =~= ended);
    }
    Ok(())
}

/// Encodes `s` for a symbol of the given version and error correction
/// level: picks the mode, writes the segment, terminates and pads it.
///
/// Returns the data codewords, as many as the symbol has for data, and the
/// mode that was picked; or `CapacityExceeded` where the segment is longer
/// than that.
pub fn encode(s: &str, version: QRCodeVersion, ec: ErrorCorrection) -> (result: Result<
    (Vec<u8>, EncodingMode),
    EncodeError,
>)
    ensures
        match result {
            Ok((out, mode)) => {
                &&& mode == EncodingMode::of_bytes(s.spec_bytes())
                &&& encoded(s.spec_bytes(), version, ec) == Some(out@)
                &&& out@.len() == version.capacity(ec)
            },
            Err(error) => {
                &&& error == EncodeError::CapacityExceeded
                &&& encoded(s.spec_bytes(), version, ec) is None
            },
        },
{
    let mode = EncodingMode::analyze_string(s);
    let required_code_words = version.data_size(ec);
    let mut bytes = Bytes::with_capacity(required_code_words);
    encode_start(&mut bytes, version, mode, s.as_bytes().len());
    let ghost head = bytes@;
    match mode {
        EncodingMode::Numeric => encode_numeric(s, &mut bytes),
        EncodingMode::Alphanumeric => encode_alphanumeric(s, &mut bytes),
        EncodingMode::Byte => encode_byte(s, &mut bytes),
    }
    proof {
        assert(head =~= header_bits(version, mode, s.spec_bytes().len()));
        assert(bytes@ =~= segment_bits(version, mode, s.spec_bytes()));
        bytes.lemma_shape();
    }
    match encode_end(&mut bytes, required_code_words) {
        Ok(()) => Ok((bytes.into_parts().0, mode)),
        Err(error) => Err(error),
    }
}

/// What can be turned into the data codewords of a symbol.
pub trait Encodable {
    /// The bytes that are encoded.
    spec fn payload(&self) -> Seq<u8>;

    /// Creates the data codewords of a symbol of the given version and error
    /// correction level.
    ///
    /// Returns the codewords and the mode that was picked, or nothing where
    /// the text does not fit the symbol.
    fn create_bits(&self, version: QRCodeVersion, ec: ErrorCorrection) -> (result: Option<
        (Vec<u8>, EncodingMode),
    >)
        ensures
            match result {
                Some((out, mode)) => {
                    &&& mode == EncodingMode::of_bytes(self.payload())
                    &&& encoded(self.payload(), version, ec) == Some(out@)
                    &&& out@.len() == version.capacity(ec)
                },
                None => encoded(self.payload(), version, ec) is None,
            },
    ;
}

impl Encodable for str {
    open spec fn payload(&self) -> Seq<u8> {
        self.spec_bytes()
    }

    fn create_bits(&self, version: QRCodeVersion, ec: ErrorCorrection) -> (result: Option<
        (Vec<u8>, EncodingMode),
    >) {
        match encode(self, version, ec) {
            Ok(found) => Some(found),
            Err(_) => None,
        }
    }
}

} // verus!
