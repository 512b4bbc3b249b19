//! The encoding modes and the choice among them.

use vstd::prelude::*;
use vstd::string::StringSliceAdditionalSpecFns;
use crate::alphabet::{is_alphanumeric, is_digit};

verus! {

/// The alphabet in which a text is encoded. Kanji is not among them.
#[derive(Debug, Clone, Copy, PartialEq, Eq, Structural)]
pub enum EncodingMode {
    Numeric,
    Alphanumeric,
    Byte,
}

impl EncodingMode {
    /// The four-bit mode indicator that opens a segment.
    pub open spec fn spec_indicator(self) -> u16 {
        match self {
            EncodingMode::Numeric => 0b0001,
            EncodingMode::Alphanumeric => 0b0010,
            EncodingMode::Byte => 0b0100,
        }
    }

    /// The four-bit mode indicator that opens a segment.
    #[inline]
    #[must_use]
    #[verifier::when_used_as_spec(spec_indicator)]
    pub fn indicator(self) -> (bits: u16)
        ensures
            bits == self.spec_indicator(),
    {
        match self {
            EncodingMode::Numeric => 0b0001,
            EncodingMode::Alphanumeric => 0b0010,
            EncodingMode::Byte => 0b0100,
        }
    }

    /// The most compact mode that can hold `text`: numeric for digits only
    /// (and for the empty text), alphanumeric when every byte is in the
    /// alphanumeric alphabet, else byte.
    pub open spec fn of_bytes(text: Seq<u8>) -> EncodingMode {
        if forall|i: int| 0 <= i < text.len() ==> is_digit(#[trigger] text[i]) {
            EncodingMode::Numeric
        } else if forall|i: int| 0 <= i < text.len() ==> is_alphanumeric(#[trigger] text[i]) {
            EncodingMode::Alphanumeric
        } else {
            EncodingMode::Byte
        }
    }

    /// Picks the mode for `s` in one pass over its bytes.
    #[inline]
    #[must_use]
    pub fn analyze_string(s: &str) -> (mode: Self)
        ensures
            mode == Self::of_bytes(s.spec_bytes()),
    {
        let bytes = s.as_bytes();
        let mut mode = EncodingMode::Numeric;
        let mut i: usize = 0;
        while i < bytes.len()
            invariant
                i <= bytes.len(),
                bytes@ == s.spec_bytes(),
                forall|j: int| 0 <= j < i ==> is_alphanumeric(#[trigger] bytes@[j]),
                mode == EncodingMode::Numeric <==> forall|j: int|
                    0 <= j < i ==> is_digit(#[trigger] bytes@[j]),
                mode == EncodingMode::Numeric || mode == EncodingMode::Alphanumeric,
            decreases bytes.len() - i,
        {
            match bytes[i] {
                // '0' to '9'
                0x30..=0x39 => (),
                // 'A' to 'Z', ' ', '$', '%', '*', '+', '-', '.', '/', ':'
                0x41..=0x5a | 0x20 | 0x24 | 0x25 | 0x2a | 0x2b | 0x2d | 0x2e | 0x2f | 0x3a => {
                    mode = EncodingMode::Alphanumeric;
                },
                _ => {
                    assert(!is_alphanumeric(bytes@[i as int]));
                    return EncodingMode::Byte;
                },
            }
            i += 1;
        }
        mode
    }
}

} // verus!
