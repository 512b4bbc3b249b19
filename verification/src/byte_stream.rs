//! The bit accumulator: a growing byte buffer with a cursor inside its last
//! byte.

use vstd::prelude::*;
use vstd::arithmetic::div_mod::lemma_basic_div;
use vstd::arithmetic::power2::pow2;
use vstd::bits::lemma_u32_shr_is_div;
use crate::bits::{aligned, field_bits, lemma_field_bits_len, pack};
use crate::stream::{
    lemma_append_byte, lemma_append_field, lemma_fresh_one, lemma_fresh_two, lemma_merge_one,
    lemma_merge_three, lemma_merge_two, lemma_stream_bits_len, lemma_stream_is_packed,
    stream_bits, stream_wf,
};

verus! {

/// A growing sequence of bytes and the number of bits in use in the last of
/// them. Its view is the string of bits pushed so far.
#[derive(Debug)]
pub struct Bytes {
    bytes: Vec<u8>,
    shift: u32,
}

impl View for Bytes {
    type V = Seq<bool>;

    open spec fn view(&self) -> Seq<bool> {
        stream_bits(self.as_seq(), self.spec_shift())
    }
}

impl Bytes {
    /// The bytes held so far.
    pub closed spec fn as_seq(&self) -> Seq<u8> {
        self.bytes@
    }

    /// How many bits of the last byte are in use; zero when it is full or
    /// when there is none.
    pub closed spec fn spec_shift(&self) -> u32 {
        self.shift
    }

    /// The cursor lies inside a byte, and behind it that byte holds only zeros.
    pub open spec fn wf(&self) -> bool {
        stream_wf(self.as_seq(), self.spec_shift())
    }

    /// An empty stream, with room for `capacity` bytes set aside.
    #[must_use]
    pub fn with_capacity(capacity: usize) -> (stream: Self)
        ensures
            stream.wf(),
            stream@ == Seq::<bool>::empty(),
            stream.as_seq() == Seq::<u8>::empty(),
            stream.spec_shift() == 0,
    {
        let stream = Self { bytes: Vec::with_capacity(capacity), shift: 0 };
        proof {
            lemma_stream_bits_len(stream.bytes@, 0);
        }
        stream
    }

    /// Appends the `width` low bits of `data`, most significant first, right
    /// behind the bits already there.
    pub fn push(&mut self, data: u16, width: u16)
        requires
            old(self).wf(),
            1 <= width <= 16,
            data < pow2(width as nat),
        ensures
            final(self).wf(),
            final(self)@ == old(self)@ + field_bits(data as nat, width as nat),
    {
        let sum: u32 = width as u32 + self.shift;
        let ghost old_bytes = self.bytes@;
        let ghost s = self.shift;
        let ghost w = width as u32;
        let ghost base = if s == 0 { old_bytes.len() as int } else { old_bytes.len() - 1 };
        let ghost last = if s == 0 { 0u8 } else { old_bytes.last() };
        proof {
            lemma_u32_shr_is_div(data as u32, w);
            lemma_basic_div(data as int, pow2(w as nat) as int);
        }
        match (self.shift, sum) {
            (0, 0..=8) => {
                let head = #[verifier::truncate] ((data << (8 - sum)) as u8);
                self.bytes.push(head);
                proof {
                    lemma_fresh_one(data, w, head);
                }
            },
            (0, _) => {
                let head = #[verifier::truncate] ((data >> (sum - 8)) as u8);
                let tail = #[verifier::truncate] ((data << (16 - sum)) as u8);
                self.bytes.push(head);
                self.bytes.push(tail);
                proof {
                    lemma_fresh_two(data, w, head, tail);
                }
            },
            (_, 0..=8) => {
                let at = self.bytes.len() - 1;
                let head = self.bytes[at] | #[verifier::truncate] ((data << (8 - sum)) as u8);
                self.bytes[at] = head;
                proof {
                    lemma_merge_one(last, data, s, w, head);
                }
            },
            (_, 9..=16) => {
                let at = self.bytes.len() - 1;
                let head = self.bytes[at] | #[verifier::truncate] ((data >> (sum - 8)) as u8);
                let tail = #[verifier::truncate] ((data << (16 - sum)) as u8);
                self.bytes[at] = head;
                self.bytes.push(tail);
                proof {
                    lemma_merge_two(last, data, s, w, head, tail);
                }
            },
            _ => {
                let at = self.bytes.len() - 1;
                let head = self.bytes[at] | #[verifier::truncate] ((data >> (sum - 8)) as u8);
                let middle = #[verifier::truncate] ((data >> (sum - 16)) as u8);
                let tail = #[verifier::truncate] ((data << (24 - sum)) as u8);
                self.bytes[at] = head;
                self.bytes.push(middle);
                self.bytes.push(tail);
                proof {
                    lemma_merge_three(last, data, s, w, head, middle, tail);
                }
            },
        }
        self.shift = sum & 0b111;
        proof {
            assert(sum & 0b111 == sum % 8) by (bit_vector);
            lemma_append_field(old_bytes, s, data, w, self.bytes@, base, last);
        }
    }

    /// Appends `data` as a whole byte behind the last byte, whatever part of
    /// that one is in use: its unused bits stay zero, and the cursor returns
    /// to a byte boundary.
    pub fn push_full_byte(&mut self, data: u8)
        requires
            old(self).wf(),
        ensures
            final(self).wf(),
            final(self)@ == aligned(old(self)@) + field_bits(data as nat, 8),
            final(self).as_seq() == old(self).as_seq().push(data),
            final(self).spec_shift() == 0,
    {
        proof {
            lemma_append_byte(self.bytes@, self.shift, data);
        }
        self.shift = 0;
        self.bytes.push(data);
    }

    /// Takes the stream apart: its bytes, and the number of bits in use in
    /// the last of them.
    #[must_use]
    pub fn into_parts(self) -> (parts: (Vec<u8>, u32))
        ensures
            parts.0@ == self.as_seq(),
            parts.1 == self.spec_shift(),
            self.wf() ==> parts.0@ == pack(self@) && parts.1 == self@.len() % 8,
    {
        proof {
            if self.wf() {
                self.lemma_shape();
            }
        }
        let Self { bytes, shift } = self;
        (bytes, shift)
    }

    /// The number of bits in use in the last byte.
    #[must_use]
    #[verifier::when_used_as_spec(spec_shift)]
    pub fn shift(&self) -> (shift: u32)
        ensures
            shift == self.spec_shift(),
            self.wf() ==> shift < 8 && shift == self@.len() % 8,
    {
        proof {
            if self.wf() {
                self.lemma_shape();
            }
        }
        self.shift
    }

    /// The shape of a well-formed stream follows from its bits alone: the
    /// bytes are the bits packed, there are `ceil(bits / 8)` of them, and the
    /// cursor is the number of bits modulo eight.
    pub proof fn lemma_shape(self)
        requires
            self.wf(),
        ensures
            self.as_seq() == pack(self@),
            self.as_seq().len() == (self@.len() + 7) / 8,
            self.spec_shift() == self@.len() % 8,
            self.spec_shift() < 8,
    {
        lemma_stream_is_packed(self.as_seq(), self.spec_shift());
    }

    /// After any run of pushes onto an empty stream the cursor is below
    /// eight and equal to the number of bits pushed modulo eight, and the
    /// stream holds `ceil(bits pushed / 8)` bytes.
    pub proof fn lemma_shift_after_pushes(self, fields: Seq<(u16, u16)>)
        requires
            self.wf(),
            self@ == pushed_bits(fields),
        ensures
            self.spec_shift() < 8,
            self.spec_shift() == pushed_width(fields) % 8,
            self.as_seq().len() == (pushed_width(fields) + 7) / 8,
    {
        self.lemma_shape();
        lemma_pushed_bits_len(fields);
    }
}

impl Default for Bytes {
    /// An empty stream.
    fn default() -> (stream: Self)
        ensures
            stream.wf(),
            stream@ == Seq::<bool>::empty(),
            stream.as_seq() == Seq::<u8>::empty(),
            stream.spec_shift() == 0,
    {
        let stream = Self { bytes: Vec::new(), shift: 0 };
        proof {
            lemma_stream_bits_len(stream.bytes@, 0);
        }
        stream
    }
}

impl core::ops::Deref for Bytes {
    type Target = Vec<u8>;

    /// The bytes held so far, to be read in place.
    fn deref(&self) -> (bytes: &Vec<u8>)
        ensures
            bytes@ == self.as_seq(),
            self.wf() ==> bytes@ == pack(self@),
    {
        proof {
            if self.wf() {
                self.lemma_shape();
            }
        }
        &self.bytes
    }
}

/// The bits of a run of fields, each a value and a width, pushed in order
/// onto an empty stream.
pub open spec fn pushed_bits(fields: Seq<(u16, u16)>) -> Seq<bool>
    decreases fields.len(),
{
    if fields.len() == 0 {
        Seq::empty()
    } else {
        pushed_bits(fields.drop_last()) + field_bits(
            fields.last().0 as nat,
            fields.last().1 as nat,
        )
    }
}

/// The widths of a run of fields, added up.
pub open spec fn pushed_width(fields: Seq<(u16, u16)>) -> nat
    decreases fields.len(),
{
    if fields.len() == 0 {
        0
    } else {
        pushed_width(fields.drop_last()) + fields.last().1 as nat
    }
}

/// A run of fields takes as many bits as its widths add up to.
pub proof fn lemma_pushed_bits_len(fields: Seq<(u16, u16)>)
    ensures
        pushed_bits(fields).len() == pushed_width(fields),
    decreases fields.len(),
{
    if fields.len() > 0 {
        lemma_pushed_bits_len(fields.drop_last());
        lemma_field_bits_len(fields.last().0 as nat, fields.last().1 as nat);
    }
}

} // verus!
