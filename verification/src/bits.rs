//! Bit strings, most significant bit first, and how they pack into bytes.

use vstd::prelude::*;
use vstd::arithmetic::div_mod::lemma_mod_breakdown;
use vstd::arithmetic::power2::{lemma_pow2_pos, lemma_pow2_unfold, pow2};

verus! {

/// The low `width` bits of `value`, most significant first.
pub open spec fn field_bits(value: nat, width: nat) -> Seq<bool>
    decreases width,
{
    if width == 0 {
        Seq::empty()
    } else {
        field_bits(value / 2, (width - 1) as nat).push(value % 2 == 1)
    }
}

/// A field of `width` bits holds exactly `width` bits.
pub proof fn lemma_field_bits_len(value: nat, width: nat)
    ensures
        field_bits(value, width).len() == width,
    decreases width,
{
    if width > 0 {
        lemma_field_bits_len(value / 2, (width - 1) as nat);
    }
}

/// A field holds its value modulo two to the power of its width: what lies
/// above is cut off.
pub proof fn lemma_field_bits_truncates(value: nat, width: nat)
    ensures
        field_bits(value, width) == field_bits(value % pow2(width), width),
    decreases width,
{
    lemma_pow2_pos(width);
    if width > 0 {
        let half = pow2((width - 1) as nat);
        let cut = value % pow2(width);
        lemma_pow2_unfold(width);
        lemma_pow2_pos((width - 1) as nat);
        lemma_mod_breakdown(value as int, 2, half as int);
        lemma_field_bits_truncates(value / 2, (width - 1) as nat);
        assert(cut / 2 == (value / 2) % half);
        assert(cut % 2 == value % 2);
    }
}

/// Bit `k` of a machine word, counted from the least significant bit.
pub open spec fn word_bit(value: u16, k: int) -> bool {
    (value >> (k as u16)) & 1 == 1
}

/// Position `i` of a field is bit `width - 1 - i` of the word it was cut from.
pub proof fn lemma_field_bit(value: u16, width: nat, i: int)
    requires
        0 <= i < width <= 16,
    ensures
        field_bits(value as nat, width)[i] == word_bit(value, width - 1 - i),
    decreases width,
{
    lemma_field_bits_len((value / 2) as nat, (width - 1) as nat);
    if i == width - 1 {
        assert((value % 2 == 1) == ((value >> 0u16) & 1 == 1)) by (bit_vector);
    } else {
        let k = (width - 2 - i) as u16;
        lemma_field_bit(value / 2, (width - 1) as nat, i);
        assert(((value / 2) >> k) & 1 == (value >> ((k + 1) as u16)) & 1) by (bit_vector)
            requires
                k < 15,
        ;
    }
}

/// `n` zero bits.
pub open spec fn zero_bits(n: nat) -> Seq<bool> {
    Seq::new(n, |i: int| false)
}

/// `bits`, filled up with zero bits to the next multiple of eight.
pub open spec fn aligned(bits: Seq<bool>) -> Seq<bool> {
    bits + zero_bits(((8 - bits.len() % 8) % 8) as nat)
}

/// The bits of a byte string: eight per byte, most significant first.
pub open spec fn bits_of_bytes(bytes: Seq<u8>) -> Seq<bool> {
    Seq::new(8 * bytes.len(), |i: int| field_bits(bytes[i / 8] as nat, 8)[i % 8])
}

/// `weight` if position `i` of `bits` exists and is set, else nothing.
pub open spec fn bit_weight(bits: Seq<bool>, i: int, weight: nat) -> nat {
    if 0 <= i < bits.len() && bits[i] {
        weight
    } else {
        0
    }
}

/// The byte made of positions `8 * k` to `8 * k + 7` of `bits`; positions
/// past the end count as zero.
pub open spec fn packed_byte(bits: Seq<bool>, k: int) -> u8 {
    (bit_weight(bits, 8 * k, 128) + bit_weight(bits, 8 * k + 1, 64) + bit_weight(
        bits,
        8 * k + 2,
        32,
    ) + bit_weight(bits, 8 * k + 3, 16) + bit_weight(bits, 8 * k + 4, 8) + bit_weight(
        bits,
        8 * k + 5,
        4,
    ) + bit_weight(bits, 8 * k + 6, 2) + bit_weight(bits, 8 * k + 7, 1)) as u8
}

/// A bit string as bytes: `ceil(len / 8)` of them, the last one filled up
/// with zero bits.
pub open spec fn pack(bits: Seq<bool>) -> Seq<u8> {
    Seq::new(((bits.len() + 7) / 8) as nat, |k: int| packed_byte(bits, k))
}

/// A byte is the weighted sum of its eight bits.
pub proof fn lemma_byte_is_sum_of_bits(b: u8)
    ensures
        field_bits(b as nat, 8).len() == 8,
        packed_byte(field_bits(b as nat, 8), 0) == b,
{
    reveal_with_fuel(field_bits, 9);
}

} // verus!
