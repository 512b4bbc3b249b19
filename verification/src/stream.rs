//! The model behind the bit accumulator: a byte string with a cursor inside
//! its last byte, read as the string of bits before the cursor.
//!
//! The proofs here connect the shifts and masks that place a field in the
//! buffer with the bit string that the buffer stands for.

use vstd::prelude::*;
use crate::bits::{
    aligned, bit_weight, bits_of_bytes, field_bits, lemma_byte_is_sum_of_bits, lemma_field_bit,
    lemma_field_bits_len, pack, packed_byte,
};

verus! {

/// Number of bits in a stream of `bytes` whose last byte has `shift` bits in
/// use; a `shift` of zero says that the last byte is full.
pub open spec fn stream_len(bytes: Seq<u8>, shift: u32) -> nat {
    if shift == 0 {
        8 * bytes.len()
    } else {
        (8 * bytes.len() - 8 + shift) as nat
    }
}

/// The cursor lies inside a byte, and behind it that byte holds only zeros.
pub open spec fn stream_wf(bytes: Seq<u8>, shift: u32) -> bool {
    &&& shift < 8
    &&& shift > 0 ==> bytes.len() > 0 && bytes.last() & (0xffu8 >> shift) == 0
}

/// The bits written so far: those of `bytes` up to the cursor.
///
/// Opaque, because a well-formed stream's bytes are in turn its bits packed:
/// unfolded together, the two definitions feed each other without end.
#[verifier::opaque]
pub open spec fn stream_bits(bytes: Seq<u8>, shift: u32) -> Seq<bool> {
    bits_of_bytes(bytes).take(stream_len(bytes, shift) as int)
}

/// The stream has as many bits as the cursor says.
pub proof fn lemma_stream_bits_len(bytes: Seq<u8>, shift: u32)
    requires
        stream_wf(bytes, shift),
    ensures
        stream_bits(bytes, shift).len() == stream_len(bytes, shift),
{
    reveal(stream_bits);
}

/// The bytes of a well-formed stream are its bits, packed; the cursor is
/// where the bits end.
pub proof fn lemma_stream_is_packed(bytes: Seq<u8>, shift: u32)
    requires
        stream_wf(bytes, shift),
    ensures
        bytes == pack(stream_bits(bytes, shift)),
        bytes.len() == (stream_bits(bytes, shift).len() + 7) / 8,
        shift == stream_bits(bytes, shift).len() % 8,
{
    let bits = stream_bits(bytes, shift);
    lemma_stream_bits_len(bytes, shift);
    assert forall|k: int| 0 <= k < bytes.len() implies bytes[k] == #[trigger] pack(bits)[k] by {
        lemma_stream_byte(bytes, shift, k);
    }
    lemma_equals_packed(bytes, bits);
}

/// A whole byte pushed behind the last byte stands behind the old bits
/// filled up with zeros to the byte boundary.
pub(crate) proof fn lemma_append_byte(bytes: Seq<u8>, shift: u32, data: u8)
    requires
        stream_wf(bytes, shift),
    ensures
        stream_wf(bytes.push(data), 0),
        stream_bits(bytes.push(data), 0) == aligned(stream_bits(bytes, shift)) + field_bits(
            data as nat,
            8,
        ),
{
    reveal(stream_bits);
    let old_bits = stream_bits(bytes, shift);
    let new_bits = stream_bits(bytes.push(data), 0);
    let expected = aligned(old_bits) + field_bits(data as nat, 8);
    lemma_field_bits_len(data as nat, 8);
    assert(aligned(old_bits).len() == 8 * bytes.len());
    assert forall|i: int| 0 <= i < new_bits.len() implies new_bits[i] == expected[i] by {
        let k = i / 8;
        let j = i % 8;
        if old_bits.len() <= i < 8 * bytes.len() {
            lemma_clear_tail_bit(bytes[k], shift, j as u32);
            lemma_field_bit(bytes[k] as u16, 8, j);
        }
    }
    assert(new_bits =~= expected);
}

/// The byte under the cursor and the two that may follow it, as one 24-bit
/// number, once the `w` bits of `d` stand behind the first `s` bits of
/// `last`. On a byte boundary `last` is a fresh byte, zero.
pub(crate) closed spec fn window(last: u8, d: u16, s: u32, w: u32) -> u32 {
    ((last as u32) << 16) | ((d as u32) << ((24 - s - w) as u32))
}

/// Byte `t` of a 24-bit window, counted from its most significant byte.
pub(crate) closed spec fn window_byte(win: u32, t: int) -> u8 {
    (win >> ((16 - 8 * t) as u32)) as u8
}

/// A field that fits a fresh byte makes up that byte's leading bits.
pub(crate) proof fn lemma_fresh_one(d: u16, w: u32, b0: u8)
    requires
        1 <= w <= 8,
        (d as u32) >> w == 0,
        b0 == (d << ((8 - w) as u32)) as u8,
    ensures
        b0 == window_byte(window(0, d, 0, w), 0),
{
    let win = ((0u8 as u32) << 16) | ((d as u32) << ((24 - 0u32 - w) as u32));
    assert(b0 == (win >> 16u32) as u8) by (bit_vector)
        requires
            1 <= w <= 8,
            (d as u32) >> w == 0,
            win == ((0u8 as u32) << 16) | ((d as u32) << ((24 - 0u32 - w) as u32)),
            b0 == (d << ((8 - w) as u32)) as u8,
    ;
}

/// A longer field on a byte boundary fills one byte and starts the next.
pub(crate) proof fn lemma_fresh_two(d: u16, w: u32, b0: u8, b1: u8)
    requires
        9 <= w <= 16,
        (d as u32) >> w == 0,
        b0 == (d >> ((w - 8) as u32)) as u8,
        b1 == (d << ((16 - w) as u32)) as u8,
    ensures
        b0 == window_byte(window(0, d, 0, w), 0),
        b1 == window_byte(window(0, d, 0, w), 1),
{
    let win = ((0u8 as u32) << 16) | ((d as u32) << ((24 - 0u32 - w) as u32));
    assert(b0 == (win >> 16u32) as u8 && b1 == (win >> 8u32) as u8) by (bit_vector)
        requires
            9 <= w <= 16,
            (d as u32) >> w == 0,
            win == ((0u8 as u32) << 16) | ((d as u32) << ((24 - 0u32 - w) as u32)),
            b0 == (d >> ((w - 8) as u32)) as u8,
            b1 == (d << ((16 - w) as u32)) as u8,
    ;
}

/// A field that fits the free bits of the last byte is merged into it.
pub(crate) proof fn lemma_merge_one(last: u8, d: u16, s: u32, w: u32, b0: u8)
    requires
        1 <= s < 8,
        1 <= w,
        s + w <= 8,
        (d as u32) >> w == 0,
        b0 == last | (d << ((8 - (s + w)) as u32)) as u8,
    ensures
        b0 == window_byte(window(last, d, s, w), 0),
{
    let win = ((last as u32) << 16) | ((d as u32) << ((24 - s - w) as u32));
    assert(b0 == (win >> 16u32) as u8) by (bit_vector)
        requires
            1 <= s < 8,
            1 <= w,
            s + w <= 8,
            (d as u32) >> w == 0,
            win == ((last as u32) << 16) | ((d as u32) << ((24 - s - w) as u32)),
            b0 == last | (d << ((8 - (s + w)) as u32)) as u8,
    ;
}

/// A field that crosses one byte boundary: its head is merged into the last
/// byte, its tail starts a new one.
pub(crate) proof fn lemma_merge_two(last: u8, d: u16, s: u32, w: u32, b0: u8, b1: u8)
    requires
        1 <= s < 8,
        w <= 16,
        9 <= s + w <= 16,
        (d as u32) >> w == 0,
        b0 == last | (d >> ((s + w - 8) as u32)) as u8,
        b1 == (d << ((16 - (s + w)) as u32)) as u8,
    ensures
        b0 == window_byte(window(last, d, s, w), 0),
        b1 == window_byte(window(last, d, s, w), 1),
{
    let win = ((last as u32) << 16) | ((d as u32) << ((24 - s - w) as u32));
    assert(b0 == (win >> 16u32) as u8 && b1 == (win >> 8u32) as u8) by (bit_vector)
        requires
            1 <= s < 8,
            w <= 16,
            9 <= s + w <= 16,
            (d as u32) >> w == 0,
            win == ((last as u32) << 16) | ((d as u32) << ((24 - s - w) as u32)),
            b0 == last | (d >> ((s + w - 8) as u32)) as u8,
            b1 == (d << ((16 - (s + w)) as u32)) as u8,
    ;
}

/// A field that crosses two byte boundaries: its head is merged into the
/// last byte, its middle is a byte of its own, its tail starts a third.
pub(crate) proof fn lemma_merge_three(last: u8, d: u16, s: u32, w: u32, b0: u8, b1: u8, b2: u8)
    requires
        1 <= s < 8,
        w <= 16,
        17 <= s + w,
        (d as u32) >> w == 0,
        b0 == last | (d >> ((s + w - 8) as u32)) as u8,
        b1 == (d >> ((s + w - 16) as u32)) as u8,
        b2 == (d << ((24 - (s + w)) as u32)) as u8,
    ensures
        b0 == window_byte(window(last, d, s, w), 0),
        b1 == window_byte(window(last, d, s, w), 1),
        b2 == window_byte(window(last, d, s, w), 2),
{
    let win = ((last as u32) << 16) | ((d as u32) << ((24 - s - w) as u32));
    assert(b0 == (win >> 16u32) as u8 && b1 == (win >> 8u32) as u8 && b2 == (win >> 0u32) as u8)
        by (bit_vector)
        requires
            1 <= s < 8,
            w <= 16,
            17 <= s + w,
            (d as u32) >> w == 0,
            win == ((last as u32) << 16) | ((d as u32) << ((24 - s - w) as u32)),
            b0 == last | (d >> ((s + w - 8) as u32)) as u8,
            b1 == (d >> ((s + w - 16) as u32)) as u8,
            b2 == (d << ((24 - (s + w)) as u32)) as u8,
    ;
}

/// What `push` rests on. Where the bytes before the cursor's byte are kept
/// and the bytes from there on are those of the window, the stream is well
/// formed again and its bits are the old ones followed by the field.
pub(crate) proof fn lemma_append_field(
    old_bytes: Seq<u8>,
    s: u32,
    d: u16,
    w: u32,
    new_bytes: Seq<u8>,
    base: int,
    last: u8,
)
    requires
        stream_wf(old_bytes, s),
        1 <= w <= 16,
        (d as u32) >> w == 0,
        base == (if s == 0 { old_bytes.len() as int } else { old_bytes.len() - 1 }),
        last == (if s == 0 { 0u8 } else { old_bytes.last() }),
        new_bytes.len() == base + (s + w + 7) / 8,
        forall|m: int| 0 <= m < base ==> new_bytes[m] == old_bytes[m],
        new_bytes[base] == window_byte(window(last, d, s, w), 0),
        s + w > 8 ==> new_bytes[base + 1] == window_byte(window(last, d, s, w), 1),
        s + w > 16 ==> new_bytes[base + 2] == window_byte(window(last, d, s, w), 2),
    ensures
        stream_wf(new_bytes, ((s + w) % 8) as u32),
        stream_bits(new_bytes, ((s + w) % 8) as u32) == stream_bits(old_bytes, s) + field_bits(
            d as nat,
            w as nat,
        ),
{
    reveal(stream_bits);
    let win = window(last, d, s, w);
    let k = (s + w + 7) / 8;
    let r = ((s + w) % 8) as u32;
    let field = field_bits(d as nat, w as nat);
    let old_bits = stream_bits(old_bytes, s);
    let new_bits = stream_bits(new_bytes, r);
    assert forall|t: int| 0 <= t < k implies new_bytes[base + t] == #[trigger] window_byte(
        win,
        t,
    ) by {
        assert(t == 0 || t == 1 || t == 2);
    }
    assert(grown(old_bytes, s, d, w, new_bytes, base, last, win));
    lemma_field_bits_len(d as nat, w as nat);
    assert(old_bits.len() == 8 * base + s);
    assert(new_bits.len() == 8 * base + s + w);
    if r != 0 {
        let sh = (16 - 8 * (k - 1)) as u32;
        assert(new_bytes[base + (k - 1)] == window_byte(win, k - 1));
        assert(0u8 & (0xffu8 >> s) == 0) by (bit_vector);
        lemma_window_tail(last, d, s, w, win, sh, r, new_bytes.last());
    }
    assert forall|i: int| 0 <= i < new_bits.len() implies new_bits[i] == (old_bits + field)[i] by {
        lemma_grown_bit(old_bytes, s, d, w, new_bytes, base, last, win, i);
    }
    assert(new_bits =~= old_bits + field);
}

/// The bytes of a stream in which the field `d` of `w` bits has been put
/// behind a cursor at `s`: up to `base` they are the old ones, from there on
/// those of the window `win`.
spec fn grown(
    old_bytes: Seq<u8>,
    s: u32,
    d: u16,
    w: u32,
    new_bytes: Seq<u8>,
    base: int,
    last: u8,
    win: u32,
) -> bool {
    &&& stream_wf(old_bytes, s)
    &&& 1 <= w <= 16
    &&& (d as u32) >> w == 0
    &&& base == (if s == 0 { old_bytes.len() as int } else { old_bytes.len() - 1 })
    &&& last == (if s == 0 { 0u8 } else { old_bytes.last() })
    &&& win == window(last, d, s, w)
    &&& new_bytes.len() == base + (s + w + 7) / 8
    &&& forall|m: int| 0 <= m < base ==> new_bytes[m] == old_bytes[m]
    &&& forall|t: int|
        0 <= t < (s + w + 7) / 8 ==> new_bytes[base + t] == #[trigger] window_byte(win, t)
}

/// One bit of a grown stream: an old bit before the old cursor, a bit of the
/// field behind it.
proof fn lemma_grown_bit(
    old_bytes: Seq<u8>,
    s: u32,
    d: u16,
    w: u32,
    new_bytes: Seq<u8>,
    base: int,
    last: u8,
    win: u32,
    i: int,
)
    requires
        grown(old_bytes, s, d, w, new_bytes, base, last, win),
        0 <= i < 8 * base + s + w,
    ensures
        i < 8 * new_bytes.len(),
        i < 8 * base + s ==> i < 8 * old_bytes.len(),
        bits_of_bytes(new_bytes)[i] == (if i < 8 * base + s {
            bits_of_bytes(old_bytes)[i]
        } else {
            field_bits(d as nat, w as nat)[i - 8 * base - s]
        }),
{
    let m = i / 8;
    let j = i % 8;
    assert(0u8 & (0xffu8 >> s) == 0) by (bit_vector);
    lemma_field_bit(new_bytes[m] as u16, 8, j);
    if m < base {
        assert(new_bytes[m] == old_bytes[m]);
    } else {
        let t = m - base;
        let q = (8 * t + j) as u32;
        let sh = (16 - 8 * t) as u32;
        assert(0 <= t < 3);
        assert(new_bytes[base + t] == window_byte(win, t));
        lemma_window_byte_bit(win, sh, j as u32, new_bytes[m]);
        lemma_window_bits(last, d, s, w, win, q);
        if q < s {
            assert(m == old_bytes.len() - 1);
            lemma_field_bit(last as u16, 8, j);
        } else {
            lemma_field_bit(d, w as nat, q - s);
        }
    }
}

/// Bit `q` of the window, counted from its most significant bit: a bit of
/// `last` before the cursor, then the bits of the field, then zeros.
proof fn lemma_window_bits(last: u8, d: u16, s: u32, w: u32, win: u32, q: u32)
    by (bit_vector)
    requires
        s < 8,
        1 <= w <= 16,
        (d as u32) >> w == 0,
        last & (0xffu8 >> s) == 0,
        win == ((last as u32) << 16) | ((d as u32) << ((24 - s - w) as u32)),
        q < 24,
    ensures
        ((win >> ((23 - q) as u32)) & 1 == 1) == (if q < s {
            ((last as u16) >> ((7 - q) as u16)) & 1 == 1
        } else if q < s + w {
            (d >> ((s + w - 1 - q) as u16)) & 1 == 1
        } else {
            false
        }),
{
}

/// Bit `j` of the window's byte at `sh` is bit `sh + 7 - j` of the window.
proof fn lemma_window_byte_bit(win: u32, sh: u32, j: u32, b: u8)
    by (bit_vector)
    requires
        sh == 0 || sh == 8 || sh == 16,
        j < 8,
        b == (win >> sh) as u8,
    ensures
        (((b as u16) >> ((7 - j) as u16)) & 1 == 1) == ((win >> ((sh + 7 - j) as u32)) & 1 == 1),
{
}

/// Behind the new cursor the window's byte holds only zeros.
proof fn lemma_window_tail(last: u8, d: u16, s: u32, w: u32, win: u32, sh: u32, r: u32, b: u8)
    by (bit_vector)
    requires
        s < 8,
        1 <= w <= 16,
        (d as u32) >> w == 0,
        last & (0xffu8 >> s) == 0,
        win == ((last as u32) << 16) | ((d as u32) << ((24 - s - w) as u32)),
        sh == 0 || sh == 8 || sh == 16,
        0 < r < 8,
        s + w + sh == 16 + r,
        b == (win >> sh) as u8,
    ensures
        b & (0xffu8 >> r) == 0,
{
}

/// Behind the cursor a byte holds no set bit.
proof fn lemma_clear_tail_bit(last: u8, s: u32, j: u32)
    by (bit_vector)
    requires
        last & (0xffu8 >> s) == 0,
        s <= j < 8,
    ensures
        ((last as u16) >> ((7 - j) as u16)) & 1 == 0,
{
}

/// Bit `j` of byte `k` weighs the same in the stream as in the byte itself.
proof fn lemma_stream_bit_weight(bytes: Seq<u8>, shift: u32, k: int, j: int, weight: nat)
    requires
        stream_wf(bytes, shift),
        0 <= k < bytes.len(),
        0 <= j < 8,
    ensures
        bit_weight(stream_bits(bytes, shift), 8 * k + j, weight) == bit_weight(
            field_bits(bytes[k] as nat, 8),
            j,
            weight,
        ),
{
    reveal(stream_bits);
    lemma_field_bits_len(bytes[k] as nat, 8);
    if 8 * k + j >= stream_len(bytes, shift) {
        lemma_clear_tail_bit(bytes[k], shift, j as u32);
        lemma_field_bit(bytes[k] as u16, 8, j);
    }
}

/// Byte `k` of a well-formed stream is made of the stream's bits `8 * k`
/// to `8 * k + 7`.
proof fn lemma_stream_byte(bytes: Seq<u8>, shift: u32, k: int)
    requires
        stream_wf(bytes, shift),
        0 <= k < bytes.len(),
    ensures
        bytes[k] == packed_byte(stream_bits(bytes, shift), k),
{
    lemma_byte_is_sum_of_bits(bytes[k]);
    lemma_stream_bit_weight(bytes, shift, k, 0, 128);
    lemma_stream_bit_weight(bytes, shift, k, 1, 64);
    lemma_stream_bit_weight(bytes, shift, k, 2, 32);
    lemma_stream_bit_weight(bytes, shift, k, 3, 16);
    lemma_stream_bit_weight(bytes, shift, k, 4, 8);
    lemma_stream_bit_weight(bytes, shift, k, 5, 4);
    lemma_stream_bit_weight(bytes, shift, k, 6, 2);
    lemma_stream_bit_weight(bytes, shift, k, 7, 1);
}

/// A byte string that agrees with the packed bits byte by byte is the
/// packed bits.
proof fn lemma_equals_packed(bytes: Seq<u8>, bits: Seq<bool>)
    requires
        pack(bits).len() == bytes.len(),
        forall|k: int| 0 <= k < bytes.len() ==> bytes[k] == #[trigger] pack(bits)[k],
    ensures
        bytes == pack(bits),
{
    assert(bytes =~= pack(bits));
}

} // verus!
