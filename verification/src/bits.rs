//! Bit-level vocabulary shared by the decoder and the execution engine.

use vstd::prelude::*;

verus! {

/// Bit `n` of `x`; bit 0 is the least significant one.
pub open spec fn bit(x: u32, n: u32) -> bool {
    (x >> n) & 1 == 1
}

/// `x` with bit `n` forced to `on` and every other bit kept.
pub open spec fn set_bit(x: u32, n: u32, on: bool) -> u32 {
    if on {
        x | (1u32 << n)
    } else {
        x & !(1u32 << n)
    }
}

/// Whether `x` is negative when read as a two's-complement number.
pub open spec fn sign(x: u32) -> bool {
    x >= 0x8000_0000
}

/// The number that a word stands for in two's complement.
pub open spec fn signed(x: u32) -> int {
    if sign(x) {
        x - 0x1_0000_0000
    } else {
        x as int
    }
}

/// The low 32 bits of an integer: its residue modulo 2^32.
pub open spec fn wrap(x: int) -> u32 {
    (x % 0x1_0000_0000) as u32
}

/// `x` rotated right by `n` places. Only `n` modulo 32 matters.
pub open spec fn rotate_right(x: u32, n: u32) -> u32 {
    if n % 32 == 0 {
        x
    } else {
        (x >> (n % 32)) | (x << ((32 - n % 32) as u32))
    }
}

/// Reading back a bit after [`set_bit`]: the written bit holds the new value,
/// every other bit is untouched.
pub proof fn lemma_set_bit(x: u32, n: u32, on: bool, m: u32)
    by (bit_vector)
    requires
        n < 32,
        m < 32,
    ensures
        bit(set_bit(x, n, on), m) == (if m == n {
            on
        } else {
            bit(x, m)
        }),
{
}

/// The sign of a word is its bit 31.
pub proof fn lemma_sign_is_top_bit(x: u32)
    by (bit_vector)
    ensures
        sign(x) == bit(x, 31),
        sign(x) == (x & 0x8000_0000 != 0),
{
}

/// Bit 0 tells odd from even, and clearing it rounds down to an even number.
pub proof fn lemma_low_bit(x: u32)
    by (bit_vector)
    ensures
        bit(x, 0) == (x % 2 == 1),
        x & 0xFFFF_FFFE == x - x % 2,
        !bit(x & 0xFFFF_FFFE, 0),
{
}

/// Rotation moves bits without losing any: bit `i` of the rotated word is
/// bit `i + n`, modulo 32, of the word.
pub proof fn lemma_rotate_right_bits(x: u32, n: u32, i: u32)
    by (bit_vector)
    requires
        i < 32,
    ensures
        bit(rotate_right(x, n), i) == bit(x, ((i + n) % 32) as u32),
{
}

/// Where the bits of the three shifts come from, for a shift by `n` places
/// with `0 < n < 32`. A left shift moves bit `i - n` to `i` and fills with
/// zeros; a logical right shift moves bit `i + n` to `i` and fills with
/// zeros; the arithmetic right shift fills with the sign bit instead.
pub proof fn lemma_shift_bits(x: u32, n: u32, i: u32)
    by (bit_vector)
    requires
        0 < n < 32,
        i < 32,
    ensures
        bit(x << n, i) == (i >= n && bit(x, (i - n) as u32)),
        bit(x >> n, i) == (i + n < 32 && bit(x, (i + n) as u32)),
        bit(
            if sign(x) {
                (x >> n) | !(0xFFFF_FFFFu32 >> n)
            } else {
                x >> n
            },
            i,
        ) == bit(
            x,
            if i + n < 32 {
                (i + n) as u32
            } else {
                31
            },
        ),
{
}

/// Adding a word to an integer and then keeping the low 32 bits is the
/// wrapping addition of the word to the low 32 bits of the integer.
pub proof fn lemma_wrap_add(x: int, y: u32)
    ensures
        wrap(x + y) == wrap(x).wrapping_add(y),
{
    assert((x + y) % 0x1_0000_0000 == ((x % 0x1_0000_0000) + y) % 0x1_0000_0000) by {
        vstd::arithmetic::div_mod::lemma_add_mod_noop_right(y as int, x, 0x1_0000_0000);
    }
}

/// Upper bounds of the masked fields that the decoder extracts.
pub proof fn lemma_field_bounds(w: u32)
    by (bit_vector)
    ensures
        w & 0xF < 16,
        (w >> 8) & 0xF < 16,
        (w >> 12) & 0xF < 16,
        (w >> 16) & 0xF < 16,
        (w >> 21) & 0xF < 16,
        (w >> 28) & 0xF < 16,
        (w >> 4) & 0xF < 16,
        (w >> 5) & 3 < 4,
        (w >> 26) & 3 < 4,
        (w >> 25) & 7 < 8,
        (w >> 7) & 0x1F < 32,
        w & 0xFF < 0x100,
        w & 0xFFF < 0x1000,
        w & 0xFFFF < 0x1_0000,
        w & 0x00FF_FFFF < 0x100_0000,
{
}

/// Rotates `x` right by `n` places.
pub fn rotate_right_u32(x: u32, n: u32) -> (r: u32)
    ensures
        r == rotate_right(x, n),
{
    let places: u32 = n % 32;
    if places == 0 {
        x
    } else {
        (x >> places) | (x << (32 - places))
    }
}

} // verus!
