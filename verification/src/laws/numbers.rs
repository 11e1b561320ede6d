//! Bits and bytes as numbers: what the laws read records by.

use crate::bytebuf::{i32_at, i64_at, u16_at, u32_at, u64_at};
use vstd::prelude::*;

verus! {

/// The upper half of an info byte: the type of a record where all four bits
/// count.
pub open spec fn upper4(info: u8) -> int {
    info as int / 16
}

/// The three bits of an info byte below the uppermost: the type of a record
/// where the uppermost bit is a flag.
pub open spec fn middle3(info: u8) -> int {
    info as int / 16 % 8
}

/// The lower two bits of the upper half of an info byte.
pub open spec fn middle2(info: u8) -> int {
    info as int / 16 % 4
}

/// Whether the bit of the given weight is set in a flag byte.
pub open spec fn has_bit(flags: u8, weight: int) -> bool {
    flags as int / weight % 2 == 1
}

/// The number that `n` bytes of `s` make from position `at` on, the first the
/// least significant.
pub open spec fn number(s: Seq<u8>, at: int, n: nat) -> int
    decreases n,
{
    if n == 0 {
        0
    } else {
        s[at] + 0x100 * number(s, at + 1, (n - 1) as nat)
    }
}

/// The two's complement reading of a number below `size`.
pub open spec fn signed(v: int, size: int) -> int {
    if 2 * v < size {
        v
    } else {
        v - size
    }
}

/// Masks and flag tests, as arithmetic.
pub proof fn lemma_info_bits(x: u8)
    ensures
        x & 0xF0 == 16 * upper4(x),
        x & !0x0Fu8 == 16 * upper4(x),
        x & 0x70 == 16 * middle3(x),
        x & 0x30 == 16 * middle2(x),
        (x & 0x01 != 0) == has_bit(x, 1),
        (x & 0x02 != 0) == has_bit(x, 2),
        (x & 0x80 != 0) == has_bit(x, 128),
        (x & 0x80 > 0) == has_bit(x, 128),
{
    assert(x & 0xF0 == 16 * (x / 16)) by (bit_vector);
    assert(x & !0x0Fu8 == 16 * (x / 16)) by (bit_vector);
    assert(x & 0x70 == 16 * ((x / 16) % 8)) by (bit_vector);
    assert(x & 0x30 == 16 * ((x / 16) % 4)) by (bit_vector);
    assert((x & 0x01 != 0) == (x % 2 == 1)) by (bit_vector);
    assert((x & 0x02 != 0) == ((x / 2) % 2 == 1)) by (bit_vector);
    assert((x & 0x80 != 0) == ((x / 128) % 2 == 1)) by (bit_vector);
    assert((x & 0x80 > 0) == ((x / 128) % 2 == 1)) by (bit_vector);
}

/// The numbers that decoders take, as the bytes make them.
pub proof fn lemma_numbers(s: Seq<u8>, at: int)
    ensures
        u16_at(s, at) == number(s, at, 2),
        u32_at(s, at) == number(s, at, 4),
        u64_at(s, at) == number(s, at, 8),
        i32_at(s, at) == signed(number(s, at, 4), 0x1_0000_0000),
        i64_at(s, at) == signed(number(s, at, 8), 0x1_0000_0000_0000_0000),
{
    reveal_with_fuel(number, 9);
    assert(number(s, at, 2) == s[at] + 0x100 * s[at + 1]);
    assert(number(s, at, 4) == s[at] + 0x100 * s[at + 1] + 0x1_0000 * s[at + 2] + 0x100_0000 * s[at
        + 3]);
    assert(number(s, at, 8) == number(s, at, 4) + 0x1_0000_0000 * (s[at + 4] + 0x100 * s[at + 5]
        + 0x1_0000 * s[at + 6] + 0x100_0000 * s[at + 7]));
    assert(u32_at(s, at + 4) == s[at + 4] + 0x100 * s[at + 5] + 0x1_0000 * s[at + 6] + 0x100_0000
        * s[at + 7]);
}

} // verus!
