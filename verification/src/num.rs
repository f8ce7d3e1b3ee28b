//! Conversions between the integer widths of the two protocols.

use vstd::prelude::*;

verus! {

/// `n` modulo 2^32, as an unsigned 32-bit number.
pub open spec fn wrap_u32(n: int) -> u32 {
    (n % 0x1_0000_0000) as u32
}

/// `n` modulo 2^32, as a signed 32-bit number.
pub open spec fn wrap_i32(n: int) -> i32 {
    let m = n % 0x1_0000_0000;
    if m < 0x8000_0000 {
        m as i32
    } else {
        (m - 0x1_0000_0000) as i32
    }
}

/// Keeps the low 32 bits of `n` as a signed number.
pub fn low_i32(n: u64) -> (r: i32)
    ensures
        r == wrap_i32(n as int),
{
    let m: u64 = n % 0x1_0000_0000;
    if m < 0x8000_0000 {
        m as i32
    } else {
        ((m as i64) - 0x1_0000_0000) as i32
    }
}

/// Reads the bits of a signed number as an unsigned one.
pub fn bits_u32(n: i32) -> (r: u32)
    ensures
        r == wrap_u32(n as int),
{
    if n >= 0 {
        n as u32
    } else {
        ((n as i64) + 0x1_0000_0000) as u32
    }
}

// ---------------------------------------------------------------------------
// Laws
// ---------------------------------------------------------------------------


/// Wrapping changes a number by a multiple of 2^32 only, and leaves the numbers
/// that fit as they are.
pub proof fn wrapping_keeps_the_low_bits(n: int)
    ensures
        (n - wrap_u32(n)) % 0x1_0000_0000 == 0,
        (n - wrap_i32(n)) % 0x1_0000_0000 == 0,
        0 <= n <= u32::MAX ==> wrap_u32(n) == n,
        i32::MIN <= n <= i32::MAX ==> wrap_i32(n) == n,
        wrap_u32(wrap_i32(n) as int) == wrap_u32(n),
{
    let m = n % 0x1_0000_0000;
    assert(0 <= m < 0x1_0000_0000);
    assert((n - m) % 0x1_0000_0000 == 0);
    assert((n - (m - 0x1_0000_0000)) % 0x1_0000_0000 == 0);
    assert((m - 0x1_0000_0000) % 0x1_0000_0000 == m);
}

} // verus!
