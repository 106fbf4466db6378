//! Numbers on their way to the engine.
//!
//! The engine takes its codes and indices as the `int` of C, which is signed
//! and 32 bits wide. An unsigned number goes over bit for bit.

use vstd::prelude::*;

verus! {

/// The signed number that has the 32 bits of `value`: `value` itself up to
/// `i32::MAX`, and `value` less 2^32 above it.
pub open spec fn same_bits(value: u32) -> int {
    if value <= i32::MAX {
        value as int
    } else {
        value - 0x1_0000_0000
    }
}

/// Hands `value` over as the engine takes it.
pub fn c_int(value: u32) -> (r: i32)
    ensures
        r == same_bits(value),
        r >= 0 <==> value <= i32::MAX,
{
    if value <= 2147483647 {
        value as i32
    } else {
        let upper: i32 = (value - 2147483648) as i32;
        upper + i32::MIN
    }
}

} // verus!
