//! A small addition library.
//!
//! The one operation is integer addition, offered at two widths: the
//! platform's native unsigned width (`usize`) and a fixed signed 32-bit
//! width suitable for a C-callable export. Overflow policy: both entry
//! points wrap around on overflow (two's-complement modular arithmetic),
//! and their contracts state the wrapped result exactly.

use vstd::prelude::*;

verus! {

/// The sum of `a` and `b` modulo `usize::MAX + 1`: the exact value that
/// wrapping addition at the native unsigned width returns.
pub open spec fn wrapped_sum(a: usize, b: usize) -> usize {
    if a + b > usize::MAX {
        (a + b - usize::MAX - 1) as usize
    } else {
        (a + b) as usize
    }
}

/// The sum of `a` and `b` wrapped into the signed 32-bit range: the exact
/// value that wrapping addition on `i32` returns.
pub open spec fn wrapped_sum_i32(a: i32, b: i32) -> i32 {
    if a + b > i32::MAX {
        (a + b - 0x1_0000_0000) as i32
    } else if a + b < i32::MIN {
        (a + b + 0x1_0000_0000) as i32
    } else {
        (a + b) as i32
    }
}

/// Adds two native-width unsigned integers, wrapping around on overflow.
///
/// When the mathematical sum is representable, the result is that sum;
/// otherwise it is the sum reduced modulo `usize::MAX + 1`.
pub fn add(left: usize, right: usize) -> (sum: usize)
    ensures
        sum == wrapped_sum(left, right),
        left + right <= usize::MAX ==> sum == left + right,
{
    left.wrapping_add(right)
}

/// Adds two signed 32-bit integers, wrapping around on overflow: the core
/// of the C-callable entry point of the same name.
///
/// When the mathematical sum lies within the `i32` range, the result is
/// that sum; otherwise it is the sum wrapped into the range.
pub fn rust_add(a: i32, b: i32) -> (sum: i32)
    ensures
        sum == wrapped_sum_i32(a, b),
        i32::MIN <= a + b <= i32::MAX ==> sum == a + b,
{
    a.wrapping_add(b)
}

/// Addition at the native width is commutative: swapping the operands
/// never changes the result, with or without overflow.
pub proof fn lemma_add_commutes(a: usize, b: usize)
    ensures
        wrapped_sum(a, b) == wrapped_sum(b, a),
{
}

/// Zero is the identity of addition at the native width: adding zero
/// returns the other operand unchanged.
pub proof fn lemma_add_identity(a: usize)
    ensures
        wrapped_sum(a, 0) == a,
{
}

/// Addition at the fixed 32-bit width is commutative: swapping the
/// operands never changes the result, with or without overflow.
pub proof fn lemma_rust_add_commutes(a: i32, b: i32)
    ensures
        wrapped_sum_i32(a, b) == wrapped_sum_i32(b, a),
{
}

/// Zero is the identity of addition at the fixed 32-bit width: adding
/// zero returns the other operand unchanged.
pub proof fn lemma_rust_add_identity(a: i32)
    ensures
        wrapped_sum_i32(a, 0) == a,
{
}

} // verus!
