//! A small arithmetic helper, verified with Verus.

use vstd::prelude::*;

verus! {

/// Returns the sum of `a` and `b`. The caller must rule out overflow;
/// in return, the result is proved to be the exact mathematical sum.
pub fn bad_function(a: i32, b: i32) -> (r: i32)
    requires
        i32::MIN <= a + b <= i32::MAX,
    ensures
        r == a + b,
{
    a + b
}

} // verus!
