//! A small verified library: a greeting built from a name, and the sum of
//! two `i32` values.
//!
//! Both functions are total. The sum wraps around at the bounds of `i32`
//! instead of trapping, so it never panics; [`wrapped_sum`] says which value
//! comes out on every pair of inputs.

use vstd::prelude::*;

verus! {

/// The text of the greeting for `name`: the words "Hello, ", then the name,
/// then an exclamation mark.
pub open spec fn greeting_of(name: Seq<char>) -> Seq<char> {
    "Hello, "@ + name + "!"@
}

/// Builds the greeting for `name`. Any name is accepted, the empty one too,
/// and it is copied into the greeting unchanged.
pub fn hello(name: &str) -> (greeting: String)
    ensures
        greeting@ == greeting_of(name@),
{
    let mut greeting = String::from_str("Hello, ");
    greeting.append(name);
    greeting.append("!");
    greeting
}

/// The number of distinct values of an `i32`.
pub open spec fn i32_span() -> int {
    0x1_0000_0000
}

/// The sum of `a` and `b` brought back into the range of `i32`: the one
/// integer between `i32::MIN` and `i32::MAX` that differs from `a + b` by a
/// multiple of `i32_span()`.
pub open spec fn wrapped_sum(a: i32, b: i32) -> int {
    (a + b - i32::MIN) % i32_span() + i32::MIN
}

/// Adds two integers, wrapping around at the bounds of `i32`.
///
/// Where the mathematical sum fits in an `i32` it is returned as it is. A sum
/// above `i32::MAX` comes back lowered by `i32_span()`, one below `i32::MIN`
/// raised by it, so that `add(i32::MAX, 1)` is `i32::MIN`.
pub fn add(a: i32, b: i32) -> (sum: i32)
    ensures
        sum == wrapped_sum(a, b),
        i32::MIN <= a + b <= i32::MAX ==> sum == a + b,
{
    a.wrapping_add(b)
}

/// Swapping the arguments of `add` does not change the sum.
pub proof fn lemma_add_commutes(a: i32, b: i32)
    ensures
        wrapped_sum(a, b) == wrapped_sum(b, a),
{
}

/// The wrapped sum is a value of `i32`. It is the mathematical sum itself
/// wherever that one is a value of `i32`, and one `i32_span()` away from it
/// everywhere else.
pub proof fn lemma_wrapped_sum_cases(a: i32, b: i32)
    ensures
        i32::MIN <= wrapped_sum(a, b) <= i32::MAX,
        i32::MIN <= a + b <= i32::MAX ==> wrapped_sum(a, b) == a + b,
        a + b > i32::MAX ==> wrapped_sum(a, b) == a + b - i32_span(),
        a + b < i32::MIN ==> wrapped_sum(a, b) == a + b + i32_span(),
{
}

} // verus!
