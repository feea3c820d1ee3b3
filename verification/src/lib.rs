//! A peer-to-peer terminal chat: the client's state and screens, the routing of
//! what the user types to what the screen shows, and the floodsub side of a chat
//! node kept in step with mDNS.
use vstd::prelude::*;

pub mod controller;
pub mod network;
pub mod state;
pub mod ui;
pub mod views;

verus! {

/// The absolute value.
pub open spec fn abs(x: int) -> int {
    if x < 0 { -x } else { x }
}

/// Integer division that rounds toward zero, as Rust's `/` does on signed integers.
pub open spec fn quotient_toward_zero(a: int, b: int) -> int {
    let q = abs(a) / abs(b);
    if (a < 0) == (b < 0) { q } else { -q }
}

/// Euclidean division by a negative divisor is the negated quotient by its magnitude.
proof fn lemma_div_by_negative(x: int, b: int)
    by (nonlinear_arith)
    requires
        b < 0,
    ensures
        x / b == -(x / -b),
{
}

/// A quotient of a natural number by a positive divisor is at most the number.
proof fn lemma_quotient_bound(x: int, d: int)
    by (nonlinear_arith)
    requires
        x >= 0,
        d >= 1,
    ensures
        0 <= x / d <= x,
        d == 1 ==> x / d == x,
        d >= 2 && x > 0 ==> x / d < x,
{
}

/// Division of a natural number by a positive divisor: the quotient times the
/// divisor, plus a remainder below the divisor, gives the number back.
proof fn lemma_natural_division(x: int, d: int)
    by (nonlinear_arith)
    requires
        x >= 0,
        d > 0,
    ensures
        x == (x / d) * d + x % d,
        0 <= x % d < d,
{
}

/// Rounding toward zero is what the quotient means: for a non-zero divisor, the
/// quotient times the divisor falls short of the dividend by a remainder smaller
/// than the divisor in size, and that remainder is zero or has the dividend's sign.
/// So a quotient is positive or negative as the signs of dividend and divisor agree
/// or differ, once the dividend is at least the divisor in size.
pub proof fn lemma_quotient_toward_zero_remainder(a: int, b: int)
    requires
        b != 0,
    ensures
        abs(a - quotient_toward_zero(a, b) * b) < abs(b),
        a - quotient_toward_zero(a, b) * b == 0 || ((a - quotient_toward_zero(a, b) * b) < 0) == (a < 0),
        abs(a) >= abs(b) ==> (quotient_toward_zero(a, b) > 0 <==> (a < 0) == (b < 0)),
        abs(a) >= abs(b) ==> quotient_toward_zero(a, b) != 0,
{
    let x = abs(a);
    let d = abs(b);
    let m = x / d;
    let s = x % d;
    lemma_natural_division(x, d);
    let q = quotient_toward_zero(a, b);
    assert(q == m || q == -m);
    assert((-m) * b == -(m * b)) by (nonlinear_arith);
    assert(m * (-b) == -(m * b)) by (nonlinear_arith);
    assert(x >= d ==> m >= 1) by (nonlinear_arith)
        requires
            x == m * d + s,
            0 <= s < d,
    ;
    assert(m >= 0) by (nonlinear_arith)
        requires
            x >= 0,
            d > 0,
            m == x / d,
    ;
}

/// Divides `a` by `b`, rounding toward zero. Dividing by zero, and the one
/// quotient that does not fit in an `i32`, are left out.
pub fn divide(a: i32, b: i32) -> (q: i32)
    requires
        b != 0,
        !(a == i32::MIN && b == -1),
    ensures
        q == quotient_toward_zero(a as int, b as int),
        abs(a - q * b) < abs(b as int),
        a - q * b == 0 || ((a - q * b) < 0) == (a < 0),
{
    proof {
        if b < 0 {
            lemma_div_by_negative(a as int, b as int);
            lemma_div_by_negative(-(a as int), b as int);
        }
        lemma_quotient_bound(abs(a as int), abs(b as int));
        lemma_quotient_toward_zero_remainder(a as int, b as int);
    }
    a / b
}

} // verus!
