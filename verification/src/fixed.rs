//! Fixed-point arithmetic and the bounds of the monetary model.
//!
//! Money is held in thousandths of a currency unit ("milli"): a balance of
//! `1_000` stands for one currency unit. The bounds below keep every product
//! and sum the generators form inside `i64`.

use vstd::prelude::*;
use vstd::arithmetic::div_mod::lemma_div_nonincreasing;
use vstd::arithmetic::div_mod::lemma_div_pos_is_pos;

verus! {

/// Largest annual salary the model admits, in milli-currency.
pub const MAX_SALARY: i64 = 1_000_000_000_000;

/// Largest balance the generators produce, in milli-currency:
/// `MAX_SALARY` times the largest balance-to-salary ratio (2.140).
pub const MAX_BALANCE: i64 = 2_140_000_000_000;

/// Largest aggregate monthly debt cost the model admits, in milli-currency.
pub const MAX_DEBT: i64 = 1_000_000_000_000_000;

/// Upper bound on one person's generated demand, in milli-currency.
pub const MAX_DEMAND: i64 = 100_000_000_000;

/// `a * b / d` on non-negative fixed-point values: the product is exact and
/// the division truncates toward zero.
pub fn mul_div(a: i64, b: i64, d: u64) -> (r: i64)
    requires
        0 <= a,
        0 <= b,
        a * b <= i64::MAX,
        d > 0,
    ensures
        r == a * b / (d as int),
        0 <= r <= a * b,
{
    let p: u64 = (a as u64) * (b as u64);
    let q: u64 = p / d;
    proof {
        lemma_div_pos_is_pos(p as int, d as int);
        lemma_div_nonincreasing(p as int, d as int);
    }
    q as i64
}

} // verus!
