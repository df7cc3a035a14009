//! Counting arrangements and selections of `r` out of `n` things.

use crate::utilities::{
    factorial, get_factorial, lemma_factorial_fits, lemma_factorial_monotonic,
    MAX_FACTORIAL_ARGUMENT,
};
use vstd::prelude::*;

verus! {

/// The number of ordered arrangements of `r` out of `n` things.
pub open spec fn permutations(n: nat, r: nat) -> nat
    recommends
        r <= n,
{
    factorial(n) / factorial((n - r) as nat)
}

/// The number of selections of `r` out of `n` things, whatever their order.
pub open spec fn combinations(n: nat, r: nat) -> nat
    recommends
        r <= n,
{
    factorial(n) / (factorial(r) * factorial((n - r) as nat))
}

/// The text with which a count of nothing is refused.
pub open spec fn refusal_text() -> Seq<char> {
    "n and r must be equal or greater than 0!"@
}

/// Whether the counting functions can work on `n` and `r` without leaving
/// 128 bits: a zero is refused at once, and otherwise `r` things are taken
/// out of at most `MAX_FACTORIAL_ARGUMENT`.
pub open spec fn countable(n: u64, r: u64) -> bool {
    n == 0 || r == 0 || (r <= n && n <= MAX_FACTORIAL_ARGUMENT)
}

/// The factorials of two parts are together at most that of the whole.
pub proof fn lemma_factorial_product(a: nat, b: nat)
    ensures
        1 <= factorial(a) * factorial(b) <= factorial(a + b),
    decreases b,
{
    lemma_factorial_monotonic(a, a);
    lemma_factorial_monotonic(b, b);
    assert(1 <= factorial(a) * factorial(b)) by (nonlinear_arith)
        requires
            1 <= factorial(a),
            1 <= factorial(b),
    ;
    if b == 0 {
        assert(factorial(a) * factorial(0) == factorial(a)) by (nonlinear_arith)
            requires
                factorial(0) == 1,
        ;
    } else {
        let p = (b - 1) as nat;
        lemma_factorial_product(a, p);
        assert(factorial(b) == b * factorial(p));
        assert(factorial(a + b) == (a + b) * factorial((a + b - 1) as nat));
        assert((a + b - 1) as nat == a + p);
        assert(factorial(a) * (b * factorial(p)) <= (a + b) * factorial(a + p))
            by (nonlinear_arith)
            requires
                factorial(a) * factorial(p) <= factorial(a + p),
                0 <= factorial(a) * factorial(p),
                b >= 1,
        ;
    }
}

/// Counts the selections of `r` out of `n` things. A count with `n` or `r`
/// zero is refused.
pub fn get_combinations(n: u64, r: u64) -> (count: Result<u128, String>)
    requires
        countable(n, r),
    ensures
        n == 0 || r == 0 ==> count is Err && count->Err_0@ == refusal_text(),
        n > 0 && r > 0 ==> count == Ok::<u128, String>(combinations(n as nat, r as nat) as u128),
        n > 0 && r > 0 ==> combinations(n as nat, r as nat) <= u128::MAX,
{
    if n == 0 || r == 0 {
        Err("n and r must be equal or greater than 0!".to_owned())
    } else {
        proof {
            lemma_factorial_product(r as nat, (n - r) as nat);
            lemma_factorial_fits(n as nat);
            lemma_quotient_bound(
                factorial(n as nat),
                factorial(r as nat) * factorial((n - r) as nat),
            );
        }
        Ok(get_factorial(n) / (get_factorial(r) * get_factorial(n - r)))
    }
}

/// Counts the ordered arrangements of `r` out of `n` things. A count with
/// `n` or `r` zero is refused.
pub fn get_permutations(n: u64, r: u64) -> (count: Result<u128, String>)
    requires
        countable(n, r),
    ensures
        n == 0 || r == 0 ==> count is Err && count->Err_0@ == refusal_text(),
        n > 0 && r > 0 ==> count == Ok::<u128, String>(permutations(n as nat, r as nat) as u128),
        n > 0 && r > 0 ==> permutations(n as nat, r as nat) <= u128::MAX,
{
    if n == 0 || r == 0 {
        Err("n and r must be equal or greater than 0!".to_owned())
    } else {
        proof {
            lemma_factorial_fits(n as nat);
            lemma_factorial_fits((n - r) as nat);
            lemma_quotient_bound(factorial(n as nat), factorial((n - r) as nat));
        }
        Ok(get_factorial(n) / get_factorial(n - r))
    }
}

/// A quotient by a positive number is at most the dividend.
pub proof fn lemma_quotient_bound(dividend: nat, divisor: nat)
    requires
        divisor >= 1,
    ensures
        dividend / divisor <= dividend,
{
    assert(dividend / divisor <= dividend) by (nonlinear_arith)
        requires
            divisor >= 1,
            dividend >= 0,
    ;
}

} // verus!
