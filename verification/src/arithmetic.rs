//! The arithmetic the statistics are built on.
//!
//! The toolkit does not do arithmetic on binary64 values itself. It asks an
//! arithmetic unit, a function from an `Operation` to its result, and is
//! proved for every unit that is a function: one that takes every operation
//! and gives one result for it. What a statistic is, is then stated over the
//! results of the unit: `sum`, `difference`, `product`, `quotient`,
//! `square_root` and `counted`.

use crate::ieee::ZERO;
use vstd::prelude::*;

verus! {

/// One step of arithmetic. The operands of the first five are binary64 bit
/// patterns, and so is every result.
#[derive(Debug, Clone, Copy, PartialEq, Eq, Structural)]
pub enum Operation {
    /// The first operand plus the second.
    Add(u64, u64),
    /// The first operand minus the second.
    Subtract(u64, u64),
    /// The first operand times the second.
    Multiply(u64, u64),
    /// The first operand over the second.
    Divide(u64, u64),
    /// The square root of the operand.
    SquareRoot(u64),
    /// The value nearest to a count of items.
    FromCount(usize),
}

/// The result that the unit gives for an operation.
pub open spec fn result_of<F: Fn(Operation) -> u64>(unit: F, operation: Operation) -> u64 {
    choose|result: u64| call_ensures(unit, (operation,), result)
}

/// Whether `unit` is an arithmetic unit: it takes every operation and gives
/// one result for it, whenever it is asked.
pub open spec fn is_unit<F: Fn(Operation) -> u64>(unit: F) -> bool {
    &&& forall|operation: Operation| call_requires(unit, (operation,))
    &&& forall|operation: Operation, one: u64, other: u64|
        #[trigger] call_ensures(unit, (operation,), one) && #[trigger] call_ensures(
            unit,
            (operation,),
            other,
        ) ==> one == other
}

/// What an arithmetic unit has given for an operation is its result.
pub proof fn lemma_result<F: Fn(Operation) -> u64>(unit: F, operation: Operation, result: u64)
    requires
        is_unit(unit),
        call_ensures(unit, (operation,), result),
    ensures
        result == result_of(unit, operation),
{
    let chosen = result_of(unit, operation);
    assert(call_ensures(unit, (operation,), chosen));
}

/// A function that gives nothing but `results` is an arithmetic unit.
pub proof fn lemma_unit_of<F: Fn(Operation) -> u64>(unit: F, results: spec_fn(Operation) -> u64)
    requires
        forall|operation: Operation| call_requires(unit, (operation,)),
        forall|operation: Operation, result: u64| #[trigger]
            call_ensures(unit, (operation,), result) ==> result == results(operation),
    ensures
        is_unit(unit),
{
}

/// `a + b`.
pub open spec fn sum<F: Fn(Operation) -> u64>(unit: F, a: u64, b: u64) -> u64 {
    result_of(unit, Operation::Add(a, b))
}

/// `a - b`.
pub open spec fn difference<F: Fn(Operation) -> u64>(unit: F, a: u64, b: u64) -> u64 {
    result_of(unit, Operation::Subtract(a, b))
}

/// `a * b`.
pub open spec fn product<F: Fn(Operation) -> u64>(unit: F, a: u64, b: u64) -> u64 {
    result_of(unit, Operation::Multiply(a, b))
}

/// `a / b`.
pub open spec fn quotient<F: Fn(Operation) -> u64>(unit: F, a: u64, b: u64) -> u64 {
    result_of(unit, Operation::Divide(a, b))
}

/// The square root of `a`.
pub open spec fn square_root<F: Fn(Operation) -> u64>(unit: F, a: u64) -> u64 {
    result_of(unit, Operation::SquareRoot(a))
}

/// The value of a count.
pub open spec fn counted<F: Fn(Operation) -> u64>(unit: F, count: nat) -> u64 {
    result_of(unit, Operation::FromCount(count as usize))
}

/// `a * a`.
pub open spec fn square<F: Fn(Operation) -> u64>(unit: F, a: u64) -> u64 {
    product(unit, a, a)
}

/// Whether the products of the unit do not depend on the order of the
/// factors.
pub open spec fn multiplication_commutes<F: Fn(Operation) -> u64>(unit: F) -> bool {
    forall|a: u64, b: u64| #[trigger] product(unit, a, b) == product(unit, b, a)
}

/// The terms added up from `0.0`, left to right.
pub open spec fn total<F: Fn(Operation) -> u64>(unit: F, terms: Seq<u64>) -> u64
    decreases terms.len(),
{
    if terms.len() == 0 {
        ZERO
    } else {
        sum(unit, total(unit, terms.drop_last()), terms.last())
    }
}

/// The total of the terms with one more term is the total of the terms plus
/// that term.
pub proof fn lemma_total_push<F: Fn(Operation) -> u64>(unit: F, terms: Seq<u64>, term: u64)
    ensures
        total(unit, terms.push(term)) == sum(unit, total(unit, terms), term),
{
    assert(terms.push(term).drop_last() == terms);
}

/// Asks the unit for `a + b`.
pub fn plus<F: Fn(Operation) -> u64>(unit: &F, a: u64, b: u64) -> (result: u64)
    requires
        is_unit(*unit),
    ensures
        result == sum(*unit, a, b),
{
    let result = unit(Operation::Add(a, b));
    proof {
        lemma_result(*unit, Operation::Add(a, b), result);
    }
    result
}

/// Asks the unit for `a - b`.
pub fn minus<F: Fn(Operation) -> u64>(unit: &F, a: u64, b: u64) -> (result: u64)
    requires
        is_unit(*unit),
    ensures
        result == difference(*unit, a, b),
{
    let result = unit(Operation::Subtract(a, b));
    proof {
        lemma_result(*unit, Operation::Subtract(a, b), result);
    }
    result
}

/// Asks the unit for `a * b`.
pub fn times<F: Fn(Operation) -> u64>(unit: &F, a: u64, b: u64) -> (result: u64)
    requires
        is_unit(*unit),
    ensures
        result == product(*unit, a, b),
{
    let result = unit(Operation::Multiply(a, b));
    proof {
        lemma_result(*unit, Operation::Multiply(a, b), result);
    }
    result
}

/// Asks the unit for `a / b`.
pub fn over<F: Fn(Operation) -> u64>(unit: &F, a: u64, b: u64) -> (result: u64)
    requires
        is_unit(*unit),
    ensures
        result == quotient(*unit, a, b),
{
    let result = unit(Operation::Divide(a, b));
    proof {
        lemma_result(*unit, Operation::Divide(a, b), result);
    }
    result
}

/// Asks the unit for the square root of `a`.
pub fn root<F: Fn(Operation) -> u64>(unit: &F, a: u64) -> (result: u64)
    requires
        is_unit(*unit),
    ensures
        result == square_root(*unit, a),
{
    let result = unit(Operation::SquareRoot(a));
    proof {
        lemma_result(*unit, Operation::SquareRoot(a), result);
    }
    result
}

/// Asks the unit for the value of a count.
pub fn count<F: Fn(Operation) -> u64>(unit: &F, items: usize) -> (result: u64)
    requires
        is_unit(*unit),
    ensures
        result == counted(*unit, items as nat),
{
    let result = unit(Operation::FromCount(items));
    proof {
        lemma_result(*unit, Operation::FromCount(items), result);
    }
    result
}

} // verus!
