//! Moments, covariance and correlation, and the sums of squares of a
//! regression, each with the inputs it refuses; and the factorial that the
//! counting functions are built on.
//!
//! What a statistic is, is stated over the results of an arithmetic unit
//! (see `arithmetic`): sums run from `0.0` over the items in their order.

use crate::arithmetic::{
    count, counted, difference, is_unit, lemma_total_push, minus, multiplication_commutes, over,
    plus, product, quotient, root, square, square_root, sum, times, total, Operation,
};
use crate::arrays::SampleVector;
use crate::ieee::{at_most, is_nan, is_zero, nan, rank, same_rank, zero, HUNDRED, ZERO};
use vstd::prelude::*;

verus! {

/// Why a request for a sample of rows, or the shape of a tabular array, was
/// refused.
#[derive(Debug, Clone, Copy, PartialEq, Eq, Structural)]
pub enum RequestFault {
    /// The array has too few rows for its number of columns.
    TooFewRows,
    /// More rows were asked for than the array holds.
    TooManyElements,
    /// The array or the sample is beyond what indices or storage can hold.
    TooLarge,
}

/// The ways in which an operation of the toolkit fails.
#[derive(Debug, Clone, Copy, PartialEq, Eq, Structural)]
pub enum StatsError {
    /// A vector without items was given to a moment operation.
    EmptyInput,
    /// Some item of an input vector is a NaN.
    ContainsNaN,
    /// Two vectors that must have the same length do not.
    LengthMismatch,
    /// There are too few observations for the estimator's divisor.
    InsufficientSamples,
    /// A division by a zero spread: the slope or the correlation is undefined.
    DegenerateRegression,
    /// The significance level is no key of the critical-value table.
    UnsupportedSignificanceLevel,
    /// A sample of rows cannot be taken as asked, or the shape is refused.
    InvalidSampleRequest(RequestFault),
}

impl StatsError {
    /// The text of the error.
    pub open spec fn text(self) -> Seq<char> {
        match self {
            StatsError::EmptyInput => "Vector cannot be empty"@,
            StatsError::ContainsNaN => "Vector must not contain nans!"@,
            StatsError::LengthMismatch => "Vector lengths do not match!"@,
            StatsError::InsufficientSamples => "Too few observations for this estimator!"@,
            StatsError::DegenerateRegression => "Division by a zero spread!"@,
            StatsError::UnsupportedSignificanceLevel => "No suitable alpha level."@,
            StatsError::InvalidSampleRequest(RequestFault::TooFewRows) =>
                "Number of rows must be great than number of columns!"@,
            StatsError::InvalidSampleRequest(RequestFault::TooManyElements) =>
                "You want to sample more elements than those that are contained in the array"@,
            StatsError::InvalidSampleRequest(RequestFault::TooLarge) =>
                "The array is too large for this request"@,
        }
    }

    /// The text of the error, for display.
    pub fn message(&self) -> (text: String)
        ensures
            text@ == self.text(),
    {
        match self {
            StatsError::EmptyInput => "Vector cannot be empty".to_owned(),
            StatsError::ContainsNaN => "Vector must not contain nans!".to_owned(),
            StatsError::LengthMismatch => "Vector lengths do not match!".to_owned(),
            StatsError::InsufficientSamples => "Too few observations for this estimator!".to_owned(),
            StatsError::DegenerateRegression => "Division by a zero spread!".to_owned(),
            StatsError::UnsupportedSignificanceLevel => "No suitable alpha level.".to_owned(),
            StatsError::InvalidSampleRequest(RequestFault::TooFewRows) =>
                "Number of rows must be great than number of columns!".to_owned(),
            StatsError::InvalidSampleRequest(RequestFault::TooManyElements) =>
                "You want to sample more elements than those that are contained in the array".to_owned(),
            StatsError::InvalidSampleRequest(RequestFault::TooLarge) =>
                "The array is too large for this request".to_owned(),
        }
    }
}

/// Whether some item of the sequence is a NaN.
pub open spec fn contains_nan(items: Seq<u64>) -> bool {
    exists|i: int| 0 <= i < items.len() && nan(#[trigger] items[i])
}

/// Refuses a vector that holds a NaN, and hands back any other.
pub fn check_vector_for_nans(input_vector: &SampleVector) -> (checked: Result<
    &SampleVector,
    StatsError,
>)
    ensures
        contains_nan(input_vector@) ==> checked == Err::<&SampleVector, StatsError>(
            StatsError::ContainsNaN,
        ),
        !contains_nan(input_vector@) ==> checked == Ok::<&SampleVector, StatsError>(input_vector),
{
    let n = input_vector.len();
    let mut i: usize = 0;
    while i < n
        invariant
            i <= n,
            n == input_vector@.len(),
            forall|k: int| 0 <= k < i ==> !nan(#[trigger] input_vector@[k]),
        decreases n - i,
    {
        if is_nan(input_vector.get(i)) {
            return Err(StatsError::ContainsNaN);
        }
        i = i + 1;
    }
    Ok(input_vector)
}

/// Refuses two vectors of different lengths.
pub fn check_vectors_for_equal_length(x: &SampleVector, y: &SampleVector) -> (checked: Result<
    (),
    StatsError,
>)
    ensures
        x@.len() == y@.len() ==> checked == Ok::<(), StatsError>(()),
        x@.len() != y@.len() ==> checked == Err::<(), StatsError>(StatsError::LengthMismatch),
{
    if x.len() != y.len() {
        Err(StatsError::LengthMismatch)
    } else {
        Ok(())
    }
}

/// Why a moment of one vector is refused, if it is: a NaN anywhere, or no
/// item at all.
pub open spec fn vector_fault(items: Seq<u64>) -> Option<StatsError> {
    if contains_nan(items) {
        Some(StatsError::ContainsNaN)
    } else if items.len() == 0 {
        Some(StatsError::EmptyInput)
    } else {
        None
    }
}

/// Why an estimator that divides by one less than the number of items is
/// refused, if it is: as a moment is, or for fewer than two items.
pub open spec fn variance_fault(items: Seq<u64>) -> Option<StatsError> {
    match vector_fault(items) {
        Some(fault) => Some(fault),
        None => if items.len() < 2 {
            Some(StatsError::InsufficientSamples)
        } else {
            None
        },
    }
}

/// Why a statistic of two paired vectors is refused, if it is: different
/// lengths first, then a NaN in either, then no item at all.
pub open spec fn pair_fault(x: Seq<u64>, y: Seq<u64>) -> Option<StatsError> {
    if x.len() != y.len() {
        Some(StatsError::LengthMismatch)
    } else if contains_nan(x) || contains_nan(y) {
        Some(StatsError::ContainsNaN)
    } else if x.len() == 0 {
        Some(StatsError::EmptyInput)
    } else {
        None
    }
}

/// Why a paired estimator that divides by one less than the number of pairs
/// is refused, if it is.
pub open spec fn sample_pair_fault(x: Seq<u64>, y: Seq<u64>) -> Option<StatsError> {
    match pair_fault(x, y) {
        Some(fault) => Some(fault),
        None => if x.len() < 2 {
            Some(StatsError::InsufficientSamples)
        } else {
            None
        },
    }
}

/// Why a sum of squared errors is refused, if it is. Unlike the moments it
/// takes vectors without items: their sum is `0.0`.
pub open spec fn residual_fault(predictions: Seq<u64>, observations: Seq<u64>) -> Option<
    StatsError,
> {
    if predictions.len() != observations.len() {
        Some(StatsError::LengthMismatch)
    } else if contains_nan(predictions) || contains_nan(observations) {
        Some(StatsError::ContainsNaN)
    } else {
        None
    }
}

/// Whether all items stand for the same number: they have the rank of the
/// first.
pub open spec fn is_constant(items: Seq<u64>) -> bool {
    forall|i: int| 0 <= i < items.len() ==> rank(#[trigger] items[i]) == rank(items[0])
}

/// The mean of a vector with items: the single item, or the total over the
/// number of items.
pub open spec fn mean_of<F: Fn(Operation) -> u64>(unit: F, items: Seq<u64>) -> u64 {
    if items.len() == 1 {
        items[0]
    } else {
        quotient(unit, total(unit, items), counted(unit, items.len()))
    }
}

/// For each pair `(x[i], y[i])`, the product of the deviation of `x[i]` from
/// `center_x` and the deviation of `y[i]` from `center_y`.
pub open spec fn deviation_products<F: Fn(Operation) -> u64>(
    unit: F,
    x: Seq<u64>,
    center_x: u64,
    y: Seq<u64>,
    center_y: u64,
) -> Seq<u64> {
    Seq::new(
        x.len(),
        |i: int| product(unit, difference(unit, x[i], center_x), difference(unit, y[i], center_y)),
    )
}

/// The sum of the products of the deviations of `x` and of `y` from their
/// means.
pub open spec fn co_deviation_of<F: Fn(Operation) -> u64>(unit: F, x: Seq<u64>, y: Seq<u64>) -> u64 {
    total(unit, deviation_products(unit, x, mean_of(unit, x), y, mean_of(unit, y)))
}

/// The sum of the squared deviations of the items from their mean.
pub open spec fn sum_of_squares_of<F: Fn(Operation) -> u64>(unit: F, items: Seq<u64>) -> u64 {
    co_deviation_of(unit, items, items)
}

/// The sample variance: the sum of squares over one less than the number of
/// items.
pub open spec fn variance_of<F: Fn(Operation) -> u64>(unit: F, items: Seq<u64>) -> u64 {
    quotient(unit, sum_of_squares_of(unit, items), counted(unit, (items.len() - 1) as nat))
}

/// The standard deviation: the square root of the sample variance.
pub open spec fn standard_deviation_of<F: Fn(Operation) -> u64>(unit: F, items: Seq<u64>) -> u64 {
    square_root(unit, variance_of(unit, items))
}

/// The sample covariance: the co-deviation over one less than the number of
/// pairs.
pub open spec fn sample_covariance_of<F: Fn(Operation) -> u64>(
    unit: F,
    x: Seq<u64>,
    y: Seq<u64>,
) -> u64 {
    quotient(unit, co_deviation_of(unit, x, y), counted(unit, (x.len() - 1) as nat))
}

/// The population covariance: the co-deviation over the number of pairs.
pub open spec fn population_covariance_of<F: Fn(Operation) -> u64>(
    unit: F,
    x: Seq<u64>,
    y: Seq<u64>,
) -> u64 {
    quotient(unit, co_deviation_of(unit, x, y), counted(unit, x.len()))
}

/// The product of the two standard deviations, by which the correlation
/// coefficient divides.
pub open spec fn spread_of<F: Fn(Operation) -> u64>(unit: F, x: Seq<u64>, y: Seq<u64>) -> u64 {
    product(unit, standard_deviation_of(unit, x), standard_deviation_of(unit, y))
}

/// What `get_mean` returns.
pub open spec fn mean_outcome<F: Fn(Operation) -> u64>(unit: F, items: Seq<u64>) -> Result<
    u64,
    StatsError,
> {
    match vector_fault(items) {
        Some(fault) => Err(fault),
        None => Ok(mean_of(unit, items)),
    }
}

/// What `get_sum_of_squares` returns.
pub open spec fn sum_of_squares_outcome<F: Fn(Operation) -> u64>(
    unit: F,
    items: Seq<u64>,
) -> Result<u64, StatsError> {
    match vector_fault(items) {
        Some(fault) => Err(fault),
        None => Ok(sum_of_squares_of(unit, items)),
    }
}

/// What `get_variance` returns.
pub open spec fn variance_outcome<F: Fn(Operation) -> u64>(unit: F, items: Seq<u64>) -> Result<
    u64,
    StatsError,
> {
    match variance_fault(items) {
        Some(fault) => Err(fault),
        None => Ok(variance_of(unit, items)),
    }
}

/// What `get_standard_deviation` returns.
pub open spec fn standard_deviation_outcome<F: Fn(Operation) -> u64>(
    unit: F,
    items: Seq<u64>,
) -> Result<u64, StatsError> {
    match variance_fault(items) {
        Some(fault) => Err(fault),
        None => Ok(standard_deviation_of(unit, items)),
    }
}

/// What `get_sample_covariance` returns.
pub open spec fn sample_covariance_outcome<F: Fn(Operation) -> u64>(
    unit: F,
    x: Seq<u64>,
    y: Seq<u64>,
) -> Result<u64, StatsError> {
    match sample_pair_fault(x, y) {
        Some(fault) => Err(fault),
        None => Ok(sample_covariance_of(unit, x, y)),
    }
}

/// What `get_population_covariance` returns.
pub open spec fn population_covariance_outcome<F: Fn(Operation) -> u64>(
    unit: F,
    x: Seq<u64>,
    y: Seq<u64>,
) -> Result<u64, StatsError> {
    match pair_fault(x, y) {
        Some(fault) => Err(fault),
        None => Ok(population_covariance_of(unit, x, y)),
    }
}

/// The correlation coefficient: the sample covariance over the product of
/// the standard deviations.
pub open spec fn correlation_of<F: Fn(Operation) -> u64>(unit: F, x: Seq<u64>, y: Seq<u64>) -> u64 {
    quotient(unit, sample_covariance_of(unit, x, y), spread_of(unit, x, y))
}

/// Why there is no correlation coefficient, if there is none: the faults of
/// the sample covariance, then a constant vector, or a product of the
/// standard deviations that is zero.
pub open spec fn correlation_fault<F: Fn(Operation) -> u64>(
    unit: F,
    x: Seq<u64>,
    y: Seq<u64>,
) -> Option<StatsError> {
    match sample_pair_fault(x, y) {
        Some(fault) => Some(fault),
        None => if is_constant(x) || is_constant(y) || zero(spread_of(unit, x, y)) {
            Some(StatsError::DegenerateRegression)
        } else {
            None
        },
    }
}

/// What `get_correlation_coefficient` returns.
pub open spec fn correlation_outcome<F: Fn(Operation) -> u64>(
    unit: F,
    x: Seq<u64>,
    y: Seq<u64>,
) -> Result<u64, StatsError> {
    match correlation_fault(unit, x, y) {
        Some(fault) => Err(fault),
        None => Ok(correlation_of(unit, x, y)),
    }
}

/// What `get_coefficient_of_variation` returns: the standard deviation over
/// the mean, as a percentage.
pub open spec fn coefficient_of_variation_outcome<F: Fn(Operation) -> u64>(
    unit: F,
    items: Seq<u64>,
) -> Result<u64, StatsError> {
    match variance_fault(items) {
        Some(fault) => Err(fault),
        None => Ok(
            product(
                unit,
                quotient(unit, standard_deviation_of(unit, items), mean_of(unit, items)),
                HUNDRED,
            ),
        ),
    }
}

/// What `get_z_score` returns: the distance of the point from the mean, in
/// standard deviations.
pub open spec fn z_score_outcome<F: Fn(Operation) -> u64>(
    unit: F,
    data_point: u64,
    population: Seq<u64>,
) -> Result<u64, StatsError> {
    match variance_fault(population) {
        Some(fault) => Err(fault),
        None => Ok(
            quotient(
                unit,
                difference(unit, data_point, mean_of(unit, population)),
                standard_deviation_of(unit, population),
            ),
        ),
    }
}

/// Tells whether the vector holds a NaN.
pub fn has_nan(v: &SampleVector) -> (found: bool)
    ensures
        found == contains_nan(v@),
{
    check_vector_for_nans(v).is_err()
}

/// Checks one vector as a moment does.
pub fn check_vector(v: &SampleVector) -> (fault: Option<StatsError>)
    ensures
        fault == vector_fault(v@),
{
    if has_nan(v) {
        Some(StatsError::ContainsNaN)
    } else if v.len() == 0 {
        Some(StatsError::EmptyInput)
    } else {
        None
    }
}

/// Checks one vector as the sample variance does.
pub fn check_for_variance(v: &SampleVector) -> (fault: Option<StatsError>)
    ensures
        fault == variance_fault(v@),
{
    match check_vector(v) {
        Some(fault) => Some(fault),
        None => if v.len() < 2 {
            Some(StatsError::InsufficientSamples)
        } else {
            None
        },
    }
}

/// Checks two paired vectors as a covariance or a regression does.
pub fn check_pair(x: &SampleVector, y: &SampleVector) -> (fault: Option<StatsError>)
    ensures
        fault == pair_fault(x@, y@),
{
    if x.len() != y.len() {
        Some(StatsError::LengthMismatch)
    } else if has_nan(x) || has_nan(y) {
        Some(StatsError::ContainsNaN)
    } else if x.len() == 0 {
        Some(StatsError::EmptyInput)
    } else {
        None
    }
}

/// Checks two paired vectors as the sample covariance does.
pub fn check_sample_pair(x: &SampleVector, y: &SampleVector) -> (fault: Option<StatsError>)
    ensures
        fault == sample_pair_fault(x@, y@),
{
    match check_pair(x, y) {
        Some(fault) => Some(fault),
        None => if x.len() < 2 {
            Some(StatsError::InsufficientSamples)
        } else {
            None
        },
    }
}

/// Checks predictions against observations as a sum of squared errors
/// does.
pub fn check_residuals(predictions: &SampleVector, observations: &SampleVector) -> (fault: Option<
    StatsError,
>)
    ensures
        fault == residual_fault(predictions@, observations@),
{
    if predictions.len() != observations.len() {
        Some(StatsError::LengthMismatch)
    } else if has_nan(predictions) || has_nan(observations) {
        Some(StatsError::ContainsNaN)
    } else {
        None
    }
}

/// Tells whether all items of a vector stand for the same number.
pub fn check_constant(v: &SampleVector) -> (constant: bool)
    ensures
        constant == is_constant(v@),
{
    let n = v.len();
    if n == 0 {
        return true;
    }
    let first = v.get(0);
    let mut i: usize = 1;
    while i < n
        invariant
            1 <= i <= n,
            n == v@.len(),
            first == v@[0],
            forall|k: int| 0 <= k < i ==> rank(#[trigger] v@[k]) == rank(v@[0]),
        decreases n - i,
    {
        if !same_rank(v.get(i), first) {
            return false;
        }
        i = i + 1;
    }
    true
}

/// Adds up the items of a vector, from `0.0`, left to right.
pub fn add_up<F: Fn(Operation) -> u64>(v: &SampleVector, unit: &F) -> (sum: u64)
    requires
        is_unit(*unit),
    ensures
        sum == total(*unit, v@),
{
    let n = v.len();
    let mut sum: u64 = ZERO;
    let mut i: usize = 0;
    while i < n
        invariant
            is_unit(*unit),
            i <= n,
            n == v@.len(),
            sum == total(*unit, v@.take(i as int)),
        decreases n - i,
    {
        proof {
            lemma_total_push(*unit, v@.take(i as int), v@[i as int]);
            assert(v@.take(i + 1) == v@.take(i as int).push(v@[i as int]));
        }
        sum = plus(unit, sum, v.get(i));
        i = i + 1;
    }
    proof {
        assert(v@.take(n as int) == v@);
    }
    sum
}

/// The mean of a vector that has items.
pub(crate) fn mean_of_items<F: Fn(Operation) -> u64>(v: &SampleVector, unit: &F) -> (mean: u64)
    requires
        is_unit(*unit),
        v@.len() >= 1,
    ensures
        mean == mean_of(*unit, v@),
{
    let n = v.len();
    if n == 1 {
        v.get(0)
    } else {
        let sum = add_up(v, unit);
        let items = count(unit, n);
        over(unit, sum, items)
    }
}

/// Adds up the products of the deviations of two vectors of one length from
/// the given centers.
fn add_up_deviation_products<F: Fn(Operation) -> u64>(
    x: &SampleVector,
    center_x: u64,
    y: &SampleVector,
    center_y: u64,
    unit: &F,
) -> (sum: u64)
    requires
        is_unit(*unit),
        x@.len() == y@.len(),
    ensures
        sum == total(*unit, deviation_products(*unit, x@, center_x, y@, center_y)),
{
    let n = x.len();
    let ghost terms = deviation_products(*unit, x@, center_x, y@, center_y);
    let mut sum: u64 = ZERO;
    let mut i: usize = 0;
    while i < n
        invariant
            is_unit(*unit),
            i <= n,
            n == x@.len(),
            n == y@.len(),
            terms == deviation_products(*unit, x@, center_x, y@, center_y),
            sum == total(*unit, terms.take(i as int)),
        decreases n - i,
    {
        let deviation_x = minus(unit, x.get(i), center_x);
        let deviation_y = minus(unit, y.get(i), center_y);
        let term = times(unit, deviation_x, deviation_y);
        proof {
            assert(term == terms[i as int]);
            lemma_total_push(*unit, terms.take(i as int), term);
            assert(terms.take(i + 1) == terms.take(i as int).push(term));
        }
        sum = plus(unit, sum, term);
        i = i + 1;
    }
    proof {
        assert(terms.take(n as int) == terms);
    }
    sum
}

/// The sum of squares of a vector that has items: each deviation from the
/// mean is taken once and multiplied by itself.
pub(crate) fn sum_of_squares_of_items<F: Fn(Operation) -> u64>(v: &SampleVector, unit: &F) -> (sum: u64)
    requires
        is_unit(*unit),
        v@.len() >= 1,
    ensures
        sum == sum_of_squares_of(*unit, v@),
{
    let n = v.len();
    let mean = mean_of_items(v, unit);
    let ghost terms = deviation_products(*unit, v@, mean, v@, mean);
    let mut sum: u64 = ZERO;
    let mut i: usize = 0;
    while i < n
        invariant
            is_unit(*unit),
            i <= n,
            n == v@.len(),
            terms == deviation_products(*unit, v@, mean, v@, mean),
            sum == total(*unit, terms.take(i as int)),
        decreases n - i,
    {
        let deviation = minus(unit, v.get(i), mean);
        let term = times(unit, deviation, deviation);
        proof {
            assert(term == terms[i as int]);
            lemma_total_push(*unit, terms.take(i as int), term);
            assert(terms.take(i + 1) == terms.take(i as int).push(term));
        }
        sum = plus(unit, sum, term);
        i = i + 1;
    }
    proof {
        assert(terms.take(n as int) == terms);
    }
    sum
}

/// The co-deviation of two vectors of one length that have items.
pub(crate) fn co_deviation<F: Fn(Operation) -> u64>(x: &SampleVector, y: &SampleVector, unit: &F) -> (sum:
    u64)
    requires
        is_unit(*unit),
        x@.len() == y@.len(),
        x@.len() >= 1,
    ensures
        sum == co_deviation_of(*unit, x@, y@),
{
    let mean_x = mean_of_items(x, unit);
    let mean_y = mean_of_items(y, unit);
    add_up_deviation_products(x, mean_x, y, mean_y, unit)
}

/// The mean of a vector: its single item, or its total over the number of
/// its items. A vector with a NaN or without items has none.
pub fn get_mean<F: Fn(Operation) -> u64>(input_vector: &SampleVector, unit: &F) -> (mean: Result<
    u64,
    StatsError,
>)
    requires
        is_unit(*unit),
    ensures
        mean == mean_outcome(*unit, input_vector@),
{
    match check_vector(input_vector) {
        Some(fault) => Err(fault),
        None => Ok(mean_of_items(input_vector, unit)),
    }
}

/// The sum of the squared deviations of the items from their mean.
pub fn get_sum_of_squares<F: Fn(Operation) -> u64>(input_vector: &SampleVector, unit: &F) -> (sum:
    Result<u64, StatsError>)
    requires
        is_unit(*unit),
    ensures
        sum == sum_of_squares_outcome(*unit, input_vector@),
{
    match check_vector(input_vector) {
        Some(fault) => Err(fault),
        None => Ok(sum_of_squares_of_items(input_vector, unit)),
    }
}

/// The sample variance, which needs two items at least.
pub fn get_variance<F: Fn(Operation) -> u64>(input_vector: &SampleVector, unit: &F) -> (variance:
    Result<u64, StatsError>)
    requires
        is_unit(*unit),
    ensures
        variance == variance_outcome(*unit, input_vector@),
{
    match check_for_variance(input_vector) {
        Some(fault) => Err(fault),
        None => {
            let sum = sum_of_squares_of_items(input_vector, unit);
            let divisor = count(unit, input_vector.len() - 1);
            Ok(over(unit, sum, divisor))
        },
    }
}

/// The standard deviation: the square root of the sample variance.
pub fn get_standard_deviation<F: Fn(Operation) -> u64>(
    input_vector: &SampleVector,
    unit: &F,
) -> (deviation: Result<u64, StatsError>)
    requires
        is_unit(*unit),
    ensures
        deviation == standard_deviation_outcome(*unit, input_vector@),
{
    match get_variance(input_vector, unit) {
        Ok(variance) => Ok(root(unit, variance)),
        Err(fault) => Err(fault),
    }
}

/// The sample covariance of two vectors of one length, which needs two
/// pairs at least.
pub fn get_sample_covariance<F: Fn(Operation) -> u64>(
    x: &SampleVector,
    y: &SampleVector,
    unit: &F,
) -> (covariance: Result<u64, StatsError>)
    requires
        is_unit(*unit),
    ensures
        covariance == sample_covariance_outcome(*unit, x@, y@),
{
    match check_sample_pair(x, y) {
        Some(fault) => Err(fault),
        None => {
            let numerator = co_deviation(x, y, unit);
            let divisor = count(unit, x.len() - 1);
            Ok(over(unit, numerator, divisor))
        },
    }
}

/// The population covariance of two vectors of one length.
pub fn get_population_covariance<F: Fn(Operation) -> u64>(
    x: &SampleVector,
    y: &SampleVector,
    unit: &F,
) -> (covariance: Result<u64, StatsError>)
    requires
        is_unit(*unit),
    ensures
        covariance == population_covariance_outcome(*unit, x@, y@),
{
    match check_pair(x, y) {
        Some(fault) => Err(fault),
        None => {
            let numerator = co_deviation(x, y, unit);
            let divisor = count(unit, x.len());
            Ok(over(unit, numerator, divisor))
        },
    }
}

/// The correlation coefficient of two vectors. It is refused for a constant
/// vector, and wherever the product of the standard deviations is zero.
pub fn get_correlation_coefficient<F: Fn(Operation) -> u64>(
    independent_variable: &SampleVector,
    dependent_variable: &SampleVector,
    unit: &F,
) -> (coefficient: Result<u64, StatsError>)
    requires
        is_unit(*unit),
    ensures
        coefficient == correlation_outcome(*unit, independent_variable@, dependent_variable@),
{
    let covariance = match get_sample_covariance(independent_variable, dependent_variable, unit) {
        Ok(covariance) => covariance,
        Err(fault) => {
            return Err(fault);
        },
    };
    if check_constant(independent_variable) || check_constant(dependent_variable) {
        return Err(StatsError::DegenerateRegression);
    }
    let deviation_x = match get_standard_deviation(independent_variable, unit) {
        Ok(deviation) => deviation,
        Err(fault) => {
            return Err(fault);
        },
    };
    let deviation_y = match get_standard_deviation(dependent_variable, unit) {
        Ok(deviation) => deviation,
        Err(fault) => {
            return Err(fault);
        },
    };
    let spread = times(unit, deviation_x, deviation_y);
    if is_zero(spread) {
        return Err(StatsError::DegenerateRegression);
    }
    Ok(over(unit, covariance, spread))
}

/// The coefficient of variation: the standard deviation over the mean, as a
/// percentage.
pub fn get_coefficient_of_variation<F: Fn(Operation) -> u64>(
    population: &SampleVector,
    unit: &F,
) -> (coefficient: Result<u64, StatsError>)
    requires
        is_unit(*unit),
    ensures
        coefficient == coefficient_of_variation_outcome(*unit, population@),
{
    let deviation = match get_standard_deviation(population, unit) {
        Ok(deviation) => deviation,
        Err(fault) => {
            return Err(fault);
        },
    };
    let mean = mean_of_items(population, unit);
    let ratio = over(unit, deviation, mean);
    Ok(times(unit, ratio, HUNDRED))
}

/// The z-score of a point: its distance from the mean of the population, in
/// standard deviations.
pub fn get_z_score<F: Fn(Operation) -> u64>(
    data_point: u64,
    population: &SampleVector,
    unit: &F,
) -> (score: Result<u64, StatsError>)
    requires
        is_unit(*unit),
    ensures
        score == z_score_outcome(*unit, data_point, population@),
{
    let deviation = match get_standard_deviation(population, unit) {
        Ok(deviation) => deviation,
        Err(fault) => {
            return Err(fault);
        },
    };
    let mean = mean_of_items(population, unit);
    let distance = minus(unit, data_point, mean);
    Ok(over(unit, distance, deviation))
}

/// The predictions of a line: for each item, the slope times the item, plus
/// the intercept.
pub open spec fn predictions_of<F: Fn(Operation) -> u64>(
    unit: F,
    items: Seq<u64>,
    slope: u64,
    intercept: u64,
) -> Seq<u64> {
    Seq::new(items.len(), |i: int| sum(unit, product(unit, slope, items[i]), intercept))
}

/// For each pair, the square of the prediction minus the observation.
pub open spec fn squared_errors<F: Fn(Operation) -> u64>(
    unit: F,
    predictions: Seq<u64>,
    observations: Seq<u64>,
) -> Seq<u64> {
    Seq::new(
        predictions.len(),
        |i: int| square(unit, difference(unit, predictions[i], observations[i])),
    )
}

/// The sum of squared errors.
pub open spec fn sse_of<F: Fn(Operation) -> u64>(
    unit: F,
    predictions: Seq<u64>,
    observations: Seq<u64>,
) -> u64 {
    total(unit, squared_errors(unit, predictions, observations))
}

/// The total sum of squares: the sum of squares of the observations.
pub open spec fn sst_of<F: Fn(Operation) -> u64>(unit: F, observations: Seq<u64>) -> u64 {
    sum_of_squares_of(unit, observations)
}

/// The regression sum of squares: the total one less the sum of squared
/// errors.
pub open spec fn ssr_of<F: Fn(Operation) -> u64>(
    unit: F,
    predictions: Seq<u64>,
    observations: Seq<u64>,
) -> u64 {
    difference(unit, sst_of(unit, observations), sse_of(unit, predictions, observations))
}

/// The mean squared error: the sum of squared errors over two less than the
/// number of observations, for the slope and the intercept.
pub open spec fn mse_of<F: Fn(Operation) -> u64>(
    unit: F,
    predictions: Seq<u64>,
    observations: Seq<u64>,
) -> u64 {
    quotient(
        unit,
        sse_of(unit, predictions, observations),
        counted(unit, (predictions.len() - 2) as nat),
    )
}

/// What `get_sst` returns.
pub open spec fn sst_outcome<F: Fn(Operation) -> u64>(unit: F, observations: Seq<u64>) -> Result<
    u64,
    StatsError,
> {
    match vector_fault(observations) {
        Some(fault) => Err(fault),
        None => Ok(sst_of(unit, observations)),
    }
}

/// What `get_sse` returns.
pub open spec fn sse_outcome<F: Fn(Operation) -> u64>(
    unit: F,
    predictions: Seq<u64>,
    observations: Seq<u64>,
) -> Result<u64, StatsError> {
    match residual_fault(predictions, observations) {
        Some(fault) => Err(fault),
        None => Ok(sse_of(unit, predictions, observations)),
    }
}

/// Why a regression sum of squares is refused, if it is: as the total sum
/// of squares of the observations is, or else as the sum of squared errors
/// is.
pub open spec fn ssr_fault(predictions: Seq<u64>, observations: Seq<u64>) -> Option<StatsError> {
    match vector_fault(observations) {
        Some(fault) => Some(fault),
        None => residual_fault(predictions, observations),
    }
}

/// What `get_ssr` returns.
pub open spec fn ssr_outcome<F: Fn(Operation) -> u64>(
    unit: F,
    predictions: Seq<u64>,
    observations: Seq<u64>,
) -> Result<u64, StatsError> {
    match ssr_fault(predictions, observations) {
        Some(fault) => Err(fault),
        None => Ok(ssr_of(unit, predictions, observations)),
    }
}

/// What `get_coefficient_of_determination` returns: the regression sum of
/// squares over the total one.
pub open spec fn coefficient_of_determination_outcome<F: Fn(Operation) -> u64>(
    unit: F,
    predictions: Seq<u64>,
    observations: Seq<u64>,
) -> Result<u64, StatsError> {
    match ssr_fault(predictions, observations) {
        Some(fault) => Err(fault),
        None => Ok(
            quotient(unit, ssr_of(unit, predictions, observations), sst_of(unit, observations)),
        ),
    }
}

/// Why a mean squared error is refused, if it is: as the sum of squared
/// errors is, or for no more than two observations.
pub open spec fn mse_fault(predictions: Seq<u64>, observations: Seq<u64>) -> Option<StatsError> {
    match residual_fault(predictions, observations) {
        Some(fault) => Some(fault),
        None => if predictions.len() <= 2 {
            Some(StatsError::InsufficientSamples)
        } else {
            None
        },
    }
}

/// What `get_mse` returns.
pub open spec fn mse_outcome<F: Fn(Operation) -> u64>(
    unit: F,
    predictions: Seq<u64>,
    observations: Seq<u64>,
) -> Result<u64, StatsError> {
    match mse_fault(predictions, observations) {
        Some(fault) => Err(fault),
        None => Ok(mse_of(unit, predictions, observations)),
    }
}

/// What `get_standard_error` returns: the square root of the mean squared
/// error.
pub open spec fn standard_error_outcome<F: Fn(Operation) -> u64>(
    unit: F,
    predictions: Seq<u64>,
    observations: Seq<u64>,
) -> Result<u64, StatsError> {
    match mse_fault(predictions, observations) {
        Some(fault) => Err(fault),
        None => Ok(square_root(unit, mse_of(unit, predictions, observations))),
    }
}

/// The predictions of the line with the given slope and intercept, one for
/// each item. A vector with a NaN is refused.
pub fn get_predictions<F: Fn(Operation) -> u64>(
    input_vector: &SampleVector,
    slope: u64,
    intercept: u64,
    unit: &F,
) -> (predictions: Result<SampleVector, StatsError>)
    requires
        is_unit(*unit),
    ensures
        contains_nan(input_vector@) ==> predictions == Err::<SampleVector, StatsError>(
            StatsError::ContainsNaN,
        ),
        !contains_nan(input_vector@) ==> (predictions matches Ok(made) && made@
            == predictions_of(*unit, input_vector@, slope, intercept)),
{
    if has_nan(input_vector) {
        return Err(StatsError::ContainsNaN);
    }
    let n = input_vector.len();
    let ghost wanted = predictions_of(*unit, input_vector@, slope, intercept);
    let mut made: Vec<u64> = Vec::new();
    let mut i: usize = 0;
    while i < n
        invariant
            is_unit(*unit),
            i <= n,
            n == input_vector@.len(),
            wanted == predictions_of(*unit, input_vector@, slope, intercept),
            made@ == wanted.take(i as int),
        decreases n - i,
    {
        let scaled = times(unit, slope, input_vector.get(i));
        let prediction = plus(unit, scaled, intercept);
        proof {
            assert(prediction == wanted[i as int]);
            assert(wanted.take(i + 1) == wanted.take(i as int).push(prediction));
        }
        made.push(prediction);
        i = i + 1;
    }
    proof {
        assert(wanted.take(n as int) == wanted);
    }
    Ok(SampleVector::from_vec(made))
}

/// The total sum of squares of the observations.
pub fn get_sst<F: Fn(Operation) -> u64>(observations: &SampleVector, unit: &F) -> (sst: Result<
    u64,
    StatsError,
>)
    requires
        is_unit(*unit),
    ensures
        sst == sst_outcome(*unit, observations@),
{
    get_sum_of_squares(observations, unit)
}

/// The sum of the squared errors of predictions against observations.
pub fn get_sse<F: Fn(Operation) -> u64>(
    predictions: &SampleVector,
    observations: &SampleVector,
    unit: &F,
) -> (sse: Result<u64, StatsError>)
    requires
        is_unit(*unit),
    ensures
        sse == sse_outcome(*unit, predictions@, observations@),
{
    match check_residuals(predictions, observations) {
        Some(fault) => {
            return Err(fault);
        },
        None => {},
    }
    let n = predictions.len();
    let ghost terms = squared_errors(*unit, predictions@, observations@);
    let mut sum: u64 = ZERO;
    let mut i: usize = 0;
    while i < n
        invariant
            is_unit(*unit),
            i <= n,
            n == predictions@.len(),
            n == observations@.len(),
            terms == squared_errors(*unit, predictions@, observations@),
            sum == total(*unit, terms.take(i as int)),
        decreases n - i,
    {
        let error = minus(unit, predictions.get(i), observations.get(i));
        let term = times(unit, error, error);
        proof {
            assert(term == terms[i as int]);
            lemma_total_push(*unit, terms.take(i as int), term);
            assert(terms.take(i + 1) == terms.take(i as int).push(term));
        }
        sum = plus(unit, sum, term);
        i = i + 1;
    }
    proof {
        assert(terms.take(n as int) == terms);
    }
    Ok(sum)
}

/// The regression sum of squares: what the total sum of squares exceeds the
/// sum of squared errors by.
pub fn get_ssr<F: Fn(Operation) -> u64>(
    predictions: &SampleVector,
    observations: &SampleVector,
    unit: &F,
) -> (ssr: Result<u64, StatsError>)
    requires
        is_unit(*unit),
    ensures
        ssr == ssr_outcome(*unit, predictions@, observations@),
{
    let sst = match get_sst(observations, unit) {
        Ok(sst) => sst,
        Err(fault) => {
            return Err(fault);
        },
    };
    let sse = match get_sse(predictions, observations, unit) {
        Ok(sse) => sse,
        Err(fault) => {
            return Err(fault);
        },
    };
    Ok(minus(unit, sst, sse))
}

/// The coefficient of determination: the share of the total sum of squares
/// that the regression accounts for.
pub fn get_coefficient_of_determination<F: Fn(Operation) -> u64>(
    predictions: &SampleVector,
    observations: &SampleVector,
    unit: &F,
) -> (coefficient: Result<u64, StatsError>)
    requires
        is_unit(*unit),
    ensures
        coefficient == coefficient_of_determination_outcome(*unit, predictions@, observations@),
{
    let ssr = match get_ssr(predictions, observations, unit) {
        Ok(ssr) => ssr,
        Err(fault) => {
            return Err(fault);
        },
    };
    let sst = match get_sst(observations, unit) {
        Ok(sst) => sst,
        Err(fault) => {
            return Err(fault);
        },
    };
    Ok(over(unit, ssr, sst))
}

/// The mean squared error of predictions against observations, which needs
/// three observations at least.
pub fn get_mse<F: Fn(Operation) -> u64>(x: &SampleVector, y: &SampleVector, unit: &F) -> (mse:
    Result<u64, StatsError>)
    requires
        is_unit(*unit),
    ensures
        mse == mse_outcome(*unit, x@, y@),
{
    let sse = match get_sse(x, y, unit) {
        Ok(sse) => sse,
        Err(fault) => {
            return Err(fault);
        },
    };
    let n = x.len();
    if n <= 2 {
        return Err(StatsError::InsufficientSamples);
    }
    let degrees_of_freedom = count(unit, n - 2);
    Ok(over(unit, sse, degrees_of_freedom))
}

/// The standard error of a regression: the square root of the mean squared
/// error.
pub fn get_standard_error<F: Fn(Operation) -> u64>(
    x: &SampleVector,
    y: &SampleVector,
    unit: &F,
) -> (error: Result<u64, StatsError>)
    requires
        is_unit(*unit),
    ensures
        error == standard_error_outcome(*unit, x@, y@),
{
    match get_mse(x, y, unit) {
        Ok(mse) => Ok(root(unit, mse)),
        Err(fault) => Err(fault),
    }
}

/// The mean, the standard deviation and the sample variance of one vector.
#[derive(Debug, Clone, Copy, PartialEq, Eq, Structural)]
pub struct VariableInfo {
    pub mean: u64,
    pub standard_deviation: u64,
    pub variance: u64,
}

/// What `get_variable_info` returns.
pub open spec fn variable_info_outcome<F: Fn(Operation) -> u64>(unit: F, items: Seq<u64>) -> Result<
    VariableInfo,
    StatsError,
> {
    match variance_fault(items) {
        Some(fault) => Err(fault),
        None => Ok(
            VariableInfo {
                mean: mean_of(unit, items),
                standard_deviation: standard_deviation_of(unit, items),
                variance: variance_of(unit, items),
            },
        ),
    }
}

/// Describes one vector by its mean, standard deviation and variance.
pub fn get_variable_info<F: Fn(Operation) -> u64>(x: &SampleVector, unit: &F) -> (info: Result<
    VariableInfo,
    StatsError,
>)
    requires
        is_unit(*unit),
    ensures
        info == variable_info_outcome(*unit, x@),
{
    let variance = match get_variance(x, unit) {
        Ok(variance) => variance,
        Err(fault) => {
            return Err(fault);
        },
    };
    let mean = mean_of_items(x, unit);
    Ok(VariableInfo { mean, standard_deviation: root(unit, variance), variance })
}

/// Whether the unit keeps values from falling below zero where binary64
/// arithmetic does: in the square of a number, in the sum of two values
/// that are not below zero, and in the quotient of such a value by a count
/// of one or more.
pub open spec fn keeps_sign<F: Fn(Operation) -> u64>(unit: F) -> bool {
    &&& forall|a: u64| !nan(a) ==> at_most(ZERO, #[trigger] product(unit, a, a))
    &&& forall|a: u64, b: u64|
        at_most(ZERO, a) && at_most(ZERO, b) ==> at_most(ZERO, #[trigger] sum(unit, a, b))
    &&& forall|a: u64, items: nat|
        at_most(ZERO, a) && items >= 1 ==> at_most(
            ZERO,
            #[trigger] quotient(unit, a, counted(unit, items)),
        )
}

/// Whether the deviation of every item from the mean is a number.
pub open spec fn deviations_are_numbers<F: Fn(Operation) -> u64>(unit: F, items: Seq<u64>) -> bool {
    forall|i: int|
        0 <= i < items.len() ==> !nan(#[trigger] difference(unit, items[i], mean_of(unit, items)))
}

/// A total of terms that are not below zero is not below zero.
pub proof fn lemma_total_not_negative<F: Fn(Operation) -> u64>(unit: F, terms: Seq<u64>)
    requires
        keeps_sign(unit),
        forall|i: int| 0 <= i < terms.len() ==> at_most(ZERO, #[trigger] terms[i]),
    ensures
        at_most(ZERO, total(unit, terms)),
    decreases terms.len(),
{
    if terms.len() > 0 {
        lemma_total_not_negative(unit, terms.drop_last());
        assert(at_most(ZERO, terms[terms.len() - 1]));
    }
}

/// The sample variance is never below zero. Of a vector of two or more
/// items without a NaN, whose deviations from the mean are numbers, the
/// variance is at least `0.0`, for every unit that keeps the sign.
pub proof fn lemma_variance_not_negative<F: Fn(Operation) -> u64>(unit: F, items: Seq<u64>)
    requires
        variance_fault(items) is None,
        keeps_sign(unit),
        deviations_are_numbers(unit, items),
    ensures
        variance_outcome(unit, items) == Ok::<u64, StatsError>(variance_of(unit, items)),
        at_most(ZERO, sum_of_squares_of(unit, items)),
        at_most(ZERO, variance_of(unit, items)),
{
    let mean = mean_of(unit, items);
    let terms = deviation_products(unit, items, mean, items, mean);
    assert forall|i: int| 0 <= i < terms.len() implies at_most(ZERO, #[trigger] terms[i]) by {
        let deviation = difference(unit, items[i], mean);
        assert(!nan(deviation));
        assert(terms[i] == product(unit, deviation, deviation));
    }
    lemma_total_not_negative(unit, terms);
    let degrees = (items.len() - 1) as nat;
    assert(at_most(ZERO, quotient(unit, sum_of_squares_of(unit, items), counted(unit, degrees))));
}

/// The three sums of squares belong together: wherever there is a
/// regression sum of squares, there are a total one and one of squared
/// errors, and the first is the second less the third.
pub proof fn lemma_ssr_is_sst_less_sse<F: Fn(Operation) -> u64>(
    unit: F,
    predictions: Seq<u64>,
    observations: Seq<u64>,
)
    requires
        ssr_outcome(unit, predictions, observations) is Ok,
    ensures
        sst_outcome(unit, observations) is Ok,
        sse_outcome(unit, predictions, observations) is Ok,
        ssr_outcome(unit, predictions, observations)->Ok_0 == difference(
            unit,
            sst_outcome(unit, observations)->Ok_0,
            sse_outcome(unit, predictions, observations)->Ok_0,
        ),
{
}

/// The covariance of a vector with itself is its variance.
pub proof fn lemma_covariance_with_self_is_variance<F: Fn(Operation) -> u64>(
    unit: F,
    items: Seq<u64>,
)
    ensures
        sample_covariance_outcome(unit, items, items) == variance_outcome(unit, items),
{
}

/// A constant vector has no correlation coefficient, with itself or with
/// any other vector.
pub proof fn lemma_constant_has_no_correlation<F: Fn(Operation) -> u64>(
    unit: F,
    x: Seq<u64>,
    y: Seq<u64>,
)
    requires
        is_constant(x) || is_constant(y),
    ensures
        correlation_outcome(unit, x, y) is Err,
        sample_pair_fault(x, y) is None ==> correlation_outcome(unit, x, y) == Err::<
            u64,
            StatsError,
        >(StatsError::DegenerateRegression),
{
}

/// Whichever way round two vectors are given, their co-deviation is the
/// same, for a unit whose products do not depend on the order of the
/// factors.
pub proof fn lemma_co_deviation_symmetric<F: Fn(Operation) -> u64>(
    unit: F,
    x: Seq<u64>,
    y: Seq<u64>,
)
    requires
        multiplication_commutes(unit),
        x.len() == y.len(),
    ensures
        co_deviation_of(unit, x, y) == co_deviation_of(unit, y, x),
        sample_covariance_of(unit, x, y) == sample_covariance_of(unit, y, x),
        population_covariance_of(unit, x, y) == population_covariance_of(unit, y, x),
        correlation_of(unit, x, y) == correlation_of(unit, y, x),
{
    let mean_x = mean_of(unit, x);
    let mean_y = mean_of(unit, y);
    assert(deviation_products(unit, x, mean_x, y, mean_y) =~= deviation_products(
        unit,
        y,
        mean_y,
        x,
        mean_x,
    ));
    assert(spread_of(unit, x, y) == spread_of(unit, y, x));
}

/// The product `1 * 2 * ... * n`; `factorial(0)` is 1.
pub open spec fn factorial(n: nat) -> nat
    decreases n,
{
    if n == 0 {
        1
    } else {
        n * factorial((n - 1) as nat)
    }
}

/// The largest argument whose factorial fits in 128 bits.
pub const MAX_FACTORIAL_ARGUMENT: u64 = 34;

/// `factorial` never shrinks as its argument grows.
pub proof fn lemma_factorial_monotonic(a: nat, b: nat)
    requires
        a <= b,
    ensures
        1 <= factorial(a) <= factorial(b),
    decreases b,
{
    if b == 0 {
    } else if a == b {
        if a > 0 {
            lemma_factorial_monotonic((a - 1) as nat, (a - 1) as nat);
            assert(factorial(a) >= 1) by (nonlinear_arith)
                requires
                    factorial(a) == a * factorial((a - 1) as nat),
                    a >= 1,
                    factorial((a - 1) as nat) >= 1,
            ;
        }
    } else {
        lemma_factorial_monotonic(a, (b - 1) as nat);
        assert(factorial(b) >= factorial((b - 1) as nat)) by (nonlinear_arith)
            requires
                factorial(b) == b * factorial((b - 1) as nat),
                b >= 1,
                factorial((b - 1) as nat) >= 1,
        ;
    }
}

/// The factorial of 34, the last one below `2^128`.
pub proof fn lemma_factorial_34()
    ensures
        factorial(34) == 295232799039604140847618609643520000000,
        factorial(34) <= u128::MAX,
{
    assert(factorial(0) == 1);
    assert(factorial(1) == 1) by {
        assert(factorial(1) == 1 * factorial(0));
    }
    assert(factorial(2) == 2) by {
        assert(factorial(2) == 2 * factorial(1));
    }
    assert(factorial(3) == 6) by {
        assert(factorial(3) == 3 * factorial(2));
    }
    assert(factorial(4) == 24) by {
        assert(factorial(4) == 4 * factorial(3));
    }
    assert(factorial(5) == 120) by {
        assert(factorial(5) == 5 * factorial(4));
    }
    assert(factorial(6) == 720) by {
        assert(factorial(6) == 6 * factorial(5));
    }
    assert(factorial(7) == 5040) by {
        assert(factorial(7) == 7 * factorial(6));
    }
    assert(factorial(8) == 40320) by {
        assert(factorial(8) == 8 * factorial(7));
    }
    assert(factorial(9) == 362880) by {
        assert(factorial(9) == 9 * factorial(8));
    }
    assert(factorial(10) == 3628800) by {
        assert(factorial(10) == 10 * factorial(9));
    }
    assert(factorial(11) == 39916800) by {
        assert(factorial(11) == 11 * factorial(10));
    }
    assert(factorial(12) == 479001600) by {
        assert(factorial(12) == 12 * factorial(11));
    }
    assert(factorial(13) == 6227020800) by {
        assert(factorial(13) == 13 * factorial(12));
    }
    assert(factorial(14) == 87178291200) by {
        assert(factorial(14) == 14 * factorial(13));
    }
    assert(factorial(15) == 1307674368000) by {
        assert(factorial(15) == 15 * factorial(14));
    }
    assert(factorial(16) == 20922789888000) by {
        assert(factorial(16) == 16 * factorial(15));
    }
    assert(factorial(17) == 355687428096000) by {
        assert(factorial(17) == 17 * factorial(16));
    }
    assert(factorial(18) == 6402373705728000) by {
        assert(factorial(18) == 18 * factorial(17));
    }
    assert(factorial(19) == 121645100408832000) by {
        assert(factorial(19) == 19 * factorial(18));
    }
    assert(factorial(20) == 2432902008176640000) by {
        assert(factorial(20) == 20 * factorial(19));
    }
    assert(factorial(21) == 51090942171709440000) by {
        assert(factorial(21) == 21 * factorial(20));
    }
    assert(factorial(22) == 1124000727777607680000) by {
        assert(factorial(22) == 22 * factorial(21));
    }
    assert(factorial(23) == 25852016738884976640000) by {
        assert(factorial(23) == 23 * factorial(22));
    }
    assert(factorial(24) == 620448401733239439360000) by {
        assert(factorial(24) == 24 * factorial(23));
    }
    assert(factorial(25) == 15511210043330985984000000) by {
        assert(factorial(25) == 25 * factorial(24));
    }
    assert(factorial(26) == 403291461126605635584000000) by {
        assert(factorial(26) == 26 * factorial(25));
    }
    assert(factorial(27) == 10888869450418352160768000000) by {
        assert(factorial(27) == 27 * factorial(26));
    }
    assert(factorial(28) == 304888344611713860501504000000) by {
        assert(factorial(28) == 28 * factorial(27));
    }
    assert(factorial(29) == 8841761993739701954543616000000) by {
        assert(factorial(29) == 29 * factorial(28));
    }
    assert(factorial(30) == 265252859812191058636308480000000) by {
        assert(factorial(30) == 30 * factorial(29));
    }
    assert(factorial(31) == 8222838654177922817725562880000000) by {
        assert(factorial(31) == 31 * factorial(30));
    }
    assert(factorial(32) == 263130836933693530167218012160000000) by {
        assert(factorial(32) == 32 * factorial(31));
    }
    assert(factorial(33) == 8683317618811886495518194401280000000) by {
        assert(factorial(33) == 33 * factorial(32));
    }
    assert(factorial(34) == 295232799039604140847618609643520000000) by {
        assert(factorial(34) == 34 * factorial(33));
    }
}

/// Every factorial the library computes fits in a `u128`.
pub proof fn lemma_factorial_fits(n: nat)
    requires
        n <= MAX_FACTORIAL_ARGUMENT,
    ensures
        1 <= factorial(n) <= u128::MAX,
{
    lemma_factorial_34();
    lemma_factorial_monotonic(n, 34);
}

/// Computes `n!`.
pub fn get_factorial(n: u64) -> (result: u128)
    requires
        n <= MAX_FACTORIAL_ARGUMENT,
    ensures
        result == factorial(n as nat),
{
    let mut result: u128 = 1;
    let mut i: u64 = 0;
    while i < n
        invariant
            i <= n <= MAX_FACTORIAL_ARGUMENT,
            result == factorial(i as nat),
        decreases n - i,
    {
        i = i + 1;
        proof {
            lemma_factorial_fits(i as nat);
            assert(factorial(i as nat) == i * factorial((i - 1) as nat));
            assert(result * i == i * factorial((i - 1) as nat)) by (nonlinear_arith)
                requires
                    result == factorial((i - 1) as nat),
            ;
        }
        result = result * (i as u128);
    }
    result
}

} // verus!
