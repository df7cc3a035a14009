//! The least-squares line through paired observations, and the report that
//! describes a variable, its target and the line between them.

use crate::arithmetic::{
    difference, is_unit, minus, over, product, quotient, times, Operation,
};
use crate::arrays::SampleVector;
use crate::ieee::{is_zero, zero};
use crate::utilities::{
    check_constant, check_pair, co_deviation, co_deviation_of, contains_nan,
    correlation_outcome, get_correlation_coefficient, get_population_covariance,
    get_predictions, get_sse, get_sst, get_variable_info, is_constant, mean_of, mean_of_items,
    pair_fault, population_covariance_of, predictions_of, sse_of, sst_of, sum_of_squares_of,
    sum_of_squares_of_items, variable_info_outcome, StatsError, VariableInfo,
};
use vstd::prelude::*;

verus! {

/// Why no line is fitted, if none is: the faults of a pair of vectors, then
/// an independent variable that is constant or whose sum of squares is zero.
pub open spec fn slope_fault<F: Fn(Operation) -> u64>(unit: F, x: Seq<u64>, y: Seq<u64>) -> Option<
    StatsError,
> {
    match pair_fault(x, y) {
        Some(fault) => Some(fault),
        None => if is_constant(x) || zero(sum_of_squares_of(unit, x)) {
            Some(StatsError::DegenerateRegression)
        } else {
            None
        },
    }
}

/// The slope of the least-squares line: the co-deviation of the two
/// variables over the sum of squares of the independent one.
pub open spec fn slope_of<F: Fn(Operation) -> u64>(unit: F, x: Seq<u64>, y: Seq<u64>) -> u64 {
    quotient(unit, co_deviation_of(unit, x, y), sum_of_squares_of(unit, x))
}

/// The intercept of the least-squares line: the mean of the dependent
/// variable less the slope times the mean of the independent one.
pub open spec fn intercept_of<F: Fn(Operation) -> u64>(unit: F, x: Seq<u64>, y: Seq<u64>) -> u64 {
    difference(unit, mean_of(unit, y), product(unit, slope_of(unit, x, y), mean_of(unit, x)))
}

/// What `get_best_fitting_slope` returns.
pub open spec fn slope_outcome<F: Fn(Operation) -> u64>(unit: F, x: Seq<u64>, y: Seq<u64>) -> Result<
    u64,
    StatsError,
> {
    match slope_fault(unit, x, y) {
        Some(fault) => Err(fault),
        None => Ok(slope_of(unit, x, y)),
    }
}

/// What `get_best_fitting_intercept` returns.
pub open spec fn intercept_outcome<F: Fn(Operation) -> u64>(
    unit: F,
    x: Seq<u64>,
    y: Seq<u64>,
) -> Result<u64, StatsError> {
    match slope_fault(unit, x, y) {
        Some(fault) => Err(fault),
        None => Ok(intercept_of(unit, x, y)),
    }
}

/// The predictions of the least-squares line for the independent variable.
pub open spec fn fitted<F: Fn(Operation) -> u64>(unit: F, x: Seq<u64>, y: Seq<u64>) -> Seq<u64> {
    predictions_of(unit, x, slope_of(unit, x, y), intercept_of(unit, x, y))
}

/// Why there is no report on a variable and its target, if there is none:
/// no line is fitted, or a prediction of the line is a NaN, or there is no
/// correlation coefficient.
pub open spec fn report_fault<F: Fn(Operation) -> u64>(unit: F, x: Seq<u64>, y: Seq<u64>) -> Option<
    StatsError,
> {
    match slope_fault(unit, x, y) {
        Some(fault) => Some(fault),
        None => if contains_nan(fitted(unit, x, y)) {
            Some(StatsError::ContainsNaN)
        } else {
            match correlation_outcome(unit, x, y) {
                Err(fault) => Some(fault),
                Ok(_) => None,
            }
        },
    }
}

/// A variable and its target: each described on its own, their correlation
/// and population covariance, the least-squares line with its predictions,
/// and the three sums of squares.
#[derive(Debug, PartialEq)]
pub struct VariableTargetInfo {
    pub independent_variable_info: VariableInfo,
    pub dependent_variable_info: VariableInfo,
    pub correlation_coefficient: u64,
    pub covariance: u64,
    pub slope: u64,
    pub intercept: u64,
    pub predictions: SampleVector,
    pub sst: u64,
    pub sse: u64,
    pub ssr: u64,
}

impl VariableTargetInfo {
    /// Whether this is the report on `x` and its target `y`.
    pub open spec fn describes<F: Fn(Operation) -> u64>(
        &self,
        unit: F,
        x: Seq<u64>,
        y: Seq<u64>,
    ) -> bool {
        &&& Ok::<VariableInfo, StatsError>(self.independent_variable_info)
            == variable_info_outcome(unit, x)
        &&& Ok::<VariableInfo, StatsError>(self.dependent_variable_info) == variable_info_outcome(
            unit,
            y,
        )
        &&& Ok::<u64, StatsError>(self.correlation_coefficient) == correlation_outcome(unit, x, y)
        &&& self.covariance == population_covariance_of(unit, x, y)
        &&& self.slope == slope_of(unit, x, y)
        &&& self.intercept == intercept_of(unit, x, y)
        &&& self.predictions@ == fitted(unit, x, y)
        &&& self.sst == sst_of(unit, y)
        &&& self.sse == sse_of(unit, fitted(unit, x, y), y)
        &&& self.ssr == difference(unit, self.sst, self.sse)
    }
}

/// The slope of the least-squares line of `dependent_variable` on
/// `independent_variable`. There is none over a constant independent
/// variable.
pub fn get_best_fitting_slope<F: Fn(Operation) -> u64>(
    independent_variable: &SampleVector,
    dependent_variable: &SampleVector,
    unit: &F,
) -> (slope: Result<u64, StatsError>)
    requires
        is_unit(*unit),
    ensures
        slope == slope_outcome(*unit, independent_variable@, dependent_variable@),
{
    match check_pair(independent_variable, dependent_variable) {
        Some(fault) => {
            return Err(fault);
        },
        None => {},
    }
    if check_constant(independent_variable) {
        return Err(StatsError::DegenerateRegression);
    }
    let numerator_sum = co_deviation(independent_variable, dependent_variable, unit);
    let denominator_sum = sum_of_squares_of_items(independent_variable, unit);
    if is_zero(denominator_sum) {
        return Err(StatsError::DegenerateRegression);
    }
    Ok(over(unit, numerator_sum, denominator_sum))
}

/// The intercept of the least-squares line of `dependent_variable` on
/// `independent_variable`.
pub fn get_best_fitting_intercept<F: Fn(Operation) -> u64>(
    independent_variable: &SampleVector,
    dependent_variable: &SampleVector,
    unit: &F,
) -> (intercept: Result<u64, StatsError>)
    requires
        is_unit(*unit),
    ensures
        intercept == intercept_outcome(*unit, independent_variable@, dependent_variable@),
{
    let slope = match get_best_fitting_slope(independent_variable, dependent_variable, unit) {
        Ok(slope) => slope,
        Err(fault) => {
            return Err(fault);
        },
    };
    Ok(intercept_from(slope, independent_variable, dependent_variable, unit))
}

/// The intercept that goes with a slope.
fn intercept_from<F: Fn(Operation) -> u64>(
    slope: u64,
    independent_variable: &SampleVector,
    dependent_variable: &SampleVector,
    unit: &F,
) -> (intercept: u64)
    requires
        is_unit(*unit),
        independent_variable@.len() >= 1,
        dependent_variable@.len() >= 1,
    ensures
        intercept == difference(
            *unit,
            mean_of(*unit, dependent_variable@),
            product(*unit, slope, mean_of(*unit, independent_variable@)),
        ),
{
    let mean_dependent = mean_of_items(dependent_variable, unit);
    let mean_independent = mean_of_items(independent_variable, unit);
    minus(unit, mean_dependent, times(unit, slope, mean_independent))
}

/// Reports on a variable and its target. The line is fitted once, and its
/// predictions are made once, for both sums of squares that need them.
pub fn get_variable_target_info<F: Fn(Operation) -> u64>(
    independent_variable: &SampleVector,
    dependent_variable: &SampleVector,
    unit: &F,
) -> (report: Result<VariableTargetInfo, StatsError>)
    requires
        is_unit(*unit),
    ensures
        match report_fault(*unit, independent_variable@, dependent_variable@) {
            Some(fault) => report == Err::<VariableTargetInfo, StatsError>(fault),
            None => report matches Ok(info) && info.describes(
                *unit,
                independent_variable@,
                dependent_variable@,
            ),
        },
{
    let slope = match get_best_fitting_slope(independent_variable, dependent_variable, unit) {
        Ok(slope) => slope,
        Err(fault) => {
            return Err(fault);
        },
    };
    let intercept = intercept_from(slope, independent_variable, dependent_variable, unit);
    let predictions = match get_predictions(independent_variable, slope, intercept, unit) {
        Ok(predictions) => predictions,
        Err(fault) => {
            return Err(fault);
        },
    };
    let sst = match get_sst(dependent_variable, unit) {
        Ok(sst) => sst,
        Err(fault) => {
            return Err(fault);
        },
    };
    let sse = match get_sse(&predictions, dependent_variable, unit) {
        Ok(sse) => sse,
        Err(fault) => {
            return Err(fault);
        },
    };
    let correlation_coefficient = match get_correlation_coefficient(
        independent_variable,
        dependent_variable,
        unit,
    ) {
        Ok(coefficient) => coefficient,
        Err(fault) => {
            return Err(fault);
        },
    };
    let independent_variable_info = match get_variable_info(independent_variable, unit) {
        Ok(info) => info,
        Err(fault) => {
            return Err(fault);
        },
    };
    let dependent_variable_info = match get_variable_info(dependent_variable, unit) {
        Ok(info) => info,
        Err(fault) => {
            return Err(fault);
        },
    };
    let covariance = match get_population_covariance(
        independent_variable,
        dependent_variable,
        unit,
    ) {
        Ok(covariance) => covariance,
        Err(fault) => {
            return Err(fault);
        },
    };
    let ssr = minus(unit, sst, sse);
    Ok(
        VariableTargetInfo {
            independent_variable_info,
            dependent_variable_info,
            correlation_coefficient,
            covariance,
            slope,
            intercept,
            predictions,
            sst,
            sse,
            ssr,
        },
    )
}

} // verus!
