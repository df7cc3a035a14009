use simple_statistics::arithmetic::Operation;
use simple_statistics::arrays::SampleVector;
use simple_statistics::simple_linear_regression::{
    get_best_fitting_intercept, get_best_fitting_slope, get_variable_target_info,
};
use simple_statistics::utilities::{
    get_coefficient_of_determination, get_correlation_coefficient, get_mse,
    get_population_covariance, get_predictions, get_sse, get_ssr, get_sst, get_standard_error,
    get_variable_info, StatsError,
};

fn float_unit(operation: Operation) -> u64 {
    let value = match operation {
        Operation::Add(a, b) => f64::from_bits(a) + f64::from_bits(b),
        Operation::Subtract(a, b) => f64::from_bits(a) - f64::from_bits(b),
        Operation::Multiply(a, b) => f64::from_bits(a) * f64::from_bits(b),
        Operation::Divide(a, b) => f64::from_bits(a) / f64::from_bits(b),
        Operation::SquareRoot(a) => f64::from_bits(a).sqrt(),
        Operation::FromCount(items) => items as f64,
    };
    value.to_bits()
}

fn sample(values: &[f64]) -> SampleVector {
    SampleVector::from_vec(values.iter().map(|x| x.to_bits()).collect())
}

fn floats(vector: &SampleVector) -> Vec<f64> {
    vector.to_vec().into_iter().map(f64::from_bits).collect()
}

fn float(outcome: Result<u64, StatsError>) -> f64 {
    f64::from_bits(outcome.unwrap())
}

fn close(one: f64, other: f64) -> bool {
    (one - other).abs() <= 1e-9
}

fn x() -> SampleVector {
    sample(&[34.0, 108.0, 64.0, 88.0, 99.0, 51.0])
}

fn y() -> SampleVector {
    sample(&[5.0, 17.0, 11.0, 8.0, 14.0, 5.0])
}

#[test]
fn the_line_through_the_example() {
    let slope = float(get_best_fitting_slope(&x(), &y(), &float_unit));
    let intercept = float(get_best_fitting_intercept(&x(), &y(), &float_unit));
    assert!((slope - 0.146).abs() < 5e-4);
    assert!((intercept + 0.820).abs() < 5e-4);
    assert!(close(slope, 615.0 / 4206.0));
    assert!(close(intercept, 10.0 - 615.0 / 4206.0 * 74.0));
}

#[test]
fn a_line_through_two_points() {
    let slope = float(get_best_fitting_slope(&sample(&[1.0, 3.0]), &sample(&[5.0, 9.0]), &float_unit));
    let intercept =
        float(get_best_fitting_intercept(&sample(&[1.0, 3.0]), &sample(&[5.0, 9.0]), &float_unit));
    assert_eq!(slope, 2.0);
    assert_eq!(intercept, 3.0);
}

#[test]
fn no_line_over_a_constant_variable() {
    let degenerate = Err(StatsError::DegenerateRegression);
    let constant = sample(&[4.0, 4.0, 4.0]);
    let tenths = sample(&[0.1, 0.1, 0.1]);
    let target = sample(&[1.0, 2.0, 3.0]);
    assert_eq!(get_best_fitting_slope(&constant, &target, &float_unit), degenerate);
    assert_eq!(get_best_fitting_intercept(&constant, &target, &float_unit), degenerate);
    assert_eq!(get_best_fitting_slope(&tenths, &target, &float_unit), degenerate);
    assert_eq!(get_best_fitting_slope(&sample(&[2.0]), &sample(&[3.0]), &float_unit), degenerate);
    assert_eq!(
        get_variable_target_info(&constant, &target, &float_unit),
        Err(StatsError::DegenerateRegression)
    );
}

#[test]
fn no_line_over_a_vanishing_sum_of_squares() {
    let tiny = sample(&[1e-200, 2e-200, 3e-200]);
    let target = sample(&[1.0, 2.0, 3.0]);
    assert_eq!(
        get_best_fitting_slope(&tiny, &target, &float_unit),
        Err(StatsError::DegenerateRegression)
    );
}

#[test]
fn a_flat_line_under_a_constant_target() {
    let target = sample(&[7.0, 7.0, 7.0]);
    let variable = sample(&[1.0, 2.0, 3.0]);
    assert_eq!(float(get_best_fitting_slope(&variable, &target, &float_unit)), 0.0);
    assert_eq!(float(get_best_fitting_intercept(&variable, &target, &float_unit)), 7.0);
}

#[test]
fn a_line_refuses_what_a_pair_refuses() {
    let three = sample(&[1.0, 2.0, 3.0]);
    let two = sample(&[1.0, 2.0]);
    let spoiled = sample(&[1.0, f64::NAN, 3.0]);
    let empty = sample(&[]);
    assert_eq!(get_best_fitting_slope(&three, &two, &float_unit), Err(StatsError::LengthMismatch));
    assert_eq!(get_best_fitting_slope(&three, &spoiled, &float_unit), Err(StatsError::ContainsNaN));
    assert_eq!(get_best_fitting_slope(&spoiled, &three, &float_unit), Err(StatsError::ContainsNaN));
    assert_eq!(get_best_fitting_slope(&empty, &empty, &float_unit), Err(StatsError::EmptyInput));
    assert_eq!(
        get_best_fitting_intercept(&three, &two, &float_unit),
        Err(StatsError::LengthMismatch)
    );
    assert_eq!(
        get_variable_target_info(&three, &spoiled, &float_unit),
        Err(StatsError::ContainsNaN)
    );
}

#[test]
fn predictions_follow_the_line() {
    let made = get_predictions(
        &sample(&[0.0, 1.0, -2.0, 10.0]),
        3.0f64.to_bits(),
        0.5f64.to_bits(),
        &float_unit,
    )
    .unwrap();
    assert_eq!(floats(&made), vec![0.5, 3.5, -5.5, 30.5]);
}

#[test]
fn predictions_of_nothing_are_nothing() {
    let made = get_predictions(&sample(&[]), 3.0f64.to_bits(), 0.5f64.to_bits(), &float_unit);
    assert_eq!(made.unwrap().len(), 0);
}

#[test]
fn predictions_refuse_a_nan() {
    let made = get_predictions(
        &sample(&[0.0, f64::NAN]),
        3.0f64.to_bits(),
        0.5f64.to_bits(),
        &float_unit,
    );
    assert_eq!(made, Err(StatsError::ContainsNaN));
}

#[test]
fn sums_of_squares_of_the_example() {
    let slope = get_best_fitting_slope(&x(), &y(), &float_unit).unwrap();
    let intercept = get_best_fitting_intercept(&x(), &y(), &float_unit).unwrap();
    let predictions = get_predictions(&x(), slope, intercept, &float_unit).unwrap();
    let sst = float(get_sst(&y(), &float_unit));
    let sse = float(get_sse(&predictions, &y(), &float_unit));
    let ssr = float(get_ssr(&predictions, &y(), &float_unit));
    assert_eq!(sst, 120.0);
    assert!((sse - 30.075).abs() < 1e-3);
    assert!((ssr - 89.925).abs() < 1e-3);
    assert_eq!(ssr, sst - sse);
}

#[test]
fn the_sums_of_squares_add_up() {
    let slope = get_best_fitting_slope(&x(), &y(), &float_unit).unwrap();
    let intercept = get_best_fitting_intercept(&x(), &y(), &float_unit).unwrap();
    let predictions = get_predictions(&x(), slope, intercept, &float_unit).unwrap();
    let sst = float(get_sst(&y(), &float_unit));
    let sse = float(get_sse(&predictions, &y(), &float_unit));
    let ssr = float(get_ssr(&predictions, &y(), &float_unit));
    assert!(close(sse + ssr, sst));

    let other = sample(&[3.0, -1.0, 4.0, 1.0, -5.0, 9.0]);
    let sst = float(get_sst(&y(), &float_unit));
    let sse = float(get_sse(&other, &y(), &float_unit));
    let ssr = float(get_ssr(&other, &y(), &float_unit));
    assert!(close(sse + ssr, sst));
}

#[test]
fn squared_errors_of_exact_predictions_are_zero() {
    assert_eq!(float(get_sse(&y(), &y(), &float_unit)), 0.0);
    assert_eq!(float(get_ssr(&y(), &y(), &float_unit)), 120.0);
    assert_eq!(float(get_coefficient_of_determination(&y(), &y(), &float_unit)), 1.0);
}

#[test]
fn squared_errors_of_nothing_are_zero() {
    let empty = sample(&[]);
    assert_eq!(get_sse(&empty, &empty, &float_unit), Ok(0.0f64.to_bits()));
    assert_eq!(get_sst(&empty, &float_unit), Err(StatsError::EmptyInput));
    assert_eq!(get_ssr(&empty, &empty, &float_unit), Err(StatsError::EmptyInput));
    assert_eq!(
        get_coefficient_of_determination(&empty, &empty, &float_unit),
        Err(StatsError::EmptyInput)
    );
    assert_eq!(get_mse(&empty, &empty, &float_unit), Err(StatsError::InsufficientSamples));
}

#[test]
fn squared_errors_are_checked_on_both_sides() {
    let predictions = sample(&[4.1512, 14.9715, 8.5378, 12.0471, 13.6555, 6.6369]);
    let spoiled = sample(&[5.0, 17.0, f64::NAN, 8.0, 14.0, 5.0]);
    let short = sample(&[5.0, 17.0]);
    assert_eq!(get_sse(&spoiled, &y(), &float_unit), Err(StatsError::ContainsNaN));
    assert_eq!(get_sse(&predictions, &spoiled, &float_unit), Err(StatsError::ContainsNaN));
    assert_eq!(get_sse(&predictions, &short, &float_unit), Err(StatsError::LengthMismatch));
    assert_eq!(get_ssr(&predictions, &short, &float_unit), Err(StatsError::LengthMismatch));
    assert_eq!(get_ssr(&spoiled, &y(), &float_unit), Err(StatsError::ContainsNaN));
    assert_eq!(get_mse(&predictions, &short, &float_unit), Err(StatsError::LengthMismatch));
    assert_eq!(
        get_standard_error(&spoiled, &y(), &float_unit),
        Err(StatsError::ContainsNaN)
    );
    assert_eq!(
        get_coefficient_of_determination(&predictions, &spoiled, &float_unit),
        Err(StatsError::ContainsNaN)
    );
}

#[test]
fn the_mean_squared_error_divides_by_two_less() {
    let predictions = sample(&[1.0, 2.0, 3.0, 4.0]);
    let observations = sample(&[2.0, 2.0, 5.0, 4.0]);
    assert_eq!(float(get_sse(&predictions, &observations, &float_unit)), 5.0);
    assert_eq!(float(get_mse(&predictions, &observations, &float_unit)), 2.5);
    assert_eq!(
        float(get_standard_error(&predictions, &observations, &float_unit)),
        2.5f64.sqrt()
    );
    let three = sample(&[1.0, 2.0, 3.0]);
    let targets = sample(&[1.0, 2.0, 5.0]);
    assert_eq!(float(get_mse(&three, &targets, &float_unit)), 4.0);
}

#[test]
fn the_mean_squared_error_needs_three_observations() {
    let two = sample(&[1.0, 2.0]);
    let one = sample(&[1.0]);
    assert_eq!(get_mse(&two, &two, &float_unit), Err(StatsError::InsufficientSamples));
    assert_eq!(get_mse(&one, &one, &float_unit), Err(StatsError::InsufficientSamples));
    assert_eq!(get_standard_error(&two, &two, &float_unit), Err(StatsError::InsufficientSamples));
}

#[test]
fn a_report_holds_what_the_single_statistics_give() {
    let report = get_variable_target_info(&x(), &y(), &float_unit).unwrap();
    assert_eq!(Ok(report.independent_variable_info), get_variable_info(&x(), &float_unit));
    assert_eq!(Ok(report.dependent_variable_info), get_variable_info(&y(), &float_unit));
    assert_eq!(
        Ok(report.correlation_coefficient),
        get_correlation_coefficient(&x(), &y(), &float_unit)
    );
    assert_eq!(Ok(report.covariance), get_population_covariance(&x(), &y(), &float_unit));
    assert_eq!(Ok(report.slope), get_best_fitting_slope(&x(), &y(), &float_unit));
    assert_eq!(Ok(report.intercept), get_best_fitting_intercept(&x(), &y(), &float_unit));
    let predictions =
        get_predictions(&x(), report.slope, report.intercept, &float_unit).unwrap();
    assert_eq!(report.predictions, predictions);
    assert_eq!(Ok(report.sst), get_sst(&y(), &float_unit));
    assert_eq!(Ok(report.sse), get_sse(&predictions, &y(), &float_unit));
    assert_eq!(Ok(report.ssr), get_ssr(&predictions, &y(), &float_unit));
}

#[test]
fn a_report_on_the_example() {
    let report = get_variable_target_info(&x(), &y(), &float_unit).unwrap();
    assert!((f64::from_bits(report.slope) - 0.146).abs() < 5e-4);
    assert!((f64::from_bits(report.intercept) + 0.820).abs() < 5e-4);
    assert!((f64::from_bits(report.correlation_coefficient) - 0.866).abs() < 5e-4);
    assert!(close(f64::from_bits(report.covariance), 102.5));
    assert_eq!(f64::from_bits(report.sst), 120.0);
    assert!((f64::from_bits(report.sse) - 30.075).abs() < 1e-3);
    assert!((f64::from_bits(report.ssr) - 89.925).abs() < 1e-3);
    assert_eq!(f64::from_bits(report.independent_variable_info.mean), 74.0);
    assert_eq!(f64::from_bits(report.dependent_variable_info.mean), 10.0);
    let expected = [4.1512, 14.9715, 8.5378, 12.0471, 13.6555, 6.6369];
    for (made, wanted) in floats(&report.predictions).iter().zip(expected) {
        assert!((made - wanted).abs() < 1e-4);
    }
}

#[test]
fn no_report_on_a_constant_target() {
    let target = sample(&[7.0, 7.0, 7.0]);
    let variable = sample(&[1.0, 2.0, 3.0]);
    assert_eq!(
        get_variable_target_info(&variable, &target, &float_unit),
        Err(StatsError::DegenerateRegression)
    );
}

#[test]
fn no_report_where_a_prediction_is_no_number() {
    let variable = sample(&[f64::MAX, -f64::MAX, 0.0]);
    let target = sample(&[1.0, 2.0, 4.0]);
    let report = get_variable_target_info(&variable, &target, &float_unit);
    assert_eq!(report, Err(StatsError::ContainsNaN));
}
