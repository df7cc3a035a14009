use simple_statistics::arrays::SampleVector;
use simple_statistics::utilities::{
    check_constant, check_for_variance, check_pair, check_residuals, check_sample_pair,
    check_vector, check_vector_for_nans, check_vectors_for_equal_length, has_nan, RequestFault,
    StatsError,
};

fn sample(values: &[f64]) -> SampleVector {
    SampleVector::from_vec(values.iter().map(|x| x.to_bits()).collect())
}

#[test]
fn a_nan_is_found_wherever_it_stands() {
    assert!(has_nan(&sample(&[f64::NAN, 1.0, 2.0])));
    assert!(has_nan(&sample(&[1.0, f64::NAN, 2.0])));
    assert!(has_nan(&sample(&[1.0, 2.0, -f64::NAN])));
    assert!(has_nan(&sample(&[f64::NAN])));
    assert!(!has_nan(&sample(&[1.0, f64::INFINITY, f64::NEG_INFINITY, 0.0, -0.0])));
    assert!(!has_nan(&sample(&[])));
}

#[test]
fn a_checked_vector_is_handed_back() {
    let vector = sample(&[3.0, 4.0]);
    let checked = check_vector_for_nans(&vector).unwrap();
    assert_eq!(checked.to_vec(), vec![3.0f64.to_bits(), 4.0f64.to_bits()]);
    let empty = sample(&[]);
    assert_eq!(check_vector_for_nans(&empty), Ok(&empty));
}

#[test]
fn vectors_of_different_lengths_are_refused() {
    let vec1 = sample(&[1.0, 2.0, 3.0]);
    let vec2 = sample(&[1.0, 2.0]);
    assert_eq!(
        check_vectors_for_equal_length(&vec1, &vec2),
        Err(StatsError::LengthMismatch)
    );
    assert_eq!(
        check_vectors_for_equal_length(&vec2, &vec1),
        Err(StatsError::LengthMismatch)
    );
    assert_eq!(check_vectors_for_equal_length(&vec1, &vec1), Ok(()));
    assert_eq!(
        check_vectors_for_equal_length(&sample(&[]), &sample(&[])),
        Ok(())
    );
}

#[test]
fn one_vector_is_checked_for_nan_first() {
    assert_eq!(check_vector(&sample(&[])), Some(StatsError::EmptyInput));
    assert_eq!(check_vector(&sample(&[1.0, f64::NAN])), Some(StatsError::ContainsNaN));
    assert_eq!(check_vector(&sample(&[f64::NAN])), Some(StatsError::ContainsNaN));
    assert_eq!(check_vector(&sample(&[1.0])), None);
}

#[test]
fn a_variance_needs_two_items() {
    assert_eq!(check_for_variance(&sample(&[])), Some(StatsError::EmptyInput));
    assert_eq!(check_for_variance(&sample(&[f64::NAN])), Some(StatsError::ContainsNaN));
    assert_eq!(check_for_variance(&sample(&[1.0])), Some(StatsError::InsufficientSamples));
    assert_eq!(check_for_variance(&sample(&[1.0, 1.0])), None);
}

#[test]
fn pairs_are_checked_length_first() {
    let short = sample(&[1.0, f64::NAN]);
    let long = sample(&[1.0, 2.0, 3.0]);
    let empty = sample(&[]);
    let clean = sample(&[1.0, 2.0]);
    let single = sample(&[1.0]);
    assert_eq!(check_pair(&short, &long), Some(StatsError::LengthMismatch));
    assert_eq!(check_pair(&empty, &long), Some(StatsError::LengthMismatch));
    assert_eq!(check_pair(&short, &clean), Some(StatsError::ContainsNaN));
    assert_eq!(check_pair(&clean, &short), Some(StatsError::ContainsNaN));
    assert_eq!(check_pair(&empty, &empty), Some(StatsError::EmptyInput));
    assert_eq!(check_pair(&clean, &clean), None);
    assert_eq!(check_pair(&single, &single), None);
    assert_eq!(check_sample_pair(&single, &single), Some(StatsError::InsufficientSamples));
    assert_eq!(check_sample_pair(&clean, &clean), None);
    assert_eq!(check_sample_pair(&short, &long), Some(StatsError::LengthMismatch));
    assert_eq!(check_sample_pair(&empty, &empty), Some(StatsError::EmptyInput));
}

#[test]
fn residuals_may_be_none_at_all() {
    let empty = sample(&[]);
    let clean = sample(&[1.0, 2.0]);
    let spoiled = sample(&[1.0, f64::NAN]);
    assert_eq!(check_residuals(&empty, &empty), None);
    assert_eq!(check_residuals(&clean, &clean), None);
    assert_eq!(check_residuals(&spoiled, &clean), Some(StatsError::ContainsNaN));
    assert_eq!(check_residuals(&clean, &spoiled), Some(StatsError::ContainsNaN));
    assert_eq!(check_residuals(&spoiled, &empty), Some(StatsError::LengthMismatch));
}

#[test]
fn constant_vectors_are_told_apart() {
    assert!(check_constant(&sample(&[])));
    assert!(check_constant(&sample(&[7.5])));
    assert!(check_constant(&sample(&[7.5, 7.5, 7.5])));
    assert!(check_constant(&sample(&[0.0, -0.0, 0.0])));
    assert!(check_constant(&sample(&[f64::INFINITY, f64::INFINITY])));
    assert!(!check_constant(&sample(&[7.5, 7.5, 7.500000000000001])));
    assert!(!check_constant(&sample(&[1.0, -1.0])));
    assert!(!check_constant(&sample(&[f64::INFINITY, f64::NEG_INFINITY])));
}

#[test]
fn every_error_has_its_text() {
    assert_eq!(StatsError::EmptyInput.message(), "Vector cannot be empty");
    assert_eq!(StatsError::ContainsNaN.message(), "Vector must not contain nans!");
    assert_eq!(StatsError::LengthMismatch.message(), "Vector lengths do not match!");
    assert_eq!(
        StatsError::InsufficientSamples.message(),
        "Too few observations for this estimator!"
    );
    assert_eq!(StatsError::DegenerateRegression.message(), "Division by a zero spread!");
    assert_eq!(StatsError::UnsupportedSignificanceLevel.message(), "No suitable alpha level.");
    assert_eq!(
        StatsError::InvalidSampleRequest(RequestFault::TooFewRows).message(),
        "Number of rows must be great than number of columns!"
    );
    assert_eq!(
        StatsError::InvalidSampleRequest(RequestFault::TooManyElements).message(),
        "You want to sample more elements than those that are contained in the array"
    );
    assert_eq!(
        StatsError::InvalidSampleRequest(RequestFault::TooLarge).message(),
        "The array is too large for this request"
    );
}
