use simple_statistics::arithmetic::Operation;
use simple_statistics::arrays::{SampleVector, TabularArray};
use simple_statistics::association_matrix::{
    build_dense, build_triangular, columns_have_nan, get_correlation_coefficient_matrix,
    get_correlation_coefficient_matrix_maybe_expensive, get_covariance_matrix,
    get_covariance_matrix_maybe_expensive, matrix_dimension, usable_columns,
};
use simple_statistics::ieee::ONE;
use simple_statistics::utilities::{
    get_correlation_coefficient, get_sample_covariance, get_variance, RequestFault, StatsError,
};

fn float_unit(operation: Operation) -> u64 {
    let value = match operation {
        Operation::Add(a, b) => f64::from_bits(a) + f64::from_bits(b),
        Operation::Subtract(a, b) => f64::from_bits(a) - f64::from_bits(b),
        Operation::Multiply(a, b) => f64::from_bits(a) * f64::from_bits(b),
        Operation::Divide(a, b) => f64::from_bits(a) / f64::from_bits(b),
        Operation::SquareRoot(a) => f64::from_bits(a).sqrt(),
        Operation::FromCount(items) => items as f64,
    };
    value.to_bits()
}

fn table(columns: &[Vec<f64>]) -> TabularArray {
    let height = columns[0].len();
    let rows: Vec<Vec<u64>> = (0..height)
        .map(|i| columns.iter().map(|column| column[i].to_bits()).collect())
        .collect();
    TabularArray::from_rows(columns.len(), &rows).unwrap()
}

fn with_label(mut columns: Vec<Vec<f64>>) -> TabularArray {
    let height = columns[0].len();
    columns.push((0..height).map(|i| (i % 2) as f64).collect());
    table(&columns)
}

fn vector(values: &[f64]) -> SampleVector {
    SampleVector::from_vec(values.iter().map(|x| x.to_bits()).collect())
}

fn columns() -> Vec<Vec<f64>> {
    vec![
        vec![12.0, 30.0, 15.0, 24.0, 14.0, 18.0, 28.0, 26.0, 19.0, 27.0],
        vec![20.0, 60.0, 27.0, 50.0, 21.0, 30.0, 61.0, 54.0, 32.0, 57.0],
        vec![3.5, -1.25, 8.0, 0.5, 2.0, 9.75, -4.0, 6.5, 1.0, 7.25],
    ]
}

fn mean(v: &[f64]) -> f64 {
    v.iter().sum::<f64>() / v.len() as f64
}

fn covariance(x: &[f64], y: &[f64]) -> f64 {
    let mean_x = mean(x);
    let mean_y = mean(y);
    let mut numerator = 0.0;
    for (x_i, y_i) in x.iter().zip(y) {
        numerator += (x_i - mean_x) * (y_i - mean_y);
    }
    numerator / (x.len() as f64 - 1.0)
}

fn correlation(x: &[f64], y: &[f64]) -> f64 {
    covariance(x, y) / (covariance(x, x).sqrt() * covariance(y, y).sqrt())
}

#[test]
fn the_last_column_is_left_out() {
    assert_eq!(usable_columns(10, 4), Ok(3));
    assert_eq!(usable_columns(4, 4), Ok(3));
    assert_eq!(usable_columns(10, 1), Ok(0));
    assert_eq!(usable_columns(10, 0), Ok(0));
    assert_eq!(usable_columns(0, 0), Ok(0));
}

#[test]
fn more_columns_than_rows_are_refused() {
    let too_few = Err(StatsError::InvalidSampleRequest(RequestFault::TooFewRows));
    assert_eq!(usable_columns(3, 4), too_few);
    assert_eq!(usable_columns(0, 1), too_few);
}

#[test]
fn a_triangular_build_is_symmetric() {
    let built = build_triangular(
        4,
        |i: usize| Ok((1000 + i) as u64),
        |i: usize, j: usize| Ok((10 * i + j) as u64),
    )
    .unwrap();
    assert_eq!(
        built.to_rows(),
        vec![
            vec![1000, 1, 2, 3],
            vec![1, 1001, 12, 13],
            vec![2, 12, 1002, 23],
            vec![3, 13, 23, 1003],
        ]
    );
}

#[test]
fn a_dense_build_asks_for_every_cell() {
    let built = build_dense(3, |i: usize, j: usize| Ok((10 * i + j) as u64)).unwrap();
    assert_eq!(
        built.to_rows(),
        vec![vec![0, 1, 2], vec![10, 11, 12], vec![20, 21, 22]]
    );
}

#[test]
fn a_build_of_no_columns_is_empty() {
    let triangular =
        build_triangular(0, |_: usize| Ok(0), |_: usize, _: usize| Ok(0)).unwrap();
    assert_eq!(triangular.nrows(), 0);
    assert_eq!(triangular.ncols(), 0);
    let dense = build_dense(0, |_: usize, _: usize| Ok(0)).unwrap();
    assert_eq!(dense.nrows(), 0);
    assert_eq!(dense.ncols(), 0);
}

#[test]
fn a_failing_cell_ends_the_build() {
    let failing = |i: usize, j: usize| {
        if i == 1 && j == 2 {
            Err(StatsError::ContainsNaN)
        } else {
            Ok(7)
        }
    };
    let triangular = build_triangular(3, |_: usize| Ok(1), failing);
    assert_eq!(triangular.err(), Some(StatsError::ContainsNaN));
    let dense = build_dense(3, failing);
    assert_eq!(dense.err(), Some(StatsError::ContainsNaN));
}

#[test]
fn a_failing_diagonal_ends_the_build() {
    let diagonal = |i: usize| {
        if i == 2 {
            Err(StatsError::InsufficientSamples)
        } else {
            Ok(1)
        }
    };
    let built = build_triangular(3, diagonal, |_: usize, _: usize| Ok(7));
    assert_eq!(built.err(), Some(StatsError::InsufficientSamples));
}

#[test]
fn the_triangular_build_never_asks_below_the_diagonal() {
    let upper_only = |i: usize, j: usize| {
        if i < j {
            Ok((10 * i + j) as u64)
        } else {
            Err(StatsError::LengthMismatch)
        }
    };
    let built = build_triangular(3, |_: usize| Ok(5), upper_only).unwrap();
    assert_eq!(built.to_rows(), vec![vec![5, 1, 2], vec![1, 5, 12], vec![2, 12, 5]]);
    assert_eq!(build_dense(3, upper_only).err(), Some(StatsError::LengthMismatch));
}

#[test]
fn covariance_matrices_agree_cell_by_cell() {
    let data = columns();
    let pair = |i: usize, j: usize| Ok(covariance(&data[i], &data[j]).to_bits());
    let diagonal = |i: usize| Ok(covariance(&data[i], &data[i]).to_bits());
    let triangular = build_triangular(3, diagonal, pair).unwrap();
    let dense = build_dense(3, pair).unwrap();
    assert_eq!(triangular, dense);
    for i in 0..3 {
        for j in 0..3 {
            assert_eq!(triangular.get(i, j), triangular.get(j, i));
            let one = f64::from_bits(triangular.get(i, j));
            let other = f64::from_bits(dense.get(i, j));
            assert!((one - other).abs() <= 1e-9);
        }
    }
    let cell = f64::from_bits(triangular.get(0, 1));
    assert!((cell - 106.933).abs() < 1e-3);
}

#[test]
fn correlation_matrices_agree_within_tolerance() {
    let data = columns();
    let pair = |i: usize, j: usize| Ok(correlation(&data[i], &data[j]).to_bits());
    let triangular = build_triangular(3, |_: usize| Ok(ONE), pair).unwrap();
    let dense = build_dense(3, pair).unwrap();
    for i in 0..3 {
        assert_eq!(f64::from_bits(triangular.get(i, i)), 1.0);
        for j in 0..3 {
            let one = f64::from_bits(triangular.get(i, j));
            let other = f64::from_bits(dense.get(i, j));
            assert!((one - other).abs() <= 1e-9);
            if i != j {
                assert_eq!(triangular.get(i, j), dense.get(i, j));
            }
        }
    }
}

#[test]
fn a_column_is_read_top_to_bottom() {
    let data = table(&columns());
    assert_eq!(data.nrows(), 10);
    assert_eq!(data.ncols(), 3);
    assert_eq!(data.column(0), vector(&columns()[0]));
    assert_eq!(data.column(2), vector(&columns()[2]));
}

#[test]
fn the_covariance_matrix_of_the_example() {
    let data = with_label(columns());
    let matrix = get_covariance_matrix(&data, &float_unit).unwrap();
    assert_eq!(matrix.nrows(), 3);
    assert_eq!(matrix.ncols(), 3);
    for i in 0..3 {
        let column = vector(&columns()[i]);
        assert_eq!(Ok(matrix.get(i, i)), get_variance(&column, &float_unit));
        for j in 0..3 {
            let other = vector(&columns()[j]);
            assert_eq!(matrix.get(i, j), matrix.get(j, i));
            if i <= j {
                assert_eq!(
                    Ok(matrix.get(i, j)),
                    get_sample_covariance(&column, &other, &float_unit)
                );
            }
        }
    }
    assert!((f64::from_bits(matrix.get(0, 1)) - 106.933).abs() < 1e-3);
}

#[test]
fn the_last_column_takes_no_part() {
    let data = table(&columns());
    let matrix = get_covariance_matrix(&data, &float_unit).unwrap();
    assert_eq!(matrix.nrows(), 2);
    assert_eq!(matrix.ncols(), 2);
    let mut spoiled = columns();
    spoiled[2][4] = f64::NAN;
    let same = get_covariance_matrix(&table(&spoiled), &float_unit).unwrap();
    assert_eq!(matrix, same);
    let same = get_correlation_coefficient_matrix(&table(&spoiled), &float_unit).unwrap();
    assert_eq!(same.nrows(), 2);
}

#[test]
fn both_builds_make_the_same_covariance_matrix() {
    let data = with_label(columns());
    let triangular = get_covariance_matrix(&data, &float_unit).unwrap();
    let dense = get_covariance_matrix_maybe_expensive(&data, &float_unit).unwrap();
    assert_eq!(triangular, dense);
    for i in 0..3 {
        for j in 0..3 {
            let one = f64::from_bits(triangular.get(i, j));
            let other = f64::from_bits(dense.get(i, j));
            assert!((one - other).abs() <= 1e-9);
        }
    }
}

#[test]
fn both_builds_make_the_same_correlation_matrix_within_tolerance() {
    let data = with_label(columns());
    let triangular = get_correlation_coefficient_matrix(&data, &float_unit).unwrap();
    let dense = get_correlation_coefficient_matrix_maybe_expensive(&data, &float_unit).unwrap();
    for i in 0..3 {
        assert_eq!(triangular.get(i, i), ONE);
        for j in 0..3 {
            let one = f64::from_bits(triangular.get(i, j));
            let other = f64::from_bits(dense.get(i, j));
            assert!((one - other).abs() <= 1e-9);
            assert_eq!(triangular.get(i, j), triangular.get(j, i));
            if i != j {
                assert_eq!(triangular.get(i, j), dense.get(i, j));
                let column = vector(&columns()[i]);
                let other = vector(&columns()[j]);
                assert_eq!(
                    Ok(dense.get(i, j)),
                    get_correlation_coefficient(&column, &other, &float_unit)
                );
            }
        }
    }
}

#[test]
fn a_nan_in_a_column_ends_every_build() {
    let mut spoiled = columns();
    spoiled[1][3] = f64::NAN;
    let data = with_label(spoiled);
    assert!(columns_have_nan(&data, 3));
    assert!(columns_have_nan(&data, 2));
    assert!(!columns_have_nan(&data, 1));
    assert!(!columns_have_nan(&data, 0));
    let refused = Some(StatsError::ContainsNaN);
    assert_eq!(get_covariance_matrix(&data, &float_unit).err(), refused);
    assert_eq!(get_covariance_matrix_maybe_expensive(&data, &float_unit).err(), refused);
    assert_eq!(get_correlation_coefficient_matrix(&data, &float_unit).err(), refused);
    assert_eq!(
        get_correlation_coefficient_matrix_maybe_expensive(&data, &float_unit).err(),
        refused
    );
}

#[test]
fn a_constant_column_ends_the_correlation_builds() {
    let mut flat = columns();
    flat[1] = vec![2.5; 10];
    let data = with_label(flat);
    let refused = Some(StatsError::DegenerateRegression);
    assert_eq!(get_correlation_coefficient_matrix(&data, &float_unit).err(), refused);
    assert_eq!(
        get_correlation_coefficient_matrix_maybe_expensive(&data, &float_unit).err(),
        refused
    );
    let covariance = get_covariance_matrix(&data, &float_unit).unwrap();
    assert_eq!(f64::from_bits(covariance.get(1, 1)), 0.0);
    assert_eq!(f64::from_bits(covariance.get(0, 1)), 0.0);
}

#[test]
fn a_single_constant_column_correlates_with_itself_in_the_triangular_build_only() {
    let data = with_label(vec![vec![2.5; 4]]);
    let triangular = get_correlation_coefficient_matrix(&data, &float_unit).unwrap();
    assert_eq!(triangular.to_rows(), vec![vec![ONE]]);
    assert_eq!(
        get_correlation_coefficient_matrix_maybe_expensive(&data, &float_unit).err(),
        Some(StatsError::DegenerateRegression)
    );
}

#[test]
fn an_array_with_more_columns_than_rows_has_no_matrix() {
    let wide = table(&[vec![1.0, 2.0], vec![3.0, 4.0], vec![5.0, 6.0]]);
    let refused = Some(StatsError::InvalidSampleRequest(RequestFault::TooFewRows));
    assert_eq!(get_covariance_matrix(&wide, &float_unit).err(), refused);
    assert_eq!(get_covariance_matrix_maybe_expensive(&wide, &float_unit).err(), refused);
    assert_eq!(get_correlation_coefficient_matrix(&wide, &float_unit).err(), refused);
    assert_eq!(
        get_correlation_coefficient_matrix_maybe_expensive(&wide, &float_unit).err(),
        refused
    );
}

#[test]
fn an_array_of_one_column_has_an_empty_matrix() {
    let narrow = table(&[vec![1.0, f64::NAN, 3.0]]);
    let matrix = get_covariance_matrix(&narrow, &float_unit).unwrap();
    assert_eq!(matrix.nrows(), 0);
    assert_eq!(matrix.ncols(), 0);
    let none = TabularArray::with_columns(0).unwrap();
    assert_eq!(get_correlation_coefficient_matrix(&none, &float_unit).unwrap().nrows(), 0);
}

#[test]
fn a_square_array_has_a_matrix() {
    let square = table(&[vec![1.0, 2.0, 4.0], vec![3.0, 5.0, 4.0], vec![0.0, 0.0, 1.0]]);
    let matrix = get_covariance_matrix(&square, &float_unit).unwrap();
    assert_eq!(matrix.nrows(), 2);
    assert!((f64::from_bits(matrix.get(0, 0)) - 7.0 / 3.0).abs() <= 1e-9);
    assert_eq!(f64::from_bits(matrix.get(1, 1)), 1.0);
    assert_eq!(f64::from_bits(matrix.get(0, 1)), 0.5);
    assert_eq!(f64::from_bits(matrix.get(1, 0)), 0.5);
}

#[test]
fn a_matrix_beyond_the_storage_limit_is_refused() {
    let too_large = Some(StatsError::InvalidSampleRequest(RequestFault::TooLarge));
    let dense = build_dense(usize::MAX, |_: usize, _: usize| Ok(0));
    assert_eq!(dense.err(), too_large);
    let triangular = build_triangular(1 << 32, |_: usize| Ok(0), |_: usize, _: usize| Ok(0));
    assert_eq!(triangular.err(), too_large);
}

#[test]
fn the_dimension_of_the_matrices_of_an_array() {
    assert_eq!(matrix_dimension(&with_label(columns())), Ok(3));
    assert_eq!(matrix_dimension(&table(&columns())), Ok(2));
    assert_eq!(matrix_dimension(&table(&[vec![1.0, f64::NAN]])), Ok(0));
    assert_eq!(
        matrix_dimension(&table(&[vec![1.0, f64::NAN], vec![1.0, 2.0]])),
        Err(StatsError::ContainsNaN)
    );
    assert_eq!(
        matrix_dimension(&table(&[vec![1.0], vec![1.0]])),
        Err(StatsError::InvalidSampleRequest(RequestFault::TooFewRows))
    );
}
