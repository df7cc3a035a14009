//! The covariance and the correlation matrix of the columns of a tabular
//! array, each built twice: once with the symmetry of the statistic put to
//! use, once cell by cell.
//!
//! Both builds are written once, for any statistic, which is handed in as a
//! function from column indices to a cell; a cell that fails ends the whole
//! build with its error.

use crate::arithmetic::{is_unit, multiplication_commutes, Operation};
use crate::arrays::{
    column_of, lemma_storage_fits_fewer_rows, shape_fits, storage_fits, table_column, table_get,
    table_ncols, table_nrows, table_push_row, table_with_columns, SampleVector, TabularArray,
};
use crate::ieee::ONE;
use crate::utilities::{
    contains_nan, correlation_of, correlation_outcome, get_correlation_coefficient,
    get_sample_covariance, get_variance, has_nan, lemma_co_deviation_symmetric,
    sample_covariance_of, sample_covariance_outcome, variance_of, variance_outcome,
    RequestFault, StatsError,
};
use vstd::prelude::*;

verus! {

/// The number of columns that take part in a matrix: all but the last, which
/// is kept for a label. An array with more columns than rows is refused.
pub open spec fn usable_columns_of(rows: nat, columns: nat) -> Result<usize, StatsError> {
    if columns > rows {
        Err(StatsError::InvalidSampleRequest(RequestFault::TooFewRows))
    } else if columns == 0 {
        Ok(0)
    } else {
        Ok((columns - 1) as usize)
    }
}

/// Whether `cells` has `dimension` rows of `dimension` cells each.
pub open spec fn is_square(cells: Seq<Seq<u64>>, dimension: nat) -> bool {
    cells.len() == dimension && forall|i: int|
        0 <= i < dimension ==> (#[trigger] cells[i]).len() == dimension
}

/// Whether `cells` is symmetric: the cell at `(i, j)` is the one at `(j, i)`.
pub open spec fn is_symmetric(cells: Seq<Seq<u64>>, dimension: nat) -> bool {
    forall|i: int, j: int|
        0 <= i < dimension && 0 <= j < dimension ==> #[trigger] cells[i][j] == cells[j][i]
}

/// What the triangular build makes of `diagonal` and `pair`: each diagonal
/// cell is a value of `diagonal`, each cell above it a value of `pair`, and
/// each cell below it the copy of its mirror image.
pub open spec fn is_triangular_build<D, P>(
    cells: Seq<Seq<u64>>,
    dimension: nat,
    diagonal: D,
    pair: P,
) -> bool where D: Fn(usize) -> Result<u64, StatsError>, P: Fn(usize, usize) -> Result<u64, StatsError> {
    &&& is_square(cells, dimension)
    &&& forall|i: int|
        0 <= i < dimension ==> call_ensures(
            diagonal,
            (i as usize,),
            Ok::<u64, StatsError>(#[trigger] cells[i][i]),
        )
    &&& forall|i: int, j: int|
        0 <= i < j < dimension ==> call_ensures(
            pair,
            (i as usize, j as usize),
            Ok::<u64, StatsError>(#[trigger] cells[i][j]),
        )
    &&& forall|i: int, j: int|
        0 <= j < i < dimension ==> #[trigger] cells[i][j] == cells[j][i]
}

/// What the dense build makes of `pair`: every cell is a value of `pair`.
pub open spec fn is_dense_build<P>(cells: Seq<Seq<u64>>, dimension: nat, pair: P) -> bool where
    P: Fn(usize, usize) -> Result<u64, StatsError>,
 {
    &&& is_square(cells, dimension)
    &&& forall|i: int, j: int|
        0 <= i < dimension && 0 <= j < dimension ==> call_ensures(
            pair,
            (i as usize, j as usize),
            Ok::<u64, StatsError>(#[trigger] cells[i][j]),
        )
}

/// Whether `fault` is an error that `diagonal` can give below `dimension`.
pub open spec fn diagonal_fails_with<D>(diagonal: D, dimension: nat, fault: StatsError) -> bool where
    D: Fn(usize) -> Result<u64, StatsError>,
 {
    exists|i: int|
        0 <= i < dimension && #[trigger] call_ensures(
            diagonal,
            (i as usize,),
            Err::<u64, StatsError>(fault),
        )
}

/// Whether `fault` is an error that `pair` can give above the diagonal.
pub open spec fn upper_pair_fails_with<P>(pair: P, dimension: nat, fault: StatsError) -> bool where
    P: Fn(usize, usize) -> Result<u64, StatsError>,
 {
    exists|i: int, j: int|
        0 <= i < j < dimension && #[trigger] call_ensures(
            pair,
            (i as usize, j as usize),
            Err::<u64, StatsError>(fault),
        )
}

/// Whether `fault` is an error that `pair` can give on indices below
/// `dimension`.
pub open spec fn pair_fails_with<P>(pair: P, dimension: nat, fault: StatsError) -> bool where
    P: Fn(usize, usize) -> Result<u64, StatsError>,
 {
    exists|i: int, j: int|
        0 <= i < dimension && 0 <= j < dimension && #[trigger] call_ensures(
            pair,
            (i as usize, j as usize),
            Err::<u64, StatsError>(fault),
        )
}

/// Whether `pair` gives a cell, never an error, on indices below
/// `dimension`.
pub open spec fn pair_never_fails<P>(pair: P, dimension: nat) -> bool where
    P: Fn(usize, usize) -> Result<u64, StatsError>,
 {
    forall|i: usize, j: usize, outcome: Result<u64, StatsError>|
        i < dimension && j < dimension && #[trigger] call_ensures(pair, (i, j), outcome)
            ==> outcome is Ok
}

/// Whether neither `diagonal` nor `pair` gives an error below `dimension`.
pub open spec fn never_fails<D, P>(diagonal: D, pair: P, dimension: nat) -> bool where
    D: Fn(usize) -> Result<u64, StatsError>,
    P: Fn(usize, usize) -> Result<u64, StatsError>,
 {
    &&& pair_never_fails(pair, dimension)
    &&& forall|i: usize, outcome: Result<u64, StatsError>|
        i < dimension && #[trigger] call_ensures(diagonal, (i,), outcome) ==> outcome is Ok
}

/// The number of columns of an array of the given shape that take part in a
/// matrix.
pub fn usable_columns(rows: usize, columns: usize) -> (usable: Result<usize, StatsError>)
    ensures
        usable == usable_columns_of(rows as nat, columns as nat),
{
    if columns > rows {
        Err(StatsError::InvalidSampleRequest(RequestFault::TooFewRows))
    } else if columns == 0 {
        Ok(0)
    } else {
        Ok(columns - 1)
    }
}

/// Builds the matrix of a symmetric statistic: the diagonal from
/// `diagonal`, the cells above it from `pair`, the cells below it by
/// symmetry.
///
/// The build fails with the error of a cell that fails, and otherwise only
/// where a square of this dimension is beyond the storage limit.
pub fn build_triangular<D, P>(dimension: usize, diagonal: D, pair: P) -> (built: Result<
    TabularArray,
    StatsError,
>) where D: Fn(usize) -> Result<u64, StatsError>, P: Fn(usize, usize) -> Result<u64, StatsError>
    requires
        forall|i: usize| i < dimension ==> call_requires(diagonal, (i,)),
        forall|i: usize, j: usize| i < j < dimension ==> call_requires(pair, (i, j)),
    ensures
        built matches Ok(matrix) ==> matrix.width() == dimension && is_triangular_build(
            matrix.rows(),
            dimension as nat,
            diagonal,
            pair,
        ) && is_symmetric(matrix.rows(), dimension as nat),
        built matches Err(fault) ==> (!storage_fits(dimension as nat, dimension as nat) && fault
            == StatsError::InvalidSampleRequest(RequestFault::TooLarge)) || diagonal_fails_with(
            diagonal,
            dimension as nat,
            fault,
        ) || upper_pair_fails_with(pair, dimension as nat, fault),
        !storage_fits(dimension as nat, dimension as nat) ==> built is Err,
        storage_fits(dimension as nat, dimension as nat) && never_fails(diagonal, pair, dimension as nat)
            ==> built is Ok,
{
    if !shape_fits(dimension, dimension) {
        return Err(StatsError::InvalidSampleRequest(RequestFault::TooLarge));
    }
    proof {
        lemma_storage_fits_fewer_rows(0, dimension as nat, dimension as nat);
    }
    let mut matrix = table_with_columns(dimension);
    let mut i: usize = 0;
    while i < dimension
        invariant
            i <= dimension,
            storage_fits(dimension as nat, dimension as nat),
            forall|a: usize| a < dimension ==> call_requires(diagonal, (a,)),
            forall|a: usize, b: usize| a < b < dimension ==> call_requires(pair, (a, b)),
            matrix.width() == dimension,
            matrix.rows().len() == i,
            forall|a: int| 0 <= a < i ==> (#[trigger] matrix.rows()[a]).len() == dimension,
            forall|a: int|
                0 <= a < i ==> call_ensures(
                    diagonal,
                    (a as usize,),
                    Ok::<u64, StatsError>(#[trigger] matrix.rows()[a][a]),
                ),
            forall|a: int, b: int|
                0 <= a < i && a < b < dimension ==> call_ensures(
                    pair,
                    (a as usize, b as usize),
                    Ok::<u64, StatsError>(#[trigger] matrix.rows()[a][b]),
                ),
            forall|a: int, b: int|
                0 <= b < a < i ==> #[trigger] matrix.rows()[a][b] == matrix.rows()[b][a],
        decreases dimension - i,
    {
        let mut row: Vec<u64> = Vec::new();
        let mut j: usize = 0;
        while j < dimension
            invariant
                i < dimension,
                j <= dimension,
                forall|a: usize| a < dimension ==> call_requires(diagonal, (a,)),
                forall|a: usize, b: usize| a < b < dimension ==> call_requires(pair, (a, b)),
                matrix.width() == dimension,
                matrix.rows().len() == i,
                forall|a: int| 0 <= a < i ==> (#[trigger] matrix.rows()[a]).len() == dimension,
                row@.len() == j,
                forall|b: int|
                    0 <= b < j && b < i ==> #[trigger] row@[b] == matrix.rows()[b][i as int],
                j > i ==> call_ensures(diagonal, (i,), Ok::<u64, StatsError>(row@[i as int])),
                forall|b: int|
                    i < b < j ==> call_ensures(
                        pair,
                        (i, b as usize),
                        Ok::<u64, StatsError>(#[trigger] row@[b]),
                    ),
            decreases dimension - j,
        {
            let cell: u64 = if j < i {
                table_get(&matrix, j, i)
            } else if j == i {
                match diagonal(i) {
                    Ok(value) => value,
                    Err(fault) => {
                        proof {
                            let at = i as int;
                            assert(call_ensures(
                                diagonal,
                                (at as usize,),
                                Err::<u64, StatsError>(fault),
                            ));
                        }
                        return Err(fault);
                    },
                }
            } else {
                match pair(i, j) {
                    Ok(value) => value,
                    Err(fault) => {
                        proof {
                            let at = i as int;
                            let with = j as int;
                            assert(call_ensures(
                                pair,
                                (at as usize, with as usize),
                                Err::<u64, StatsError>(fault),
                            ));
                        }
                        return Err(fault);
                    },
                }
            };
            row.push(cell);
            j = j + 1;
        }
        let ghost before = matrix.rows();
        let filled = SampleVector::from_vec(row);
        proof {
            lemma_storage_fits_fewer_rows((i + 1) as nat, dimension as nat, dimension as nat);
        }
        let pushed = table_push_row(&mut matrix, &filled);
        proof {
            assert(pushed);
            assert(matrix.rows() == before.push(filled@));
            assert(forall|a: int| 0 <= a < i ==> matrix.rows()[a] == before[a]);
            assert(matrix.rows()[i as int] == filled@);
        }
        i = i + 1;
    }
    proof {
        assert forall|a: int, b: int|
            0 <= a < dimension && 0 <= b < dimension implies #[trigger] matrix.rows()[a][b]
            == matrix.rows()[b][a] by {
            if a < b {
                assert(matrix.rows()[b][a] == matrix.rows()[a][b]);
            }
        }
    }
    Ok(matrix)
}

/// Builds the matrix of a statistic cell by cell, asking `pair` for every
/// cell, the diagonal and both triangles alike.
///
/// The build fails with the error of a cell that fails, and otherwise only
/// where a square of this dimension is beyond the storage limit.
pub fn build_dense<P>(dimension: usize, pair: P) -> (built: Result<TabularArray, StatsError>) where
    P: Fn(usize, usize) -> Result<u64, StatsError>,

    requires
        forall|i: usize, j: usize| i < dimension && j < dimension ==> call_requires(pair, (i, j)),
    ensures
        built matches Ok(matrix) ==> matrix.width() == dimension && is_dense_build(
            matrix.rows(),
            dimension as nat,
            pair,
        ),
        built matches Err(fault) ==> (!storage_fits(dimension as nat, dimension as nat) && fault
            == StatsError::InvalidSampleRequest(RequestFault::TooLarge)) || pair_fails_with(
            pair,
            dimension as nat,
            fault,
        ),
        !storage_fits(dimension as nat, dimension as nat) ==> built is Err,
        storage_fits(dimension as nat, dimension as nat) && pair_never_fails(pair, dimension as nat)
            ==> built is Ok,
{
    if !shape_fits(dimension, dimension) {
        return Err(StatsError::InvalidSampleRequest(RequestFault::TooLarge));
    }
    proof {
        lemma_storage_fits_fewer_rows(0, dimension as nat, dimension as nat);
    }
    let mut matrix = table_with_columns(dimension);
    let mut i: usize = 0;
    while i < dimension
        invariant
            i <= dimension,
            storage_fits(dimension as nat, dimension as nat),
            forall|a: usize, b: usize|
                a < dimension && b < dimension ==> call_requires(pair, (a, b)),
            matrix.width() == dimension,
            matrix.rows().len() == i,
            forall|a: int| 0 <= a < i ==> (#[trigger] matrix.rows()[a]).len() == dimension,
            forall|a: int, b: int|
                0 <= a < i && 0 <= b < dimension ==> call_ensures(
                    pair,
                    (a as usize, b as usize),
                    Ok::<u64, StatsError>(#[trigger] matrix.rows()[a][b]),
                ),
        decreases dimension - i,
    {
        let mut row: Vec<u64> = Vec::new();
        let mut j: usize = 0;
        while j < dimension
            invariant
                i < dimension,
                j <= dimension,
                forall|a: usize, b: usize|
                    a < dimension && b < dimension ==> call_requires(pair, (a, b)),
                row@.len() == j,
                forall|b: int|
                    0 <= b < j ==> call_ensures(
                        pair,
                        (i, b as usize),
                        Ok::<u64, StatsError>(#[trigger] row@[b]),
                    ),
            decreases dimension - j,
        {
            match pair(i, j) {
                Ok(value) => {
                    row.push(value);
                },
                Err(fault) => {
                    proof {
                        let at = i as int;
                        let with = j as int;
                        assert(call_ensures(
                            pair,
                            (at as usize, with as usize),
                            Err::<u64, StatsError>(fault),
                        ));
                    }
                    return Err(fault);
                },
            }
            j = j + 1;
        }
        let ghost before = matrix.rows();
        let filled = SampleVector::from_vec(row);
        proof {
            lemma_storage_fits_fewer_rows((i + 1) as nat, dimension as nat, dimension as nat);
        }
        let pushed = table_push_row(&mut matrix, &filled);
        proof {
            assert(pushed);
            assert(matrix.rows() == before.push(filled@));
            assert(forall|a: int| 0 <= a < i ==> matrix.rows()[a] == before[a]);
            assert(matrix.rows()[i as int] == filled@);
        }
        i = i + 1;
    }
    Ok(matrix)
}

/// Whether some column below `dimension` holds a NaN.
pub open spec fn some_column_has_nan(rows: Seq<Seq<u64>>, dimension: nat) -> bool {
    exists|j: int| 0 <= j < dimension && contains_nan(#[trigger] column_of(rows, j))
}

/// Why there is no covariance matrix of an array, if there is none: the
/// array has more columns than rows, the matrix is beyond the storage
/// limit, or a column that takes part holds a NaN.
pub open spec fn covariance_matrix_fault(rows: Seq<Seq<u64>>, columns: nat) -> Option<StatsError> {
    match usable_columns_of(rows.len(), columns) {
        Err(fault) => Some(fault),
        Ok(dimension) => if !storage_fits(dimension as nat, dimension as nat) {
            Some(StatsError::InvalidSampleRequest(RequestFault::TooLarge))
        } else if some_column_has_nan(rows, dimension as nat) {
            Some(StatsError::ContainsNaN)
        } else {
            None
        },
    }
}

/// The number of columns that take part in the matrices of an array that
/// has no more columns than rows.
pub open spec fn dimension_of(columns: nat) -> nat {
    if columns == 0 {
        0
    } else {
        (columns - 1) as nat
    }
}

/// The covariance matrix as the triangular build makes it: on and above the
/// diagonal the sample covariance of the row's column with the column's
/// column, below it the cell's mirror image.
pub open spec fn triangular_covariance<F: Fn(Operation) -> u64>(
    unit: F,
    rows: Seq<Seq<u64>>,
    dimension: nat,
) -> Seq<Seq<u64>> {
    Seq::new(
        dimension,
        |i: int|
            Seq::new(
                dimension,
                |j: int|
                    if i <= j {
                        sample_covariance_of(unit, column_of(rows, i), column_of(rows, j))
                    } else {
                        sample_covariance_of(unit, column_of(rows, j), column_of(rows, i))
                    },
            ),
    )
}

/// The covariance matrix as the dense build makes it: in every cell the
/// sample covariance of the row's column with the column's column.
pub open spec fn dense_covariance<F: Fn(Operation) -> u64>(
    unit: F,
    rows: Seq<Seq<u64>>,
    dimension: nat,
) -> Seq<Seq<u64>> {
    Seq::new(
        dimension,
        |i: int|
            Seq::new(
                dimension,
                |j: int| sample_covariance_of(unit, column_of(rows, i), column_of(rows, j)),
            ),
    )
}

/// Looks for a NaN in the columns below `dimension`.
pub fn columns_have_nan(data: &TabularArray, dimension: usize) -> (found: bool)
    requires
        dimension <= data.width(),
    ensures
        found == some_column_has_nan(data.rows(), dimension as nat),
{
    let mut j: usize = 0;
    while j < dimension
        invariant
            j <= dimension <= data.width(),
            forall|k: int| 0 <= k < j ==> !contains_nan(#[trigger] column_of(data.rows(), k)),
        decreases dimension - j,
    {
        let column = table_column(data, j);
        if has_nan(&column) {
            return true;
        }
        j = j + 1;
    }
    false
}

/// The dimension of the association matrices of an array, or why it has
/// none.
pub fn matrix_dimension(data: &TabularArray) -> (dimension: Result<usize, StatsError>)
    ensures
        match covariance_matrix_fault(data.rows(), data.width()) {
            Some(fault) => dimension == Err::<usize, StatsError>(fault),
            None => dimension matches Ok(usable) && usable == dimension_of(data.width()),
        },
        dimension matches Ok(usable) ==> usable <= data.width() <= data.rows().len()
            && storage_fits(usable as nat, usable as nat) && !some_column_has_nan(
            data.rows(),
            usable as nat,
        ),
{
    let rows = table_nrows(data);
    let columns = table_ncols(data);
    let dimension = match usable_columns(rows, columns) {
        Ok(dimension) => dimension,
        Err(fault) => {
            return Err(fault);
        },
    };
    if !shape_fits(dimension, dimension) {
        return Err(StatsError::InvalidSampleRequest(RequestFault::TooLarge));
    }
    if columns_have_nan(data, dimension) {
        return Err(StatsError::ContainsNaN);
    }
    Ok(dimension)
}

/// The covariance matrix of the columns of an array, all but the last: the
/// sample variances on the diagonal, the sample covariances above it, and
/// their copies below it.
pub fn get_covariance_matrix<F: Fn(Operation) -> u64>(data: &TabularArray, unit: &F) -> (matrix:
    Result<TabularArray, StatsError>)
    requires
        is_unit(*unit),
    ensures
        match covariance_matrix_fault(data.rows(), data.width()) {
            Some(fault) => matrix == Err::<TabularArray, StatsError>(fault),
            None => matrix matches Ok(built) && built.width() == dimension_of(data.width())
                && built.rows() == triangular_covariance(
                *unit,
                data.rows(),
                dimension_of(data.width()),
            ),
        },
{
    let dimension = match matrix_dimension(data) {
        Ok(dimension) => dimension,
        Err(fault) => {
            return Err(fault);
        },
    };
    let diagonal = |i: usize| -> (cell: Result<u64, StatsError>)
        requires
            i < dimension,
        ensures
            cell == variance_outcome(*unit, column_of(data.rows(), i as int)),
        {
            let column = table_column(data, i);
            get_variance(&column, unit)
        };
    let pair = |i: usize, j: usize| -> (cell: Result<u64, StatsError>)
        requires
            i < dimension,
            j < dimension,
        ensures
            cell == sample_covariance_outcome(
                *unit,
                column_of(data.rows(), i as int),
                column_of(data.rows(), j as int),
            ),
        {
            let first = table_column(data, i);
            let second = table_column(data, j);
            get_sample_covariance(&first, &second, unit)
        };
    let built = build_triangular(dimension, diagonal, pair);
    match built {
        Ok(matrix) => {
            proof {
                let wanted = triangular_covariance(*unit, data.rows(), dimension as nat);
                assert forall|i: int| 0 <= i < dimension implies #[trigger] matrix.rows()[i]
                    == wanted[i] by {
                    assert forall|j: int| 0 <= j < dimension implies matrix.rows()[i][j]
                        == wanted[i][j] by {
                        let x = column_of(data.rows(), i);
                        let y = column_of(data.rows(), j);
                        assert(!contains_nan(x) && !contains_nan(y));
                        if i == j {
                            assert(call_ensures(
                                diagonal,
                                (i as usize,),
                                Ok::<u64, StatsError>(matrix.rows()[i][i]),
                            ));
                        } else if i < j {
                            assert(call_ensures(
                                pair,
                                (i as usize, j as usize),
                                Ok::<u64, StatsError>(matrix.rows()[i][j]),
                            ));
                        } else {
                            assert(call_ensures(
                                pair,
                                (j as usize, i as usize),
                                Ok::<u64, StatsError>(matrix.rows()[j][i]),
                            ));
                            assert(matrix.rows()[i][j] == matrix.rows()[j][i]);
                        }
                    }
                    assert(matrix.rows()[i] =~= wanted[i]);
                }
                assert(matrix.rows() =~= wanted);
            }
            Ok(matrix)
        },
        Err(fault) => {
            // No cell fails: every column is free of NaN and has two items.
            proof {
                assert(false);
            }
            Err(fault)
        },
    }
}

/// The covariance matrix of the columns of an array, all but the last, with
/// every cell computed on its own.
pub fn get_covariance_matrix_maybe_expensive<F: Fn(Operation) -> u64>(
    data: &TabularArray,
    unit: &F,
) -> (matrix: Result<TabularArray, StatsError>)
    requires
        is_unit(*unit),
    ensures
        match covariance_matrix_fault(data.rows(), data.width()) {
            Some(fault) => matrix == Err::<TabularArray, StatsError>(fault),
            None => matrix matches Ok(built) && built.width() == dimension_of(data.width())
                && built.rows() == dense_covariance(
                *unit,
                data.rows(),
                dimension_of(data.width()),
            ),
        },
{
    let dimension = match matrix_dimension(data) {
        Ok(dimension) => dimension,
        Err(fault) => {
            return Err(fault);
        },
    };
    let pair = |i: usize, j: usize| -> (cell: Result<u64, StatsError>)
        requires
            i < dimension,
            j < dimension,
        ensures
            cell == sample_covariance_outcome(
                *unit,
                column_of(data.rows(), i as int),
                column_of(data.rows(), j as int),
            ),
        {
            let first = table_column(data, i);
            let second = table_column(data, j);
            get_sample_covariance(&first, &second, unit)
        };
    let built = build_dense(dimension, pair);
    match built {
        Ok(matrix) => {
            proof {
                let wanted = dense_covariance(*unit, data.rows(), dimension as nat);
                assert forall|i: int| 0 <= i < dimension implies #[trigger] matrix.rows()[i]
                    == wanted[i] by {
                    assert forall|j: int| 0 <= j < dimension implies matrix.rows()[i][j]
                        == wanted[i][j] by {
                        assert(call_ensures(
                            pair,
                            (i as usize, j as usize),
                            Ok::<u64, StatsError>(matrix.rows()[i][j]),
                        ));
                    }
                    assert(matrix.rows()[i] =~= wanted[i]);
                }
                assert(matrix.rows() =~= wanted);
            }
            Ok(matrix)
        },
        Err(fault) => {
            // No cell fails: every column is free of NaN and has two items.
            proof {
                assert(false);
            }
            Err(fault)
        },
    }
}

/// Whether two of the columns below `dimension`, the first before the
/// second, have no correlation coefficient.
pub open spec fn some_upper_pair_is_degenerate<F: Fn(Operation) -> u64>(
    unit: F,
    rows: Seq<Seq<u64>>,
    dimension: nat,
) -> bool {
    exists|i: int, j: int|
        0 <= i < j < dimension && (#[trigger] correlation_outcome(
            unit,
            column_of(rows, i),
            column_of(rows, j),
        )) is Err
}

/// Whether two of the columns below `dimension`, or one with itself, have
/// no correlation coefficient.
pub open spec fn some_pair_is_degenerate<F: Fn(Operation) -> u64>(
    unit: F,
    rows: Seq<Seq<u64>>,
    dimension: nat,
) -> bool {
    exists|i: int, j: int|
        0 <= i < dimension && 0 <= j < dimension && (#[trigger] correlation_outcome(
            unit,
            column_of(rows, i),
            column_of(rows, j),
        )) is Err
}

/// Why the triangular build gives no correlation matrix, if it gives none:
/// as for the covariance matrix, or for a pair of different columns without
/// a correlation coefficient.
pub open spec fn correlation_matrix_fault<F: Fn(Operation) -> u64>(
    unit: F,
    rows: Seq<Seq<u64>>,
    columns: nat,
) -> Option<StatsError> {
    match covariance_matrix_fault(rows, columns) {
        Some(fault) => Some(fault),
        None => if some_upper_pair_is_degenerate(unit, rows, dimension_of(columns)) {
            Some(StatsError::DegenerateRegression)
        } else {
            None
        },
    }
}

/// Why the dense build gives no correlation matrix, if it gives none: as
/// for the covariance matrix, or for a pair of columns, or a column with
/// itself, without a correlation coefficient.
pub open spec fn dense_correlation_matrix_fault<F: Fn(Operation) -> u64>(
    unit: F,
    rows: Seq<Seq<u64>>,
    columns: nat,
) -> Option<StatsError> {
    match covariance_matrix_fault(rows, columns) {
        Some(fault) => Some(fault),
        None => if some_pair_is_degenerate(unit, rows, dimension_of(columns)) {
            Some(StatsError::DegenerateRegression)
        } else {
            None
        },
    }
}

/// The correlation matrix as the triangular build makes it: `1.0` on the
/// diagonal, above it the correlation coefficient of the row's column with
/// the column's column, below it the cell's mirror image.
pub open spec fn triangular_correlation<F: Fn(Operation) -> u64>(
    unit: F,
    rows: Seq<Seq<u64>>,
    dimension: nat,
) -> Seq<Seq<u64>> {
    Seq::new(
        dimension,
        |i: int|
            Seq::new(
                dimension,
                |j: int|
                    if i == j {
                        ONE
                    } else if i < j {
                        correlation_of(unit, column_of(rows, i), column_of(rows, j))
                    } else {
                        correlation_of(unit, column_of(rows, j), column_of(rows, i))
                    },
            ),
    )
}

/// The correlation matrix as the dense build makes it: in every cell the
/// correlation coefficient of the row's column with the column's column.
pub open spec fn dense_correlation<F: Fn(Operation) -> u64>(
    unit: F,
    rows: Seq<Seq<u64>>,
    dimension: nat,
) -> Seq<Seq<u64>> {
    Seq::new(
        dimension,
        |i: int|
            Seq::new(
                dimension,
                |j: int| correlation_of(unit, column_of(rows, i), column_of(rows, j)),
            ),
    )
}

/// The correlation matrix of the columns of an array, all but the last:
/// `1.0` on the diagonal, the correlation coefficients above it, and their
/// copies below it.
pub fn get_correlation_coefficient_matrix<F: Fn(Operation) -> u64>(
    data: &TabularArray,
    unit: &F,
) -> (matrix: Result<TabularArray, StatsError>)
    requires
        is_unit(*unit),
    ensures
        match correlation_matrix_fault(*unit, data.rows(), data.width()) {
            Some(fault) => matrix == Err::<TabularArray, StatsError>(fault),
            None => matrix matches Ok(built) && built.width() == dimension_of(data.width())
                && built.rows() == triangular_correlation(
                *unit,
                data.rows(),
                dimension_of(data.width()),
            ),
        },
{
    let dimension = match matrix_dimension(data) {
        Ok(dimension) => dimension,
        Err(fault) => {
            return Err(fault);
        },
    };
    let diagonal = |i: usize| -> (cell: Result<u64, StatsError>)
        ensures
            cell == Ok::<u64, StatsError>(ONE),
        { Ok(ONE) };
    let pair = |i: usize, j: usize| -> (cell: Result<u64, StatsError>)
        requires
            i < dimension,
            j < dimension,
        ensures
            cell == correlation_outcome(
                *unit,
                column_of(data.rows(), i as int),
                column_of(data.rows(), j as int),
            ),
        {
            let first = table_column(data, i);
            let second = table_column(data, j);
            get_correlation_coefficient(&first, &second, unit)
        };
    let built = build_triangular(dimension, diagonal, pair);
    match built {
        Ok(matrix) => {
            proof {
                let wanted = triangular_correlation(*unit, data.rows(), dimension as nat);
                assert forall|i: int| 0 <= i < dimension implies #[trigger] matrix.rows()[i]
                    == wanted[i] by {
                    assert forall|j: int| 0 <= j < dimension implies matrix.rows()[i][j]
                        == wanted[i][j] by {
                        if i == j {
                            assert(call_ensures(
                                diagonal,
                                (i as usize,),
                                Ok::<u64, StatsError>(matrix.rows()[i][i]),
                            ));
                        } else if i < j {
                            assert(call_ensures(
                                pair,
                                (i as usize, j as usize),
                                Ok::<u64, StatsError>(matrix.rows()[i][j]),
                            ));
                        } else {
                            assert(call_ensures(
                                pair,
                                (j as usize, i as usize),
                                Ok::<u64, StatsError>(matrix.rows()[j][i]),
                            ));
                            assert(matrix.rows()[i][j] == matrix.rows()[j][i]);
                        }
                    }
                    assert(matrix.rows()[i] =~= wanted[i]);
                }
                assert(matrix.rows() =~= wanted);
                assert forall|i: int, j: int| 0 <= i < j < dimension implies !((
                #[trigger] correlation_outcome(
                    *unit,
                    column_of(data.rows(), i),
                    column_of(data.rows(), j),
                )) is Err) by {
                    assert(call_ensures(
                        pair,
                        (i as usize, j as usize),
                        Ok::<u64, StatsError>(matrix.rows()[i][j]),
                    ));
                }
            }
            Ok(matrix)
        },
        Err(fault) => {
            proof {
                let (i, j) = choose|i: int, j: int|
                    0 <= i < j < dimension && #[trigger] call_ensures(
                        pair,
                        (i as usize, j as usize),
                        Err::<u64, StatsError>(fault),
                    );
                let outcome = correlation_outcome(
                    *unit,
                    column_of(data.rows(), i),
                    column_of(data.rows(), j),
                );
                assert(outcome == Err::<u64, StatsError>(fault));
                assert(!contains_nan(column_of(data.rows(), i)));
                assert(!contains_nan(column_of(data.rows(), j)));
                assert(fault == StatsError::DegenerateRegression);
            }
            Err(fault)
        },
    }
}

/// The correlation matrix of the columns of an array, all but the last,
/// with every cell computed on its own, the diagonal too.
pub fn get_correlation_coefficient_matrix_maybe_expensive<F: Fn(Operation) -> u64>(
    data: &TabularArray,
    unit: &F,
) -> (matrix: Result<TabularArray, StatsError>)
    requires
        is_unit(*unit),
    ensures
        match dense_correlation_matrix_fault(*unit, data.rows(), data.width()) {
            Some(fault) => matrix == Err::<TabularArray, StatsError>(fault),
            None => matrix matches Ok(built) && built.width() == dimension_of(data.width())
                && built.rows() == dense_correlation(
                *unit,
                data.rows(),
                dimension_of(data.width()),
            ),
        },
{
    let dimension = match matrix_dimension(data) {
        Ok(dimension) => dimension,
        Err(fault) => {
            return Err(fault);
        },
    };
    let pair = |i: usize, j: usize| -> (cell: Result<u64, StatsError>)
        requires
            i < dimension,
            j < dimension,
        ensures
            cell == correlation_outcome(
                *unit,
                column_of(data.rows(), i as int),
                column_of(data.rows(), j as int),
            ),
        {
            let first = table_column(data, i);
            let second = table_column(data, j);
            get_correlation_coefficient(&first, &second, unit)
        };
    let built = build_dense(dimension, pair);
    match built {
        Ok(matrix) => {
            proof {
                let wanted = dense_correlation(*unit, data.rows(), dimension as nat);
                assert forall|i: int| 0 <= i < dimension implies #[trigger] matrix.rows()[i]
                    == wanted[i] by {
                    assert forall|j: int| 0 <= j < dimension implies matrix.rows()[i][j]
                        == wanted[i][j] by {
                        assert(call_ensures(
                            pair,
                            (i as usize, j as usize),
                            Ok::<u64, StatsError>(matrix.rows()[i][j]),
                        ));
                    }
                    assert(matrix.rows()[i] =~= wanted[i]);
                }
                assert(matrix.rows() =~= wanted);
                assert forall|i: int, j: int|
                    0 <= i < dimension && 0 <= j < dimension implies !((
                #[trigger] correlation_outcome(
                    *unit,
                    column_of(data.rows(), i),
                    column_of(data.rows(), j),
                )) is Err) by {
                    assert(call_ensures(
                        pair,
                        (i as usize, j as usize),
                        Ok::<u64, StatsError>(matrix.rows()[i][j]),
                    ));
                }
            }
            Ok(matrix)
        },
        Err(fault) => {
            proof {
                let (i, j) = choose|i: int, j: int|
                    0 <= i < dimension && 0 <= j < dimension && #[trigger] call_ensures(
                        pair,
                        (i as usize, j as usize),
                        Err::<u64, StatsError>(fault),
                    );
                let outcome = correlation_outcome(
                    *unit,
                    column_of(data.rows(), i),
                    column_of(data.rows(), j),
                );
                assert(outcome == Err::<u64, StatsError>(fault));
                assert(!contains_nan(column_of(data.rows(), i)));
                assert(!contains_nan(column_of(data.rows(), j)));
                assert(fault == StatsError::DegenerateRegression);
            }
            Err(fault)
        },
    }
}

/// What holds of every association matrix of the triangular build: it is
/// square and symmetric; the diagonal of the covariance matrix holds the
/// sample variance of each column, and that of the correlation matrix holds
/// `1.0`.
pub proof fn lemma_association_matrices<F: Fn(Operation) -> u64>(
    unit: F,
    rows: Seq<Seq<u64>>,
    dimension: nat,
)
    ensures
        is_square(triangular_covariance(unit, rows, dimension), dimension),
        is_square(triangular_correlation(unit, rows, dimension), dimension),
        is_symmetric(triangular_covariance(unit, rows, dimension), dimension),
        is_symmetric(triangular_correlation(unit, rows, dimension), dimension),
        forall|i: int|
            0 <= i < dimension ==> #[trigger] triangular_covariance(unit, rows, dimension)[i][i]
                == variance_of(unit, column_of(rows, i)),
        forall|i: int|
            0 <= i < dimension ==> #[trigger] triangular_correlation(unit, rows, dimension)[i][i]
                == ONE,
{
}

/// The two builds of the covariance matrix agree: for a unit whose products
/// do not depend on the order of the factors, they are refused for the same
/// arrays and make the same matrix of every other.
pub proof fn lemma_covariance_builds_agree<F: Fn(Operation) -> u64>(
    unit: F,
    rows: Seq<Seq<u64>>,
    dimension: nat,
)
    requires
        multiplication_commutes(unit),
    ensures
        triangular_covariance(unit, rows, dimension) == dense_covariance(unit, rows, dimension),
{
    let triangular = triangular_covariance(unit, rows, dimension);
    let dense = dense_covariance(unit, rows, dimension);
    assert forall|i: int| 0 <= i < dimension implies #[trigger] triangular[i] == dense[i] by {
        assert forall|j: int| 0 <= j < dimension implies triangular[i][j] == dense[i][j] by {
            if j < i {
                lemma_co_deviation_symmetric(unit, column_of(rows, j), column_of(rows, i));
            }
        }
        assert(triangular[i] =~= dense[i]);
    }
    assert(triangular =~= dense);
}

/// The two builds of the correlation matrix agree off the diagonal: for a
/// unit whose products do not depend on the order of the factors, they hold
/// the same cell wherever the row is not the column. On the diagonal the
/// triangular build holds `1.0`, and the dense build the coefficient of a
/// column with itself.
pub proof fn lemma_correlation_builds_agree<F: Fn(Operation) -> u64>(
    unit: F,
    rows: Seq<Seq<u64>>,
    dimension: nat,
)
    requires
        multiplication_commutes(unit),
    ensures
        forall|i: int, j: int|
            0 <= i < dimension && 0 <= j < dimension && i != j ==> #[trigger] triangular_correlation(
                unit,
                rows,
                dimension,
            )[i][j] == dense_correlation(unit, rows, dimension)[i][j],
        forall|i: int|
            0 <= i < dimension ==> #[trigger] triangular_correlation(unit, rows, dimension)[i][i]
                == ONE,
        some_upper_pair_is_degenerate(unit, rows, dimension) ==> some_pair_is_degenerate(
            unit,
            rows,
            dimension,
        ),
{
    let triangular = triangular_correlation(unit, rows, dimension);
    let dense = dense_correlation(unit, rows, dimension);
    assert forall|i: int, j: int|
        0 <= i < dimension && 0 <= j < dimension && i != j implies #[trigger] triangular[i][j]
        == dense[i][j] by {
        if j < i {
            lemma_co_deviation_symmetric(unit, column_of(rows, j), column_of(rows, i));
        }
    }
    if some_upper_pair_is_degenerate(unit, rows, dimension) {
        let (i, j) = choose|i: int, j: int|
            0 <= i < j < dimension && (#[trigger] correlation_outcome(
                unit,
                column_of(rows, i),
                column_of(rows, j),
            )) is Err;
        assert(0 <= i < dimension && 0 <= j < dimension && correlation_outcome(
            unit,
            column_of(rows, i),
            column_of(rows, j),
        ) is Err);
    }
}

} // verus!
