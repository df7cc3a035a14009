//! Drawing rows of a tabular array at random, with replacement, and the t
//! statistic of a sample against a population.

use crate::arithmetic::{
    count, counted, difference, is_unit, minus, over, quotient, root, square_root, Operation,
};
use crate::arrays::{
    lemma_storage_fits_fewer_rows, shape_fits, storage_fits, table_ncols, table_nrows,
    table_push_row, table_row, table_with_columns, SampleVector, TabularArray,
};
use crate::utilities::{
    get_mean, get_standard_deviation, mean_of, standard_deviation_of, variance_fault,
    vector_fault, RequestFault, StatsError,
};
use vstd::prelude::*;

verus! {

/// The seed of a reproducible sample.
pub const FIXED_SEED: u64 = 42;

/// Why a sample of `count` rows cannot be drawn from an array of the given
/// shape, if it cannot: the array must have more rows than columns, the
/// sample no more rows than the array, and both must stay within what a row
/// index and the storage can hold.
pub open spec fn sample_fault(rows: nat, columns: nat, count: nat) -> Option<StatsError> {
    if columns >= rows {
        Some(StatsError::InvalidSampleRequest(RequestFault::TooFewRows))
    } else if count > rows {
        Some(StatsError::InvalidSampleRequest(RequestFault::TooManyElements))
    } else if rows > u32::MAX || !storage_fits(count, columns) {
        Some(StatsError::InvalidSampleRequest(RequestFault::TooLarge))
    } else {
        None
    }
}

/// The rows of `source` picked out by `indices`, in the order of the
/// indices.
pub open spec fn picked_rows(source: Seq<Seq<u64>>, indices: Seq<u32>) -> Seq<Seq<u64>> {
    indices.map_values(|index: u32| source[index as int])
}

/// Draws `count` row indices below `population`, each on its own.
pub fn draw_indices(population: u32, count: usize) -> (indices: Vec<u32>)
    requires
        population > 0,
    ensures
        indices@.len() == count,
        forall|k: int| 0 <= k < count ==> (#[trigger] indices@[k]) < population,
{
    let mut indices: Vec<u32> = Vec::new();
    let mut drawn: usize = 0;
    while drawn < count
        invariant
            population > 0,
            drawn <= count,
            indices@.len() == drawn,
            forall|k: int| 0 <= k < drawn ==> (#[trigger] indices@[k]) < population,
        decreases count - drawn,
    {
        let index = random_below(population);
        indices.push(index);
        drawn = drawn + 1;
    }
    indices
}

/// Copies the rows at `indices` into a new array of the same width, in the
/// order of the indices. It is refused only where the new array would be
/// beyond the storage limit.
pub fn gather_rows(source: &TabularArray, indices: &Vec<u32>) -> (gathered: Result<
    TabularArray,
    StatsError,
>)
    requires
        forall|k: int| 0 <= k < indices@.len() ==> (#[trigger] indices@[k]) < source.rows().len(),
    ensures
        gathered is Ok <==> storage_fits(indices@.len(), source.width()),
        gathered matches Ok(sample) ==> sample.width() == source.width() && sample.rows()
            == picked_rows(source.rows(), indices@),
        gathered matches Err(fault) ==> fault == StatsError::InvalidSampleRequest(
            RequestFault::TooLarge,
        ),
{
    let columns = table_ncols(source);
    if !shape_fits(indices.len(), columns) {
        return Err(StatsError::InvalidSampleRequest(RequestFault::TooLarge));
    }
    proof {
        lemma_storage_fits_fewer_rows(0, indices@.len(), columns as nat);
    }
    let mut sample = table_with_columns(columns);
    let mut k: usize = 0;
    while k < indices.len()
        invariant
            k <= indices@.len(),
            columns == source.width(),
            storage_fits(indices@.len(), columns as nat),
            forall|j: int|
                0 <= j < indices@.len() ==> (#[trigger] indices@[j]) < source.rows().len(),
            sample.width() == columns,
            sample.rows() == picked_rows(source.rows(), indices@.take(k as int)),
        decreases indices@.len() - k,
    {
        let row = table_row(source, indices[k] as usize);
        proof {
            lemma_storage_fits_fewer_rows((k + 1) as nat, indices@.len(), columns as nat);
        }
        let pushed = table_push_row(&mut sample, &row);
        proof {
            assert(pushed);
            assert(indices@.take(k + 1) == indices@.take(k as int).push(indices@[k as int]));
            assert(picked_rows(source.rows(), indices@.take(k + 1)) == picked_rows(
                source.rows(),
                indices@.take(k as int),
            ).push(source.rows()[indices@[k as int] as int]));
        }
        k = k + 1;
    }
    proof {
        assert(indices@.take(k as int) == indices@);
    }
    Ok(sample)
}

/// Draws `num_elements_in_sample` rows of the array at random, with
/// replacement, from the seed `FIXED_SEED` where `set_seed` is true.
///
/// Every row of the sample is a row of the array; which rows come is left
/// to the generator.
pub fn get_sample(
    array_to_sample: &TabularArray,
    num_elements_in_sample: usize,
    set_seed: bool,
) -> (sample: Result<TabularArray, StatsError>)
    ensures
        match sample_fault(
            array_to_sample.rows().len(),
            array_to_sample.width(),
            num_elements_in_sample as nat,
        ) {
            Some(fault) => sample == Err::<TabularArray, StatsError>(fault),
            None => sample matches Ok(drawn) && drawn.width() == array_to_sample.width()
                && drawn.rows().len() == num_elements_in_sample && forall|k: int|
                0 <= k < num_elements_in_sample ==> array_to_sample.rows().contains(
                    #[trigger] drawn.rows()[k],
                ),
        },
{
    if set_seed {
        seed_generator(FIXED_SEED);
    }
    let rows = table_nrows(array_to_sample);
    let columns = table_ncols(array_to_sample);
    if columns >= rows {
        return Err(StatsError::InvalidSampleRequest(RequestFault::TooFewRows));
    }
    if num_elements_in_sample > rows {
        return Err(StatsError::InvalidSampleRequest(RequestFault::TooManyElements));
    }
    if rows > u32::MAX as usize || !shape_fits(num_elements_in_sample, columns) {
        return Err(StatsError::InvalidSampleRequest(RequestFault::TooLarge));
    }
    let random_indices = draw_indices(rows as u32, num_elements_in_sample);
    let gathered = gather_rows(array_to_sample, &random_indices);
    proof {
        if gathered is Ok {
            let drawn = gathered->Ok_0;
            assert forall|k: int| 0 <= k < num_elements_in_sample implies array_to_sample.rows()
                .contains(#[trigger] drawn.rows()[k]) by {
                let index = random_indices@[k] as int;
                assert(drawn.rows()[k] == array_to_sample.rows()[index]);
            }
        }
    }
    gathered
}

/// Why a t statistic is refused, if it is: the faults of the mean of the
/// sample, then those of the mean of the population, then a sample of a
/// single item.
pub open spec fn t_fault(population: Seq<u64>, sample: Seq<u64>) -> Option<StatsError> {
    match vector_fault(sample) {
        Some(fault) => Some(fault),
        None => match vector_fault(population) {
            Some(fault) => Some(fault),
            None => variance_fault(sample),
        },
    }
}

/// The t statistic of a sample: the distance of its mean from the mean of
/// the population, in standard errors estimated from the sample.
pub open spec fn t_statistic_of<F: Fn(Operation) -> u64>(
    unit: F,
    population: Seq<u64>,
    sample: Seq<u64>,
) -> u64 {
    quotient(
        unit,
        difference(unit, mean_of(unit, sample), mean_of(unit, population)),
        quotient(
            unit,
            standard_deviation_of(unit, sample),
            square_root(unit, counted(unit, sample.len())),
        ),
    )
}

/// What `get_t_distribution` returns.
pub open spec fn t_outcome<F: Fn(Operation) -> u64>(
    unit: F,
    population: Seq<u64>,
    sample: Seq<u64>,
) -> Result<u64, StatsError> {
    match t_fault(population, sample) {
        Some(fault) => Err(fault),
        None => Ok(t_statistic_of(unit, population, sample)),
    }
}

/// The t statistic of a sample against a population.
pub fn get_t_distribution<F: Fn(Operation) -> u64>(
    population: &SampleVector,
    sample: &SampleVector,
    unit: &F,
) -> (statistic: Result<u64, StatsError>)
    requires
        is_unit(*unit),
    ensures
        statistic == t_outcome(*unit, population@, sample@),
{
    let mean_sample = match get_mean(sample, unit) {
        Ok(mean) => mean,
        Err(fault) => {
            return Err(fault);
        },
    };
    let mean_population = match get_mean(population, unit) {
        Ok(mean) => mean,
        Err(fault) => {
            return Err(fault);
        },
    };
    let deviation = match get_standard_deviation(sample, unit) {
        Ok(deviation) => deviation,
        Err(fault) => {
            return Err(fault);
        },
    };
    let numerator = minus(unit, mean_sample, mean_population);
    let items = count(unit, sample.len());
    let denominator = over(unit, deviation, root(unit, items));
    Ok(over(unit, numerator, denominator))
}

/// `fastrand::seed`: starts the thread's generator from the given seed.
#[verifier::external_body]
pub(crate) fn seed_generator(seed: u64) {
    fastrand::seed(seed)
}

/// `fastrand::u32` on the range from 0 up to, and without, `bound`: some
/// number of that range. It panics on an empty range.
#[verifier::external_body]
pub(crate) fn random_below(bound: u32) -> (drawn: u32)
    requires
        bound > 0,
    ensures
        drawn < bound,
{
    fastrand::u32(0..bound)
}

} // verus!
