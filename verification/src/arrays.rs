//! The two containers the toolkit works on: a sample vector and a tabular
//! array of samples. Both keep their values in `ndarray` arrays of binary64
//! bit patterns; what they hold is named by `vector_items`, `table_rows` and
//! `table_width`, and every access goes through the short trusted functions
//! at the end of this file.

use vstd::prelude::*;

verus! {

/// An ordered, finite sequence of binary64 bit patterns.
#[verifier::external_body]
#[derive(Debug, PartialEq)]
pub struct SampleVector {
    items: ndarray::Array1<u64>,
}

/// Rows of equal length, each a sequence of binary64 bit patterns.
#[verifier::external_body]
#[derive(Debug, PartialEq)]
pub struct TabularArray {
    cells: ndarray::Array2<u64>,
}

/// The items of a sample vector, first to last.
pub uninterp spec fn vector_items(v: SampleVector) -> Seq<u64>;

/// The rows of a tabular array, top to bottom, each left to right.
pub uninterp spec fn table_rows(t: TabularArray) -> Seq<Seq<u64>>;

/// The number of columns of a tabular array, which it has even without rows.
pub uninterp spec fn table_width(t: TabularArray) -> nat;

/// The number of cells `ndarray` counts against its storage limit: the
/// product of the axis lengths that are not zero.
pub open spec fn storage_cells(rows: nat, columns: nat) -> nat {
    (if rows == 0 { 1 } else { rows }) * (if columns == 0 { 1 } else { columns })
}

/// The column at `index` of rows of equal length: the item at `index` of
/// each row, top to bottom.
pub open spec fn column_of(rows: Seq<Seq<u64>>, index: int) -> Seq<u64> {
    Seq::new(rows.len(), |i: int| rows[i][index])
}

/// Whether an array of this shape is within `ndarray`'s storage limit.
pub open spec fn storage_fits(rows: nat, columns: nat) -> bool {
    storage_cells(rows, columns) <= isize::MAX
}

impl View for SampleVector {
    type V = Seq<u64>;

    open spec fn view(&self) -> Seq<u64> {
        vector_items(*self)
    }
}

impl SampleVector {
    /// Makes a sample vector of the given bit patterns, in their order.
    pub fn from_vec(items: Vec<u64>) -> (v: SampleVector)
        ensures
            v@ == items@,
    {
        vector_from_vec(items)
    }

    /// The bit patterns of the vector, in their order.
    pub fn to_vec(&self) -> (items: Vec<u64>)
        ensures
            items@ == self@,
    {
        vector_to_vec(self)
    }

    /// The number of items.
    pub fn len(&self) -> (n: usize)
        ensures
            n == self@.len(),
    {
        vector_len(self)
    }

    /// The item at `index`.
    pub fn get(&self, index: usize) -> (item: u64)
        requires
            index < self@.len(),
        ensures
            item == self@[index as int],
    {
        vector_get(self, index)
    }
}

/// The rows of a vector of vectors, as sequences.
pub open spec fn rows_of(rows: Seq<Vec<u64>>) -> Seq<Seq<u64>> {
    rows.map_values(|row: Vec<u64>| row@)
}

/// Tells whether an array of this shape is within the storage limit.
pub fn shape_fits(rows: usize, columns: usize) -> (fits: bool)
    ensures
        fits == storage_fits(rows as nat, columns as nat),
{
    let r: usize = if rows == 0 { 1 } else { rows };
    let c: usize = if columns == 0 { 1 } else { columns };
    match r.checked_mul(c) {
        Some(cells) => cells <= isize::MAX as usize,
        None => false,
    }
}

/// A shape with fewer rows fits wherever the larger one does.
pub proof fn lemma_storage_fits_fewer_rows(fewer: nat, rows: nat, columns: nat)
    requires
        fewer <= rows,
        storage_fits(rows, columns),
    ensures
        storage_fits(fewer, columns),
{
    let r: nat = if rows == 0 { 1 } else { rows };
    let f: nat = if fewer == 0 { 1 } else { fewer };
    let c: nat = if columns == 0 { 1 } else { columns };
    assert(f * c <= r * c) by (nonlinear_arith)
        requires
            f <= r,
    ;
}

impl TabularArray {
    /// The rows, top to bottom.
    pub open spec fn rows(&self) -> Seq<Seq<u64>> {
        table_rows(*self)
    }

    /// The number of columns.
    pub open spec fn width(&self) -> nat {
        table_width(*self)
    }

    /// A tabular array of the given width without any row, or `None` where
    /// that width is beyond the storage limit.
    pub fn with_columns(columns: usize) -> (made: Option<TabularArray>)
        ensures
            made is Some <==> storage_fits(0, columns as nat),
            made matches Some(t) ==> t.rows() == Seq::<Seq<u64>>::empty() && t.width() == columns,
    {
        if shape_fits(0, columns) {
            Some(table_with_columns(columns))
        } else {
            None
        }
    }

    /// Makes a tabular array of the given rows. There is one exactly when
    /// every row has `columns` items and the shape is within the storage
    /// limit.
    pub fn from_rows(columns: usize, rows: &Vec<Vec<u64>>) -> (made: Option<TabularArray>)
        ensures
            made is Some <==> (storage_fits(rows@.len(), columns as nat) && forall|i: int|
                0 <= i < rows@.len() ==> (#[trigger] rows@[i])@.len() == columns),
            made matches Some(t) ==> t.rows() == rows_of(rows@) && t.width() == columns,
    {
        if !shape_fits(rows.len(), columns) {
            return None;
        }
        proof {
            lemma_storage_fits_fewer_rows(0, rows@.len(), columns as nat);
        }
        let mut table = table_with_columns(columns);
        let mut i: usize = 0;
        while i < rows.len()
            invariant
                i <= rows@.len(),
                storage_fits(rows@.len(), columns as nat),
                table.width() == columns,
                table.rows() == rows_of(rows@.take(i as int)),
                forall|k: int| 0 <= k < i ==> (#[trigger] rows@[k])@.len() == columns,
            decreases rows@.len() - i,
        {
            let row = SampleVector::from_vec(copy_items(&rows[i]));
            proof {
                lemma_storage_fits_fewer_rows((i + 1) as nat, rows@.len(), columns as nat);
            }
            let pushed = table_push_row(&mut table, &row);
            if !pushed {
                return None;
            }
            proof {
                assert(rows@.take(i + 1) == rows@.take(i as int).push(rows@[i as int]));
                assert(rows_of(rows@.take(i + 1)) == rows_of(rows@.take(i as int)).push(
                    rows@[i as int]@,
                ));
            }
            i = i + 1;
        }
        proof {
            assert(rows@.take(i as int) == rows@);
        }
        Some(table)
    }

    /// The rows of the array, top to bottom.
    pub fn to_rows(&self) -> (rows: Vec<Vec<u64>>)
        ensures
            rows_of(rows@) == self.rows(),
    {
        let n = table_nrows(self);
        let mut rows: Vec<Vec<u64>> = Vec::new();
        let mut i: usize = 0;
        while i < n
            invariant
                i <= n,
                n == self.rows().len(),
                rows_of(rows@) == self.rows().take(i as int),
            decreases n - i,
        {
            let row = table_row(self, i);
            let items = row.to_vec();
            proof {
                assert(rows_of(rows@.push(items)) == rows_of(rows@).push(items@));
                assert(self.rows().take(i + 1) == self.rows().take(i as int).push(
                    self.rows()[i as int],
                ));
            }
            rows.push(items);
            i = i + 1;
        }
        proof {
            assert(self.rows().take(n as int) == self.rows());
        }
        rows
    }

    /// The number of rows.
    pub fn nrows(&self) -> (n: usize)
        ensures
            n == self.rows().len(),
    {
        table_nrows(self)
    }

    /// The number of columns.
    pub fn ncols(&self) -> (n: usize)
        ensures
            n == self.width(),
    {
        table_ncols(self)
    }

    /// The row at `index`, as a sample vector.
    pub fn row(&self, index: usize) -> (row: SampleVector)
        requires
            index < self.rows().len(),
        ensures
            row@ == self.rows()[index as int],
            row@.len() == self.width(),
    {
        table_row(self, index)
    }

    /// The column at `index`, as a sample vector.
    pub fn column(&self, index: usize) -> (column: SampleVector)
        requires
            index < self.width(),
        ensures
            column@ == column_of(self.rows(), index as int),
    {
        table_column(self, index)
    }

    /// The cell in row `row` and column `column`.
    pub fn get(&self, row: usize, column: usize) -> (cell: u64)
        requires
            row < self.rows().len(),
            column < self.width(),
        ensures
            cell == self.rows()[row as int][column as int],
    {
        table_get(self, row, column)
    }
}

/// A copy of a vector of bit patterns.
pub fn copy_items(items: &Vec<u64>) -> (copy: Vec<u64>)
    ensures
        copy@ == items@,
{
    let mut copy: Vec<u64> = Vec::with_capacity(items.len());
    let mut i: usize = 0;
    while i < items.len()
        invariant
            i <= items@.len(),
            copy@ == items@.take(i as int),
        decreases items@.len() - i,
    {
        proof {
            assert(items@.take(i + 1) == items@.take(i as int).push(items@[i as int]));
        }
        copy.push(items[i]);
        i = i + 1;
    }
    proof {
        assert(items@.take(i as int) == items@);
    }
    copy
}

/// `Array1::from_vec`: the array holds the vector's items in their order.
#[verifier::external_body]
pub(crate) fn vector_from_vec(items: Vec<u64>) -> (v: SampleVector)
    ensures
        vector_items(v) == items@,
{
    SampleVector { items: ndarray::Array1::from_vec(items) }
}

/// `to_vec` of a one-dimensional array: its items in their order.
#[verifier::external_body]
pub(crate) fn vector_to_vec(v: &SampleVector) -> (items: Vec<u64>)
    ensures
        items@ == vector_items(*v),
{
    v.items.to_vec()
}

/// `len` of a one-dimensional array: the number of items.
#[verifier::external_body]
pub(crate) fn vector_len(v: &SampleVector) -> (n: usize)
    ensures
        n == vector_items(*v).len(),
{
    v.items.len()
}

/// Indexing a one-dimensional array, which panics past its end.
#[verifier::external_body]
pub(crate) fn vector_get(v: &SampleVector, index: usize) -> (item: u64)
    requires
        index < vector_items(*v).len(),
    ensures
        item == vector_items(*v)[index as int],
{
    v.items[index]
}

/// `Array2::zeros` with the shape `(0, columns)`: an array of that width
/// without rows. It panics where `columns` is beyond the storage limit.
#[verifier::external_body]
pub(crate) fn table_with_columns(columns: usize) -> (t: TabularArray)
    requires
        storage_fits(0, columns as nat),
    ensures
        table_rows(t) == Seq::<Seq<u64>>::empty(),
        table_width(t) == columns,
{
    TabularArray { cells: ndarray::Array2::zeros((0, columns)) }
}

/// `nrows`: the length of the first axis.
#[verifier::external_body]
pub(crate) fn table_nrows(t: &TabularArray) -> (n: usize)
    ensures
        n == table_rows(*t).len(),
{
    t.cells.nrows()
}

/// `ncols`: the length of the second axis.
#[verifier::external_body]
pub(crate) fn table_ncols(t: &TabularArray) -> (n: usize)
    ensures
        n == table_width(*t),
{
    t.cells.ncols()
}

/// `index_axis` along the first axis, copied out: the row at
/// `index`, which has as many items as the array has columns. It panics past
/// the last row.
#[verifier::external_body]
pub(crate) fn table_row(t: &TabularArray, index: usize) -> (row: SampleVector)
    requires
        index < table_rows(*t).len(),
    ensures
        vector_items(row) == table_rows(*t)[index as int],
        vector_items(row).len() == table_width(*t),
{
    SampleVector { items: t.cells.index_axis(ndarray::Axis(0), index).to_owned() }
}

/// `index_axis` along the second axis, copied out: the column at `index`,
/// which holds the item at `index` of every row. It panics past the last
/// column.
#[verifier::external_body]
pub(crate) fn table_column(t: &TabularArray, index: usize) -> (column: SampleVector)
    requires
        index < table_width(*t),
    ensures
        vector_items(column) == column_of(table_rows(*t), index as int),
{
    SampleVector { items: t.cells.index_axis(ndarray::Axis(1), index).to_owned() }
}

/// Indexing a two-dimensional array, which panics outside its shape.
#[verifier::external_body]
pub(crate) fn table_get(t: &TabularArray, row: usize, column: usize) -> (cell: u64)
    requires
        row < table_rows(*t).len(),
        column < table_width(*t),
    ensures
        cell == table_rows(*t)[row as int][column as int],
{
    t.cells[[row, column]]
}

/// `Array2::push_row`: appends the row where its length is the array's width
/// and the grown shape is within the storage limit, and otherwise refuses and
/// leaves the array as it was.
#[verifier::external_body]
pub(crate) fn table_push_row(t: &mut TabularArray, row: &SampleVector) -> (pushed: bool)
    ensures
        pushed <==> (vector_items(*row).len() == table_width(*old(t)) && storage_fits(
            table_rows(*old(t)).len() + 1,
            table_width(*old(t)),
        )),
        pushed ==> table_rows(*final(t)) == table_rows(*old(t)).push(vector_items(*row)),
        !pushed ==> table_rows(*final(t)) == table_rows(*old(t)),
        table_width(*final(t)) == table_width(*old(t)),
{
    t.cells.push_row(row.items.view()).is_ok()
}

} // verus!
