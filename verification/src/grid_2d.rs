use vstd::prelude::*;

verus! {

/// A grid of `columns` by `rows` cells, stored row by row.
pub struct Grid2D<T> {
    columns: usize,
    rows: usize,
    grid: Vec<T>,
}

impl<T> View for Grid2D<T> {
    type V = Seq<T>;

    /// The cells in storage order: row 0 from left to right, then row 1, and
    /// so on.
    closed spec fn view(&self) -> Seq<T> {
        self.grid@
    }
}

impl<T> Grid2D<T> {
    pub closed spec fn spec_columns(&self) -> usize {
        self.columns
    }

    pub closed spec fn spec_rows(&self) -> usize {
        self.rows
    }

    /// The number of cells.
    pub open spec fn spec_len(&self) -> int {
        self.spec_columns() * self.spec_rows()
    }

    /// What every grid satisfies: it has at least one column and one row,
    /// and one cell for each pair of them, which a `usize` can count.
    pub open spec fn well_formed(&self) -> bool {
        &&& self.spec_columns() >= 1
        &&& self.spec_rows() >= 1
        &&& self.spec_len() <= usize::MAX
        &&& self@.len() == self.spec_len()
    }

    /// The place in storage order of the cell in `column` and `row`.
    pub open spec fn spec_index(&self, column: int, row: int) -> int {
        row * self.spec_columns() + column
    }

    /// The value of the cell in `column` and `row`.
    pub open spec fn spec_value(&self, column: int, row: int) -> T {
        self@[self.spec_index(column, row)]
    }

    /// Inside the grid, two cells share a place in storage only if they are
    /// the same cell.
    pub proof fn lemma_index_injective(&self, column1: int, row1: int, column2: int, row2: int)
        requires
            0 <= column1 < self.spec_columns(),
            0 <= column2 < self.spec_columns(),
            self.spec_index(column1, row1) == self.spec_index(column2, row2),
        ensures
            column1 == column2,
            row1 == row2,
    {
        let width = self.spec_columns() as int;
        assert((row1 - row2) * width == column2 - column1) by (nonlinear_arith)
            requires
                row1 * width + column1 == row2 * width + column2,
        ;
        assert(row1 == row2) by (nonlinear_arith)
            requires
                (row1 - row2) * width == column2 - column1,
                -width < column2 - column1 < width,
        ;
    }

    /// A cell inside the grid has its place inside the storage.
    pub proof fn lemma_index_in_range(&self, column: int, row: int)
        requires
            0 <= column < self.spec_columns(),
            0 <= row < self.spec_rows(),
        ensures
            0 <= self.spec_index(column, row) < self.spec_len(),
    {
        let width = self.spec_columns() as int;
        let height = self.spec_rows() as int;
        assert(0 <= row * width && row * width + width <= height * width) by (nonlinear_arith)
            requires
                0 <= row < height,
                0 < width,
        ;
        assert(height * width == width * height) by (nonlinear_arith);
    }

    /// Reading after writing: once the cell in `column` and `row` has been
    /// set to `value`, that cell holds `value`, and every other cell inside
    /// the grid holds what it held before.
    pub proof fn lemma_set_then_get(
        before: Self,
        after: Self,
        column: int,
        row: int,
        value: T,
        other_column: int,
        other_row: int,
    )
        requires
            before.well_formed(),
            after.spec_columns() == before.spec_columns(),
            after.spec_rows() == before.spec_rows(),
            after@ == before@.update(before.spec_index(column, row), value),
            0 <= column < before.spec_columns(),
            0 <= row < before.spec_rows(),
            0 <= other_column < before.spec_columns(),
            0 <= other_row < before.spec_rows(),
        ensures
            after.spec_value(column, row) == value,
            (other_column != column || other_row != row) ==> after.spec_value(
                other_column,
                other_row,
            ) == before.spec_value(other_column, other_row),
    {
        before.lemma_index_in_range(column, row);
        before.lemma_index_in_range(other_column, other_row);
        if other_column != column || other_row != row {
            if before.spec_index(column, row) == before.spec_index(other_column, other_row) {
                before.lemma_index_injective(column, row, other_column, other_row);
            }
        }
    }
}

impl<T: Copy> Grid2D<T> {
    /// A grid with every cell set to `fill`.
    pub fn new(columns: usize, rows: usize, fill: T) -> (grid: Self)
        requires
            columns >= 1,
            rows >= 1,
            columns * rows <= usize::MAX,
        ensures
            grid.well_formed(),
            grid.spec_columns() == columns,
            grid.spec_rows() == rows,
            grid@ == Seq::new((columns * rows) as nat, |i: int| fill),
    {
        let cells: usize = columns * rows;
        let mut grid: Vec<T> = Vec::new();
        let mut filled: usize = 0;
        while filled < cells
            invariant
                filled <= cells,
                grid@.len() == filled,
                forall|i: int| 0 <= i < filled ==> grid@[i] == fill,
            decreases cells - filled,
        {
            grid.push(fill);
            filled = filled + 1;
        }
        assert(grid@ =~= Seq::new((columns * rows) as nat, |i: int| fill));
        Grid2D { columns, rows, grid }
    }

    pub fn columns(&self) -> (columns: usize)
        ensures
            columns == self.spec_columns(),
    {
        self.columns
    }

    pub fn rows(&self) -> (rows: usize)
        ensures
            rows == self.spec_rows(),
    {
        self.rows
    }

    pub fn get_value_by_index(&self, index: usize) -> (value: T)
        requires
            self.well_formed(),
            index < self.spec_len(),
        ensures
            value == self@[index as int],
    {
        self.grid[index]
    }

    pub fn get_value(&self, column: usize, row: usize) -> (value: T)
        requires
            self.well_formed(),
            self.spec_index(column as int, row as int) < self.spec_len(),
        ensures
            value == self.spec_value(column as int, row as int),
    {
        let index: usize = self.get_index(column, row);
        self.grid[index]
    }

    pub fn set_value_by_index(&mut self, index: usize, value: T)
        requires
            old(self).well_formed(),
            index < old(self).spec_len(),
        ensures
            final(self).well_formed(),
            final(self).spec_columns() == old(self).spec_columns(),
            final(self).spec_rows() == old(self).spec_rows(),
            final(self)@ == old(self)@.update(index as int, value),
    {
        self.grid.set(index, value);
    }

    pub fn set_value(&mut self, column: usize, row: usize, value: T)
        requires
            old(self).well_formed(),
            old(self).spec_index(column as int, row as int) < old(self).spec_len(),
        ensures
            final(self).well_formed(),
            final(self).spec_columns() == old(self).spec_columns(),
            final(self).spec_rows() == old(self).spec_rows(),
            final(self)@ == old(self)@.update(
                old(self).spec_index(column as int, row as int),
                value,
            ),
    {
        let index: usize = self.get_index(column, row);
        self.grid.set(index, value);
    }

    fn get_index(&self, column: usize, row: usize) -> (index: usize)
        requires
            self.spec_index(column as int, row as int) <= usize::MAX,
        ensures
            index == self.spec_index(column as int, row as int),
    {
        assert(row * self.columns >= 0) by (nonlinear_arith);
        row * self.columns + column
    }
}

} // verus!
