//! The grid: a row of columns with fixed row and column counts.
use vstd::prelude::*;

use crate::canvas::{DrawOp, DrawingContext};
use crate::column::{column_border, Column, ColumnType};

verus! {

/// The width every column is built with, in pixels.
pub const COLUMN_WIDTH: u32 = 80;

#[derive(Debug)]
pub struct Grid {
    pub num_rows: u32,
    pub num_cols: u32,
    pub columns: Vec<Column>,
}

/// The path commands that draw the borders of a grid's first `num_cols`
/// columns of `num_rows` cells: column by column, and top to bottom within a
/// column.
pub open spec fn grid_border(num_rows: nat, num_cols: nat) -> Seq<DrawOp>
    decreases num_cols,
{
    if num_cols == 0 {
        Seq::empty()
    } else {
        grid_border(num_rows, (num_cols - 1) as nat) + column_border(
            (num_cols - 1) as nat,
            num_rows,
            COLUMN_WIDTH as nat,
        )
    }
}

/// The sum of the widths of `columns`.
pub open spec fn total_width(columns: Seq<Column>) -> int
    decreases columns.len(),
{
    if columns.len() == 0 {
        0
    } else {
        total_width(columns.drop_last()) + columns.last().width
    }
}

/// When every column has width `w`, the widths add up to `w` times their number.
pub proof fn lemma_total_width_uniform(columns: Seq<Column>, w: int)
    requires
        forall|c: int| 0 <= c < columns.len() ==> #[trigger] columns[c].width == w,
    ensures
        total_width(columns) == columns.len() * w,
    decreases columns.len(),
{
    if columns.len() > 0 {
        lemma_total_width_uniform(columns.drop_last(), w);
        assert(columns.len() * w == (columns.len() - 1) * w + w) by (nonlinear_arith);
    }
}

proof fn lemma_total_width_bound(columns: Seq<Column>)
    ensures
        0 <= total_width(columns) <= columns.len() * 0xFFFF_FFFF,
    decreases columns.len(),
{
    if columns.len() > 0 {
        lemma_total_width_bound(columns.drop_last());
    }
}

impl Grid {
    /// Every column sits at its own index and holds one cell per row, each
    /// cell at its own column and row.
    pub open spec fn wf(&self) -> bool {
        &&& self.columns@.len() == self.num_cols
        &&& forall|c: int|
            0 <= c < self.num_cols ==> {
                let col = #[trigger] self.columns@[c];
                &&& col.column_id == c
                &&& col.cells@.len() == self.num_rows
                &&& forall|r: int|
                    0 <= r < self.num_rows ==> #[trigger] col.cells@[r].column_id == c
                        && col.cells@[r].row_id == r
            }
    }

    /// Builds the columns in index order, each `COLUMN_WIDTH` wide; every
    /// cell's border is drawn as the cell is built.
    pub fn new(ctx: &mut DrawingContext, num_rows: u32, num_cols: u32) -> (r: Self)
        ensures
            r.wf(),
            r.num_rows == num_rows,
            r.num_cols == num_cols,
            forall|c: int|
                0 <= c < num_cols ==> {
                    let col = #[trigger] r.columns@[c];
                    &&& col.width == COLUMN_WIDTH
                    &&& col.column_type == ColumnType::String
                    &&& col.has_fresh_cells(num_rows as nat)
                },
            total_width(r.columns@) == num_cols * COLUMN_WIDTH,
            final(ctx).ops@ == old(ctx).ops@ + grid_border(num_rows as nat, num_cols as nat),
    {
        let mut columns: Vec<Column> = Vec::new();
        let mut column_id: u32 = 0;
        while column_id < num_cols
            invariant
                column_id <= num_cols,
                columns@.len() == column_id,
                forall|c: int|
                    0 <= c < column_id ==> {
                        let col = #[trigger] columns@[c];
                        &&& col.column_id == c
                        &&& col.width == COLUMN_WIDTH
                        &&& col.column_type == ColumnType::String
                        &&& col.has_fresh_cells(num_rows as nat)
                    },
                ctx.ops@ == old(ctx).ops@ + grid_border(num_rows as nat, column_id as nat),
            decreases num_cols - column_id,
        {
            let column = Column::new(ctx, column_id, num_rows, COLUMN_WIDTH);
            columns.push(column);
            column_id = column_id + 1;
            assert(ctx.ops@ =~= old(ctx).ops@ + grid_border(num_rows as nat, column_id as nat));
        }
        proof {
            lemma_total_width_uniform(columns@, COLUMN_WIDTH as int);
        }
        let grid = Grid { num_rows, num_cols, columns };
        assert(grid.wf()) by {
            assert forall|c: int| 0 <= c < num_cols implies {
                let col = #[trigger] grid.columns@[c];
                &&& col.column_id == c
                &&& col.cells@.len() == num_rows
                &&& forall|r: int|
                    0 <= r < num_rows ==> #[trigger] col.cells@[r].column_id == c
                        && col.cells@[r].row_id == r
            } by {
                let col = grid.columns@[c];
                assert(col.has_fresh_cells(num_rows as nat));
            }
        }
        grid
    }

    /// The column at zero-based index `col_num`, if there is one.
    pub fn get_column(&self, col_num: u32) -> (r: Option<&Column>)
        ensures
            col_num < self.columns@.len() ==> r == Some(&self.columns@[col_num as int]),
            col_num >= self.columns@.len() ==> r is None,
    {
        if (col_num as usize) < self.columns.len() {
            Some(&self.columns[col_num as usize])
        } else {
            None
        }
    }

    /// The sum of the widths of the columns.
    pub fn get_width(&self) -> (r: u64)
        requires
            self.wf(),
        ensures
            r == total_width(self.columns@),
    {
        let mut sum: u64 = 0;
        let mut i: usize = 0;
        while i < self.columns.len()
            invariant
                i <= self.columns@.len(),
                self.columns@.len() <= u32::MAX,
                sum == total_width(self.columns@.subrange(0, i as int)),
            decreases self.columns@.len() - i,
        {
            proof {
                lemma_total_width_bound(self.columns@.subrange(0, i as int));
                assert(self.columns@.subrange(0, i + 1).drop_last() =~= self.columns@.subrange(
                    0,
                    i as int,
                ));
                assert(i * 0xFFFF_FFFF + 0xFFFF_FFFF <= 0xFFFF_FFFFint * 0x1_0000_0000) by (
                nonlinear_arith)
                    requires
                        i < 0xFFFF_FFFF,
                ;
            }
            sum = sum + self.columns[i].get_width() as u64;
            i = i + 1;
        }
        assert(self.columns@.subrange(0, i as int) =~= self.columns@);
        sum
    }
}

} // verus!
