//! A column of cells sharing an index, a declared value type and a width.
use vstd::prelude::*;

use crate::canvas::{DrawOp, DrawingContext};
use crate::cell::{cell_border, Border, CellObject, CellValue};
use crate::naming::{bijective_name, column_name, letter};

verus! {

/// The height of every row, in pixels.
pub const CELL_HEIGHT: u32 = 30;

/// The kind of value that the cells of a column are meant to hold.
#[derive(Clone, Copy, Debug, PartialEq, Eq, Structural)]
pub enum ColumnType {
    String,
    Int,
    Float,
}

#[derive(Debug)]
pub struct Column {
    pub column_id: u32,
    pub column_type: ColumnType,
    pub cells: Vec<CellObject>,
    pub width: u32,
}

/// The path commands that draw the borders of the first `num_rows` cells of
/// column `column_id`, top row first.
pub open spec fn column_border(column_id: nat, num_rows: nat, width: nat) -> Seq<DrawOp>
    decreases num_rows,
{
    if num_rows == 0 {
        Seq::empty()
    } else {
        column_border(column_id, (num_rows - 1) as nat, width) + cell_border(
            column_id,
            (num_rows - 1) as nat,
            width,
            CELL_HEIGHT as nat,
        )
    }
}

/// `cell` is the freshly built cell at `(column_id, row_id)` of a column of
/// the given width.
pub open spec fn is_fresh_cell(cell: CellObject, column_id: nat, row_id: nat, width: nat) -> bool {
    &&& cell.column_id == column_id
    &&& cell.row_id == row_id
    &&& cell.height == CELL_HEIGHT
    &&& cell.width == width
    &&& cell.value == CellValue::String(None)
}

impl Column {
    /// `self` holds `num_rows` fresh cells of its own index and width, in row order.
    pub open spec fn has_fresh_cells(&self, num_rows: nat) -> bool {
        &&& self.cells@.len() == num_rows
        &&& forall|r: int|
            0 <= r < num_rows ==> is_fresh_cell(
                #[trigger] self.cells@[r],
                self.column_id as nat,
                r as nat,
                self.width as nat,
            )
    }

    /// Builds the column's cells in row order, drawing the border of each as
    /// soon as it is built.
    pub fn new(ctx: &mut DrawingContext, column_id: u32, num_rows: u32, width: u32) -> (r: Self)
        ensures
            r.column_id == column_id,
            r.column_type == ColumnType::String,
            r.width == width,
            r.has_fresh_cells(num_rows as nat),
            final(ctx).ops@ == old(ctx).ops@ + column_border(
                column_id as nat,
                num_rows as nat,
                width as nat,
            ),
    {
        let mut cells: Vec<CellObject> = Vec::new();
        let mut row_id: u32 = 0;
        while row_id < num_rows
            invariant
                row_id <= num_rows,
                cells@.len() == row_id,
                forall|r: int|
                    0 <= r < row_id ==> is_fresh_cell(
                        #[trigger] cells@[r],
                        column_id as nat,
                        r as nat,
                        width as nat,
                    ),
                ctx.ops@ == old(ctx).ops@ + column_border(
                    column_id as nat,
                    row_id as nat,
                    width as nat,
                ),
            decreases num_rows - row_id,
        {
            let cell = CellObject::new(column_id, row_id, CELL_HEIGHT, width);
            cell.draw(ctx);
            cells.push(cell);
            row_id = row_id + 1;
            assert(ctx.ops@ =~= old(ctx).ops@ + column_border(
                column_id as nat,
                row_id as nat,
                width as nat,
            ));
        }
        Column { column_id, column_type: ColumnType::String, cells, width }
    }

    pub fn get_width(&self) -> (r: u32)
        ensures
            r == self.width,
    {
        self.width
    }

    /// Changes the column's width. The cells keep the width they were built
    /// with, and nothing is redrawn.
    pub fn set_width(&mut self, new_width: u32)
        ensures
            final(self).width == new_width,
            final(self).column_id == old(self).column_id,
            final(self).column_type == old(self).column_type,
            final(self).cells == old(self).cells,
    {
        self.width = new_width;
    }

    /// The spreadsheet-style name of the column: A to Z, then AA to ZZ, then
    /// AAA, and so on.
    pub fn get_column_name(&self) -> (r: String)
        ensures
            r@ == column_name(self.column_id as nat),
    {
        let mut n: u64 = self.column_id as u64 + 1;
        let mut name = String::new();
        let alphabet: &str = "ABCDEFGHIJKLMNOPQRSTUVWXYZ";
        proof {
            reveal_strlit("ABCDEFGHIJKLMNOPQRSTUVWXYZ");
        }
        while n > 0
            invariant
                column_name(self.column_id as nat) == bijective_name(n as nat) + name@,
                alphabet@.len() == 26,
                forall|d: int| 0 <= d < 26 ==> #[trigger] alphabet@[d] == letter(d as nat),
            decreases n,
        {
            let k: usize = ((n - 1) % 26) as usize;
            let digit: &str = alphabet.substring_char(k, k + 1);
            assert(digit@ =~= seq![letter(k as nat)]);
            proof {
                assert(bijective_name(n as nat) == bijective_name(((n - 1) / 26) as nat).push(
                    letter(k as nat),
                ));
                assert(bijective_name(n as nat) + name@ =~= bijective_name(((n - 1) / 26) as nat)
                    + (digit@ + name@));
            }
            name = String::from_str(digit).concat(name.as_str());
            n = (n - 1) / 26;
        }
        assert(name@ =~= column_name(self.column_id as nat));
        name
    }
}

} // verus!
