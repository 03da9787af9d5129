//! A single grid square and the capability of drawing a border.
use vstd::prelude::*;

use crate::canvas::{DrawOp, DrawingContext};

verus! {

/// The value held by a cell. Each variant may be absent, which is distinct
/// from an empty string or a zero.
#[derive(Clone, Debug, PartialEq)]
pub enum CellValue {
    String(Option<String>),
    Int(Option<i32>),
    /// A 32-bit binary floating-point number, held as its IEEE 754 bit pattern.
    Float(Option<u32>),
}

/// One square of the grid, at a fixed column and row, measured in pixels.
#[derive(Debug)]
pub struct CellObject {
    pub column_id: u32,
    pub row_id: u32,
    pub height: u32,
    pub width: u32,
    pub value: CellValue,
}

/// The path commands that stroke the border of the cell at `(column_id, row_id)`
/// whose size is `width` by `height`: its top-left corner is at
/// `(column_id * width, row_id * height)`.
pub open spec fn cell_border(column_id: nat, row_id: nat, width: nat, height: nat) -> Seq<DrawOp> {
    seq![
        DrawOp::BeginPath,
        DrawOp::Rect {
            x: (column_id * width) as u64,
            y: (row_id * height) as u64,
            width: width as u32,
            height: height as u32,
        },
        DrawOp::Stroke,
    ]
}

proof fn lemma_product_fits(a: u32, b: u32)
    ensures
        a * b <= u64::MAX,
{
    assert(a * b <= 0xFFFF_FFFFint * 0xFFFF_FFFFint) by (nonlinear_arith)
        requires
            a <= 0xFFFF_FFFFint,
            b <= 0xFFFF_FFFFint,
    ;
}

impl CellObject {
    /// A cell at the given place and size, holding an absent string.
    pub fn new(column_id: u32, row_id: u32, height: u32, width: u32) -> (r: Self)
        ensures
            r.column_id == column_id,
            r.row_id == row_id,
            r.height == height,
            r.width == width,
            r.value == CellValue::String(None),
    {
        CellObject { column_id, row_id, height, width, value: CellValue::String(None) }
    }

    /// A copy of the cell's value.
    pub fn get_value(&self) -> (r: CellValue)
        ensures
            r == self.value,
    {
        match &self.value {
            CellValue::String(s) => CellValue::String(
                match s {
                    Some(t) => Some(t.clone()),
                    None => None,
                },
            ),
            CellValue::Int(i) => CellValue::Int(*i),
            CellValue::Float(f) => CellValue::Float(*f),
        }
    }
}

/// Something that can stroke its own border on a drawing surface.
pub trait Border {
    /// The commands that `draw` appends.
    spec fn border_ops(&self) -> Seq<DrawOp>;

    fn draw(&self, ctx: &mut DrawingContext)
        ensures
            final(ctx).ops@ == old(ctx).ops@ + self.border_ops(),
    ;
}

impl Border for CellObject {
    open spec fn border_ops(&self) -> Seq<DrawOp> {
        cell_border(self.column_id as nat, self.row_id as nat, self.width as nat, self.height as nat)
    }

    fn draw(&self, ctx: &mut DrawingContext) {
        proof {
            lemma_product_fits(self.column_id, self.width);
            lemma_product_fits(self.row_id, self.height);
        }
        let x: u64 = self.column_id as u64 * self.width as u64;
        let y: u64 = self.row_id as u64 * self.height as u64;
        ctx.begin_path();
        ctx.rect(x, y, self.width, self.height);
        ctx.stroke();
        assert(ctx.ops@ =~= old(ctx).ops@ + self.border_ops());
    }
}

} // verus!
