//! A drawing surface that records the path commands issued on it, in order.
//! The host replays them on its own 2D context.
use vstd::prelude::*;

verus! {

/// One immediate-mode path command.
#[derive(Clone, Copy, Debug, PartialEq, Eq, Structural)]
pub enum DrawOp {
    /// Starts a new path.
    BeginPath,
    /// Adds a rectangle with top-left corner `(x, y)` to the current path.
    Rect { x: u64, y: u64, width: u32, height: u32 },
    /// Strokes the current path with the host's stroke style.
    Stroke,
}

/// The commands drawn so far, oldest first.
#[derive(Debug)]
pub struct DrawingContext {
    pub ops: Vec<DrawOp>,
}

impl DrawingContext {
    /// A surface on which nothing has been drawn.
    pub fn new() -> (r: Self)
        ensures
            r.ops@ == Seq::<DrawOp>::empty(),
    {
        DrawingContext { ops: Vec::new() }
    }

    pub fn begin_path(&mut self)
        ensures
            final(self).ops@ == old(self).ops@.push(DrawOp::BeginPath),
    {
        self.ops.push(DrawOp::BeginPath);
    }

    pub fn rect(&mut self, x: u64, y: u64, width: u32, height: u32)
        ensures
            final(self).ops@ == old(self).ops@.push(DrawOp::Rect { x, y, width, height }),
    {
        self.ops.push(DrawOp::Rect { x, y, width, height });
    }

    pub fn stroke(&mut self)
        ensures
            final(self).ops@ == old(self).ops@.push(DrawOp::Stroke),
    {
        self.ops.push(DrawOp::Stroke);
    }
}

} // verus!
