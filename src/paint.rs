use vstd::prelude::*;
use crate::scales::{Matrix, Ratio};

verus! {

/// The colours a frame is painted with; the application maps each to RGB.
#[derive(Clone, Copy, Debug, PartialEq, Eq, Structural)]
pub enum Color {
    Background,
    MainScale,
    SecondaryScale,
    Level,
    Trigger,
    Trace,
}

/// One primitive of a 2D paint context. Coordinates are exact fractions in
/// sample space once `SetMatrix` has been issued.
#[derive(Clone, Copy, Debug, PartialEq, Eq, Structural)]
pub enum PaintOp {
    SetMatrix(Matrix),
    SetColor(Color),
    SetLineWidth(Ratio),
    /// Rectangle with corner `(x, y)`, width and height.
    Rectangle(Ratio, Ratio, Ratio, Ratio),
    Fill,
    Stroke,
    MoveTo(Ratio, Ratio),
    LineTo(Ratio, Ratio),
}

/// The whole number `k` as a fraction.
pub open spec fn whole(k: int) -> Ratio {
    Ratio { num: k as i128, den: 1 }
}

pub fn whole_exec(k: i64) -> (r: Ratio)
    ensures
        r == whole(k as int),
{
    Ratio { num: k as i128, den: 1 }
}

} // verus!
