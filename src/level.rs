use vstd::prelude::*;
use crate::paint::{whole, whole_exec, Color, PaintOp};
use crate::scales::{Ratio, Scales};

verus! {

/// The edge of the graph a level meter stands on.
#[derive(Clone, Copy, Debug, PartialEq, Eq, Structural)]
pub enum Orientation {
    Left,
    Right,
    Top,
}

/// What a level meter emits when the operator moves it: its edge and the new
/// level.
#[derive(Clone, Copy, Debug, PartialEq, Eq, Structural)]
pub enum Signal {
    Level(Orientation, i32),
}

/// Parts of an axis length that a meter bar is thick.
pub const BAR_PARTS: i32 = 50;

/// A level meter: a bar along one edge whose extent shows the current level.
#[derive(Clone, Copy, Debug, PartialEq, Eq, Structural)]
pub struct Widget {
    pub orientation: Orientation,
    pub level: i32,
}

pub open spec fn clamp(k: int, lo: int, hi: int) -> int {
    if k < lo {
        lo
    } else if k > hi {
        hi
    } else {
        k
    }
}

impl Widget {
    /// The bar, as `(x, y, width, height)` in sample space, clipped to the
    /// ranges of `s`.
    pub open spec fn bar(self, s: Scales) -> (Ratio, Ratio, Ratio, Ratio) {
        let w = s.width_spec();
        let h = s.height_spec();
        match self.orientation {
            Orientation::Left => (
                whole(s.h.min as int),
                whole(s.v.min as int),
                Ratio { num: w as i128, den: BAR_PARTS as i128 },
                whole(clamp(self.level as int, s.v.min as int, s.v.max as int) - s.v.min),
            ),
            Orientation::Right => (
                Ratio { num: (BAR_PARTS * s.h.max - w) as i128, den: BAR_PARTS as i128 },
                whole(s.v.min as int),
                Ratio { num: w as i128, den: BAR_PARTS as i128 },
                whole(clamp(self.level as int, s.v.min as int, s.v.max as int) - s.v.min),
            ),
            Orientation::Top => (
                whole(s.h.min as int),
                Ratio { num: (BAR_PARTS * s.v.max - h) as i128, den: BAR_PARTS as i128 },
                whole(clamp(self.level as int, s.h.min as int, s.h.max as int) - s.h.min),
                Ratio { num: h as i128, den: BAR_PARTS as i128 },
            ),
        }
    }

    pub open spec fn draw_spec(self, s: Scales) -> Seq<PaintOp> {
        let b = self.bar(s);
        seq![PaintOp::SetColor(Color::Level), PaintOp::Rectangle(b.0, b.1, b.2, b.3), PaintOp::Fill]
    }

    pub fn new(orientation: Orientation) -> (r: Widget)
        ensures
            r.orientation == orientation,
            r.level == 0,
    {
        Widget { orientation, level: 0 }
    }

    /// Moves the meter to `level` and returns the signal it emits.
    pub fn set_level(&mut self, level: i32) -> (r: Signal)
        ensures
            final(self).orientation == old(self).orientation,
            final(self).level == level,
            r == Signal::Level(old(self).orientation, level),
    {
        self.level = level;
        Signal::Level(self.orientation, level)
    }

    /// Paints the bar in the level colour.
    pub fn draw(&self, s: &Scales) -> (r: Vec<PaintOp>)
        requires
            s.valid(),
        ensures
            r@ == self.draw_spec(*s),
    {
        let w = s.get_width();
        let h = s.get_height();
        let parts = BAR_PARTS as i128;
        let (x, y, bw, bh) = match self.orientation {
            Orientation::Left => (
                whole_exec(s.h.min as i64),
                whole_exec(s.v.min as i64),
                Ratio { num: w as i128, den: parts },
                whole_exec(clamp_exec(self.level, s.v.min, s.v.max) as i64 - s.v.min as i64),
            ),
            Orientation::Right => (
                Ratio { num: parts * s.h.max as i128 - w as i128, den: parts },
                whole_exec(s.v.min as i64),
                Ratio { num: w as i128, den: parts },
                whole_exec(clamp_exec(self.level, s.v.min, s.v.max) as i64 - s.v.min as i64),
            ),
            Orientation::Top => (
                whole_exec(s.h.min as i64),
                Ratio { num: parts * s.v.max as i128 - h as i128, den: parts },
                whole_exec(clamp_exec(self.level, s.h.min, s.h.max) as i64 - s.h.min as i64),
                Ratio { num: h as i128, den: parts },
            ),
        };
        let mut r: Vec<PaintOp> = Vec::new();
        r.push(PaintOp::SetColor(Color::Level));
        r.push(PaintOp::Rectangle(x, y, bw, bh));
        r.push(PaintOp::Fill);
        assert(r@ =~= self.draw_spec(*s));
        r
    }
}

fn clamp_exec(k: i32, lo: i32, hi: i32) -> (r: i32)
    requires
        lo <= hi,
    ensures
        r == clamp(k as int, lo as int, hi as int),
{
    if k < lo {
        lo
    } else if k > hi {
        hi
    } else {
        k
    }
}

} // verus!
