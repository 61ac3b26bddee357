use vstd::prelude::*;
use vstd::seq_lib::*;
use crate::grid::{axis_lines, line_spec, GridLine};
use crate::level::{Orientation, Widget as LevelWidget};
use crate::paint::{whole, whole_exec, Color, PaintOp};
use crate::scales::{Ratio, Scales};

verus! {

/// Number of equal bands the grid splits each axis into.
pub const GRID_BANDS: u16 = 10;

/// Parts of an axis length that a grid line is wide.
pub const LINE_PARTS: i128 = 1000;

/// What the graph panel emits: a repaint request, or a level meter moved.
#[derive(Clone, Copy, Debug, PartialEq, Eq, Structural)]
pub enum Signal {
    Draw,
    Level(Orientation, i32),
}

/// A surface that can be asked to repaint.
#[derive(Clone, Copy, Debug, PartialEq, Eq, Structural)]
pub enum Invalidation {
    /// The drawing area, from its origin over `width` by `height` pixels.
    Area(u32, u32),
    /// The level meter on one edge, whole.
    Level(Orientation),
}

/// The graph panel: a drawing surface framed by level meters on its left,
/// right and top edges.
#[derive(Clone, Copy, Debug, PartialEq, Eq, Structural)]
pub struct Widget {
    pub level_left: LevelWidget,
    pub level_right: LevelWidget,
    pub level_top: LevelWidget,
}

pub open spec fn scale_color(main: bool) -> Color {
    if main {
        Color::MainScale
    } else {
        Color::SecondaryScale
    }
}

/// Background fill over the whole range, then its border.
pub open spec fn background_ops(s: Scales) -> Seq<PaintOp> {
    let rect = PaintOp::Rectangle(
        whole(s.h.min as int),
        whole(s.v.min as int),
        whole(s.width_spec()),
        whole(s.height_spec()),
    );
    seq![
        PaintOp::SetColor(Color::Background),
        rect,
        PaintOp::Fill,
        PaintOp::SetColor(Color::MainScale),
        rect,
        PaintOp::Stroke,
    ]
}

/// Line `i` of the grid on both axes: a vertical line across the value range
/// and a horizontal line across the sample range, each as wide as a
/// thousandth of its axis.
pub open spec fn grid_line_ops(s: Scales, i: int) -> Seq<PaintOp> {
    let vx = line_spec(s.h.min as int, s.width_spec(), GRID_BANDS as int, i);
    let hy = line_spec(s.v.min as int, s.height_spec(), GRID_BANDS as int, i);
    seq![
        PaintOp::SetColor(scale_color(vx.main)),
        PaintOp::SetLineWidth(Ratio { num: s.width_spec() as i128, den: LINE_PARTS }),
        PaintOp::MoveTo(vx.at, whole(s.v.min as int)),
        PaintOp::LineTo(vx.at, whole(s.v.max as int)),
        PaintOp::Stroke,
        PaintOp::SetLineWidth(Ratio { num: s.height_spec() as i128, den: LINE_PARTS }),
        PaintOp::MoveTo(whole(s.h.min as int), hy.at),
        PaintOp::LineTo(whole(s.h.max as int), hy.at),
        PaintOp::Stroke,
    ]
}

/// The first `k` grid lines.
pub open spec fn grid_ops_upto(s: Scales, k: int) -> Seq<PaintOp> {
    Seq::new(k as nat, |i: int| grid_line_ops(s, i)).flatten()
}

pub open spec fn grid_ops(s: Scales) -> Seq<PaintOp> {
    grid_ops_upto(s, GRID_BANDS + 1)
}

fn background_exec(s: &Scales) -> (r: Vec<PaintOp>)
    requires
        s.valid(),
    ensures
        r@ == background_ops(*s),
{
    let rect = PaintOp::Rectangle(
        whole_exec(s.h.min as i64),
        whole_exec(s.v.min as i64),
        whole_exec(s.get_width()),
        whole_exec(s.get_height()),
    );
    let mut r: Vec<PaintOp> = Vec::new();
    r.push(PaintOp::SetColor(Color::Background));
    r.push(rect);
    r.push(PaintOp::Fill);
    r.push(PaintOp::SetColor(Color::MainScale));
    r.push(rect);
    r.push(PaintOp::Stroke);
    assert(r@ =~= background_ops(*s));
    r
}

fn grid_line_exec(s: &Scales, vx: GridLine, hy: GridLine, Ghost(i): Ghost<int>) -> (r: Vec<PaintOp>)
    requires
        s.valid(),
        vx == line_spec(s.h.min as int, s.width_spec(), GRID_BANDS as int, i),
        hy == line_spec(s.v.min as int, s.height_spec(), GRID_BANDS as int, i),
    ensures
        r@ == grid_line_ops(*s, i),
{
    let color = if vx.main {
        Color::MainScale
    } else {
        Color::SecondaryScale
    };
    let mut r: Vec<PaintOp> = Vec::new();
    r.push(PaintOp::SetColor(color));
    r.push(PaintOp::SetLineWidth(Ratio { num: s.get_width() as i128, den: LINE_PARTS }));
    r.push(PaintOp::MoveTo(vx.at, whole_exec(s.v.min as i64)));
    r.push(PaintOp::LineTo(vx.at, whole_exec(s.v.max as i64)));
    r.push(PaintOp::Stroke);
    r.push(PaintOp::SetLineWidth(Ratio { num: s.get_height() as i128, den: LINE_PARTS }));
    r.push(PaintOp::MoveTo(whole_exec(s.h.min as i64), hy.at));
    r.push(PaintOp::LineTo(whole_exec(s.h.max as i64), hy.at));
    r.push(PaintOp::Stroke);
    assert(r@ =~= grid_line_ops(*s, i));
    r
}

impl Widget {
    /// Background, border, grid, then the left and right level meters.
    pub open spec fn draw_spec(self, s: Scales) -> Seq<PaintOp> {
        background_ops(s) + grid_ops(s) + self.level_left.draw_spec(s) + self.level_right.draw_spec(s)
    }

    /// Three meters at level zero on the left, right and top edges.
    pub open spec fn new_spec() -> Widget {
        Widget {
            level_left: LevelWidget { orientation: Orientation::Left, level: 0 },
            level_right: LevelWidget { orientation: Orientation::Right, level: 0 },
            level_top: LevelWidget { orientation: Orientation::Top, level: 0 },
        }
    }

    pub fn new() -> (r: Widget)
        ensures
            r == Widget::new_spec(),
    {
        Widget {
            level_left: LevelWidget::new(Orientation::Left),
            level_right: LevelWidget::new(Orientation::Right),
            level_top: LevelWidget::new(Orientation::Top),
        }
    }

    pub fn level_left(&self) -> (r: &LevelWidget)
        ensures
            *r == self.level_left,
    {
        &self.level_left
    }

    pub fn level_right(&self) -> (r: &LevelWidget)
        ensures
            *r == self.level_right,
    {
        &self.level_right
    }

    pub fn level_top(&self) -> (r: &LevelWidget)
        ensures
            *r == self.level_top,
    {
        &self.level_top
    }

    /// Paints the panel's layers in order over the ranges of `s`.
    pub fn draw(&self, s: &Scales) -> (r: Vec<PaintOp>)
        requires
            s.valid(),
        ensures
            r@ == self.draw_spec(*s),
    {
        let mut r = background_exec(s);
        let vs = axis_lines(s.h.min, s.h.max, GRID_BANDS);
        let hs = axis_lines(s.v.min, s.v.max, GRID_BANDS);
        let mut i: usize = 0;
        while i <= GRID_BANDS as usize
            invariant
                s.valid(),
                i <= GRID_BANDS + 1,
                vs@.len() == GRID_BANDS + 1,
                hs@.len() == GRID_BANDS + 1,
                forall|k: int|
                    0 <= k <= GRID_BANDS ==> vs@[k] == line_spec(
                        s.h.min as int,
                        s.width_spec(),
                        GRID_BANDS as int,
                        k,
                    ),
                forall|k: int|
                    0 <= k <= GRID_BANDS ==> hs@[k] == line_spec(
                        s.v.min as int,
                        s.height_spec(),
                        GRID_BANDS as int,
                        k,
                    ),
                r@ == background_ops(*s) + grid_ops_upto(*s, i as int),
            decreases GRID_BANDS + 1 - i,
        {
            let mut line = grid_line_exec(s, vs[i], hs[i], Ghost(i as int));
            proof {
                let f = |k: int| grid_line_ops(*s, k);
                assert(Seq::new((i + 1) as nat, f) =~= Seq::new(i as nat, f).push(f(i as int)));
                Seq::new(i as nat, f).lemma_flatten_push(f(i as int));
            }
            r.append(&mut line);
            assert(r@ =~= background_ops(*s) + grid_ops_upto(*s, i + 1));
            i = i + 1;
        }
        let mut left = self.level_left.draw(s);
        r.append(&mut left);
        let mut right = self.level_right.draw(s);
        r.append(&mut right);
        r
    }

    /// The repaint requests for the panel: the whole drawing area of
    /// `width` by `height` pixels, then the left and right meters.
    pub fn invalidate(&self, width: u32, height: u32) -> (r: Vec<Invalidation>)
        ensures
            r@ == seq![
                Invalidation::Area(width, height),
                Invalidation::Level(Orientation::Left),
                Invalidation::Level(Orientation::Right),
            ],
    {
        let mut r: Vec<Invalidation> = Vec::new();
        r.push(Invalidation::Area(width, height));
        r.push(Invalidation::Level(Orientation::Left));
        r.push(Invalidation::Level(Orientation::Right));
        assert(r@ =~= seq![
            Invalidation::Area(width, height),
            Invalidation::Level(Orientation::Left),
            Invalidation::Level(Orientation::Right),
        ]);
        r
    }
}

} // verus!
