use vstd::prelude::*;
use crate::scales::{Ratio, Scales};

verus! {

/// One line of the grid along an axis: its position and whether it is drawn
/// in the main colour.
#[derive(Clone, Copy, Debug, PartialEq, Eq, Structural)]
pub struct GridLine {
    pub at: Ratio,
    pub main: bool,
}

/// Line `i` of `n` bands is a main line when it lies on a multiple of half
/// the axis: either border, or the midpoint.
pub open spec fn is_main(n: int, i: int) -> bool {
    i == 0 || i == n || 2 * i == n
}

/// Line `i` of an axis from `lo` of length `len` split into `n` equal bands,
/// at `lo + len * i / n`.
pub open spec fn line_spec(lo: int, len: int, n: int, i: int) -> GridLine {
    GridLine { at: Ratio { num: (lo * n + len * i) as i128, den: n as i128 }, main: is_main(n, i) }
}

/// The `n + 1` lines that split the range `[lo, hi]` into `n` equal bands,
/// from `lo` to `hi`.
pub fn axis_lines(lo: i32, hi: i32, n: u16) -> (r: Vec<GridLine>)
    requires
        lo < hi,
        n > 0,
    ensures
        r@.len() == n + 1,
        forall|i: int| 0 <= i <= n ==> r@[i] == line_spec(lo as int, hi - lo, n as int, i),
{
    let len: i128 = hi as i128 - lo as i128;
    let nn: i128 = n as i128;
    let mut r: Vec<GridLine> = Vec::new();
    let mut i: u32 = 0;
    while i <= n as u32
        invariant
            i <= n + 1,
            len == hi - lo,
            nn == n,
            r@.len() == i,
            forall|k: int| 0 <= k < i ==> r@[k] == line_spec(lo as int, hi - lo, n as int, k),
        decreases n + 1 - i,
    {
        proof {
            crate::scales::lemma_mul_abs_le(lo as int, n as int, 0x8000_0000, 0x1_0000);
            crate::scales::lemma_mul_abs_le(len as int, i as int, 0x1_0000_0000, 0x1_0000);
        }
        let main = i == 0 || i == n as u32 || 2 * i == n as u32;
        r.push(GridLine { at: Ratio { num: lo as i128 * nn + len * (i as i128), den: nn }, main });
        i = i + 1;
    }
    r
}

/// Vertical lines (positions on the horizontal axis) and horizontal lines
/// (positions on the vertical axis) of a grid.
#[derive(Clone, Debug)]
pub struct Grid {
    pub vertical: Vec<GridLine>,
    pub horizontal: Vec<GridLine>,
}

impl Grid {
    pub open spec fn matches(self, s: Scales, n: int) -> bool {
        &&& self.vertical@.len() == n + 1
        &&& self.horizontal@.len() == n + 1
        &&& forall|i: int| 0 <= i <= n ==> self.vertical@[i] == line_spec(s.h.min as int, s.width_spec(), n, i)
        &&& forall|i: int| 0 <= i <= n ==> self.horizontal@[i] == line_spec(s.v.min as int, s.height_spec(), n, i)
    }
}

/// The grid that splits both ranges of `s` into `n` equal bands.
pub fn grid(s: &Scales, n: u16) -> (r: Grid)
    requires
        s.valid(),
        n > 0,
    ensures
        r.matches(*s, n as int),
{
    Grid { vertical: axis_lines(s.h.min, s.h.max, n), horizontal: axis_lines(s.v.min, s.v.max, n) }
}

/// Splitting an axis into `n` bands gives `n + 1` lines of which both borders
/// are main lines; among the interior lines exactly one, the midpoint, is a
/// main line when `n` is even, and none when `n` is odd.
pub proof fn lemma_grid_main_lines(s: Scales, n: int, g: Grid)
    requires
        s.valid(),
        n > 0,
        g.matches(s, n),
    ensures
        g.vertical@.len() == n + 1,
        g.horizontal@.len() == n + 1,
        g.vertical@[0].main && g.vertical@[n].main,
        g.horizontal@[0].main && g.horizontal@[n].main,
        forall|i: int|
            0 < i < n ==> (g.vertical@[i].main <==> (n % 2 == 0 && i == n / 2)),
        forall|i: int|
            0 < i < n ==> (g.horizontal@[i].main <==> (n % 2 == 0 && i == n / 2)),
        n % 2 == 0 ==> g.vertical@[n / 2].main && g.horizontal@[n / 2].main,
{
}

} // verus!
