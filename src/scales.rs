use vstd::prelude::*;

verus! {

/// An exact fraction `num / den`; every constructor in this crate keeps `den > 0`.
#[derive(Clone, Copy, Debug, PartialEq, Eq, Structural)]
pub struct Ratio {
    pub num: i128,
    pub den: i128,
}

/// Error raised when a coordinate range is empty or reversed.
#[derive(Clone, Copy, Debug, PartialEq, Eq, Structural)]
pub enum ScaleError {
    InvalidScale,
}

/// A closed coordinate range on one axis.
#[derive(Clone, Copy, Debug, PartialEq, Eq, Structural)]
pub struct Range {
    pub min: i32,
    pub max: i32,
}

/// The pair of coordinate ranges shown on screen: sample index on the
/// horizontal axis, value on the vertical axis, each as `(min, max)`.
#[derive(Clone, Copy, Debug, PartialEq, Eq, Structural)]
pub struct Scales {
    pub h: Range,
    pub v: Range,
}

/// An affine map with no rotation or shear:
/// `px = (x_scale * x + x_offset) / x_den`, `py = (y_scale * y + y_offset) / y_den`.
#[derive(Clone, Copy, Debug, PartialEq, Eq, Structural)]
pub struct Matrix {
    pub x_scale: i128,
    pub x_offset: i128,
    pub x_den: i128,
    pub y_scale: i128,
    pub y_offset: i128,
    pub y_den: i128,
}

pub const I32_SPAN: i128 = 0x1_0000_0000;

impl Scales {
    /// Both ranges are non-empty: `min < max` on each axis.
    pub open spec fn valid(self) -> bool {
        self.h.min < self.h.max && self.v.min < self.v.max
    }

    pub open spec fn width_spec(self) -> int {
        self.h.max - self.h.min
    }

    pub open spec fn height_spec(self) -> int {
        self.v.max - self.v.min
    }

    /// The affine map that sends `(h.min, v.max)` to the surface origin and
    /// `(h.max, v.min)` to the opposite corner `(width, height)`.
    pub open spec fn matrix_of(self, width: u32, height: u32) -> Matrix {
        Matrix {
            x_scale: width as i128,
            x_offset: (-(self.h.min as int * width as int)) as i128,
            x_den: self.width_spec() as i128,
            y_scale: (-(height as int)) as i128,
            y_offset: (self.v.max as int * height) as i128,
            y_den: self.height_spec() as i128,
        }
    }

    pub fn new(h: (i32, i32), v: (i32, i32)) -> (r: Result<Scales, ScaleError>)
        ensures
            h.0 < h.1 && v.0 < v.1 ==> r == Ok::<Scales, ScaleError>(
                (Scales { h: Range { min: h.0, max: h.1 }, v: Range { min: v.0, max: v.1 } }),
            ),
            !(h.0 < h.1 && v.0 < v.1) ==> r == Err::<Scales, ScaleError>(ScaleError::InvalidScale),
    {
        if h.0 < h.1 && v.0 < v.1 {
            Ok(Scales { h: Range { min: h.0, max: h.1 }, v: Range { min: v.0, max: v.1 } })
        } else {
            Err(ScaleError::InvalidScale)
        }
    }

    /// Length of the horizontal range, `h.max - h.min`.
    pub fn get_width(&self) -> (r: i64)
        ensures
            r == self.width_spec(),
    {
        self.h.max as i64 - self.h.min as i64
    }

    /// Length of the vertical range, `v.max - v.min`.
    pub fn get_height(&self) -> (r: i64)
        ensures
            r == self.height_spec(),
    {
        self.v.max as i64 - self.v.min as i64
    }

    /// The transform for a surface of `width` by `height` pixels, or `None`
    /// when the surface has no area and the frame must be skipped.
    pub fn transform(&self, width: u32, height: u32) -> (r: Option<Matrix>)
        requires
            self.valid(),
        ensures
            width == 0 || height == 0 ==> r.is_none(),
            width > 0 && height > 0 ==> r == Some(self.matrix_of(width, height)),
            r matches Some(m) ==> m.wf(),
    {
        if width == 0 || height == 0 {
            return None;
        }
        let w = width as i128;
        let hh = height as i128;
        proof {
            lemma_mul_abs_le(self.h.min as int, width as int, 0x8000_0000, 0x1_0000_0000);
            lemma_mul_abs_le(self.v.max as int, height as int, 0x8000_0000, 0x1_0000_0000);
        }
        Some(Matrix {
            x_scale: w,
            x_offset: -((self.h.min as i128) * w),
            x_den: self.h.max as i128 - self.h.min as i128,
            y_scale: -hh,
            y_offset: self.v.max as i128 * hh,
            y_den: self.v.max as i128 - self.v.min as i128,
        })
    }
}

impl Ratio {
    /// The fraction equals the integer `k`.
    pub open spec fn equals_int(self, k: int) -> bool {
        self.num == k * self.den
    }
}

impl Matrix {
    /// Coefficients small enough that mapping any 64-bit point fits in `i128`,
    /// and positive denominators.
    pub open spec fn wf(self) -> bool {
        &&& -I32_SPAN <= self.x_scale <= I32_SPAN
        &&& -I32_SPAN <= self.y_scale <= I32_SPAN
        &&& -I32_SPAN * I32_SPAN <= self.x_offset <= I32_SPAN * I32_SPAN
        &&& -I32_SPAN * I32_SPAN <= self.y_offset <= I32_SPAN * I32_SPAN
        &&& 0 < self.x_den <= I32_SPAN
        &&& 0 < self.y_den <= I32_SPAN
    }

    pub open spec fn apply_spec(self, x: int, y: int) -> (Ratio, Ratio) {
        (
            Ratio { num: (self.x_scale * x + self.x_offset) as i128, den: self.x_den },
            Ratio { num: (self.y_scale * y + self.y_offset) as i128, den: self.y_den },
        )
    }

    /// Maps the sample-space point `(x, y)` to exact surface coordinates.
    pub fn apply(&self, x: i64, y: i64) -> (r: (Ratio, Ratio))
        requires
            self.wf(),
        ensures
            r == self.apply_spec(x as int, y as int),
    {
        proof {
            lemma_mul_abs_le(self.x_scale as int, x as int, I32_SPAN as int, 0x8000_0000_0000_0000);
            lemma_mul_abs_le(self.y_scale as int, y as int, I32_SPAN as int, 0x8000_0000_0000_0000);
        }
        (
            Ratio { num: self.x_scale * (x as i128) + self.x_offset, den: self.x_den },
            Ratio { num: self.y_scale * (y as i128) + self.y_offset, den: self.y_den },
        )
    }
}

pub proof fn lemma_mul_abs_le(a: int, b: int, ba: int, bb: int)
    requires
        -ba <= a <= ba,
        -bb <= b <= bb,
    ensures
        -(ba * bb) <= a * b <= ba * bb,
{
    assert(-(ba * bb) <= a * b <= ba * bb) by (nonlinear_arith)
        requires
            -ba <= a <= ba,
            -bb <= b <= bb,
    ;
}

/// For every valid pair of ranges and every non-empty surface, the transform
/// sends `(h.min, v.max)` to the origin, `(h.max, v.min)` to `(width, height)`,
/// and every other point along each axis in proportion to its distance from
/// those corners.
pub proof fn lemma_transform_corners(s: Scales, width: u32, height: u32, x: int, y: int)
    requires
        s.valid(),
        width > 0,
        height > 0,
    ensures
        s.matrix_of(width, height).wf(),
        s.matrix_of(width, height).apply_spec(s.h.min as int, s.v.max as int).0.equals_int(0),
        s.matrix_of(width, height).apply_spec(s.h.min as int, s.v.max as int).1.equals_int(0),
        s.matrix_of(width, height).apply_spec(s.h.max as int, s.v.min as int).0.equals_int(width as int),
        s.matrix_of(width, height).apply_spec(s.h.max as int, s.v.min as int).1.equals_int(height as int),
        -0x8000_0000_0000_0000 <= x < 0x8000_0000_0000_0000 && -0x8000_0000_0000_0000 <= y < 0x8000_0000_0000_0000 ==> {
            let p = s.matrix_of(width, height).apply_spec(x, y);
            &&& p.0.num == width * (x - s.h.min)
            &&& p.0.den == s.width_spec()
            &&& p.1.num == height * (s.v.max - y)
            &&& p.1.den == s.height_spec()
        },
{
    let w = width as int;
    let hh = height as int;
    lemma_mul_abs_le(s.h.min as int, w, 0x8000_0000, 0x1_0000_0000);
    lemma_mul_abs_le(s.v.max as int, hh, 0x8000_0000, 0x1_0000_0000);
    lemma_mul_abs_le(s.h.max as int, w, 0x8000_0000, 0x1_0000_0000);
    lemma_mul_abs_le(s.v.min as int, hh, 0x8000_0000, 0x1_0000_0000);
    assert(w * s.h.max + -(s.h.min * w) == w * (s.h.max - s.h.min)) by (nonlinear_arith);
    assert(w * s.h.min + -(s.h.min * w) == 0) by (nonlinear_arith);
    assert(-hh * s.v.max + s.v.max * hh == 0) by (nonlinear_arith);
    assert(-hh * s.v.min + s.v.max * hh == hh * (s.v.max - s.v.min)) by (nonlinear_arith);
    let m = s.matrix_of(width, height);
    assert(m.x_scale * s.h.max + m.x_offset == w * m.x_den);
    assert(m.y_scale * s.v.min + m.y_offset == hh * m.y_den);
    lemma_mul_abs_le(w, m.x_den as int, I32_SPAN as int, I32_SPAN as int);
    lemma_mul_abs_le(hh, m.y_den as int, I32_SPAN as int, I32_SPAN as int);
    if -0x8000_0000_0000_0000 <= x < 0x8000_0000_0000_0000 && -0x8000_0000_0000_0000 <= y < 0x8000_0000_0000_0000 {
        lemma_mul_abs_le(w, x, I32_SPAN as int, 0x8000_0000_0000_0000);
        lemma_mul_abs_le(hh, y, I32_SPAN as int, 0x8000_0000_0000_0000);
        assert(w * x + -(s.h.min as int * w) == w * (x - s.h.min)) by (nonlinear_arith);
        assert(-hh * y + s.v.max * hh == hh * (s.v.max - y)) by (nonlinear_arith);
        assert(m.x_scale * x + m.x_offset == w * (x - s.h.min));
        lemma_mul_abs_le(w, x - s.h.min, I32_SPAN as int, I32_SPAN * I32_SPAN);
        lemma_mul_abs_le(hh, s.v.max - y, I32_SPAN as int, I32_SPAN * I32_SPAN);
        assert(m.y_scale * y + m.y_offset == hh * (s.v.max - y));
    }
}

} // verus!
