use vstd::prelude::*;

verus! {

/// The fixed-point unit of fractions, scale factors and animation values: 1000 stands for 1.
pub const FRACTION_ONE: i64 = 1000;

/// Largest magnitude of a coordinate or extent that the slider works with.
pub const COORD_LIMIT: i64 = 0x4000_0000;

pub open spec fn fits_i64(x: int) -> bool {
    i64::MIN <= x <= i64::MAX
}

/// A position: absolute units, or per-mille fractions of a rectangle, as a strategy reads it.
#[derive(Clone, Copy, Debug, PartialEq, Eq, Structural)]
pub struct UIPoint {
    pub left: i64,
    pub top: i64,
}

/// An extent: absolute units, or per-mille factors, as a strategy reads it.
#[derive(Clone, Copy, Debug, PartialEq, Eq, Structural)]
pub struct UISize {
    pub width: i64,
    pub height: i64,
}

/// A rectangle in its parent's coordinate space; `top` grows downward.
#[derive(Clone, Copy, Debug, PartialEq, Eq, Structural)]
pub struct UILayout {
    pub left: i64,
    pub top: i64,
    pub width: i64,
    pub height: i64,
}

/// The pointer state that the host hands a widget each frame.
#[derive(Clone, Copy, Debug, PartialEq, Eq, Structural)]
pub struct UIFrameInput {
    pub mouse_pos: UIPoint,
    pub left_mouse_button_pressed: bool,
}

pub open spec fn fits_rect(l: int, t: int, w: int, h: int) -> bool {
    fits_i64(l) && fits_i64(t) && fits_i64(w) && fits_i64(h)
}

/// The rectangle with the given fields (meaningful where `fits_rect` holds).
pub open spec fn rect(l: int, t: int, w: int, h: int) -> UILayout {
    UILayout { left: l as i64, top: t as i64, width: w as i64, height: h as i64 }
}

impl UILayout {
    pub fn zero() -> (r: UILayout)
        ensures
            r == rect(0, 0, 0, 0),
    {
        UILayout { left: 0, top: 0, width: 0, height: 0 }
    }

    /// Whether `p` lies in the rectangle, its edges included.
    pub open spec fn contains(self, p: UIPoint) -> bool {
        self.left <= p.left <= self.left + self.width && self.top <= p.top <= self.top
            + self.height
    }

    pub fn is_inside(&self, p: UIPoint) -> (r: bool)
        ensures
            r == self.contains(p),
    {
        let right = self.left as i128 + self.width as i128;
        let bottom = self.top as i128 + self.height as i128;
        self.left <= p.left && (p.left as i128) <= right && self.top <= p.top && (p.top as i128)
            <= bottom
    }

    /// The rectangle grown by `m` on every side.
    pub open spec fn extended(self, m: int) -> UILayout {
        rect(self.left - m, self.top - m, self.width + 2 * m, self.height + 2 * m)
    }

    pub fn extend(&self, m: i64) -> (r: UILayout)
        requires
            fits_rect(self.left - m, self.top - m, self.width + 2 * m, self.height + 2 * m),
        ensures
            r == self.extended(m as int),
    {
        UILayout {
            left: self.left - m,
            top: self.top - m,
            width: to_i64(self.width as i128 + 2 * m as i128),
            height: to_i64(self.height as i128 + 2 * m as i128),
        }
    }
}

pub fn to_i64(x: i128) -> (r: i64)
    requires
        fits_i64(x as int),
    ensures
        r == x,
{
    x as i64
}

/// `a * f / FRACTION_ONE`, rounded down: `a` scaled by the per-mille factor `f`.
pub fn mul_frac(a: i128, f: i64) -> (r: i128)
    requires
        -0x1_0000_0000_0000_0000 < a < 0x1_0000_0000_0000_0000,
    ensures
        r == (a * f) / (FRACTION_ONE as int),
        -0x1_0000_0000_0000_0000 * 0x8000_0000_0000_0000 < r < 0x1_0000_0000_0000_0000
            * 0x8000_0000_0000_0000,
{
    let fi = f as i128;
    assert(-0x1_0000_0000_0000_0000 * 0x8000_0000_0000_0000 < a * fi < 0x1_0000_0000_0000_0000
        * 0x8000_0000_0000_0000) by (nonlinear_arith)
        requires
            -0x1_0000_0000_0000_0000 < a < 0x1_0000_0000_0000_0000,
            -0x8000_0000_0000_0000 <= fi < 0x8000_0000_0000_0000,
    ;
    let p = a * fi;
    let r = floor_div(p, 1000);
    assert(-0x1_0000_0000_0000_0000 * 0x8000_0000_0000_0000 < r < 0x1_0000_0000_0000_0000
        * 0x8000_0000_0000_0000) by (nonlinear_arith)
        requires
            r == p / 1000,
            -0x1_0000_0000_0000_0000 * 0x8000_0000_0000_0000 < p < 0x1_0000_0000_0000_0000
                * 0x8000_0000_0000_0000,
    ;
    r
}

/// Floor of `a / b` for a positive `b`; Verus's `/` on `int` is that floor.
pub fn floor_div(a: i128, b: i128) -> (r: i128)
    requires
        b > 0,
        a > i128::MIN,
    ensures
        r == a / b,
{
    if a >= 0 {
        a / b
    } else {
        let q = (-a - 1) / b;
        proof {
            let n: int = -(a as int) - 1;
            let qi: int = q as int;
            let bi: int = b as int;
            let ai: int = a as int;
            vstd::arithmetic::div_mod::lemma_fundamental_div_mod(n, bi);
            assert(ai == (-qi - 1) * bi + (bi - 1 - n % bi)) by (nonlinear_arith)
                requires n == bi * qi + n % bi, ai == -n - 1;
            vstd::arithmetic::div_mod::lemma_fundamental_div_mod_converse(ai, bi, -qi - 1, bi - 1 - n % bi);
        }
        -q - 1
    }
}

} // verus!
