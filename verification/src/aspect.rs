//! Exact letterbox scale factors.
//!
//! A picture of `iw x ih` pixels is drawn on a quad that fills a window of
//! `w x h` pixels. To keep the picture's proportions, one axis of the quad is
//! shrunk. Scale factors are kept as exact fractions of integers, so that the
//! choice of the axis and the factor itself are free of rounding.

use vstd::arithmetic::mul::lemma_mul_upper_bound;
use vstd::prelude::*;

verus! {

/// A fraction `num / den` of two unsigned integers, stored as given (it is
/// not reduced to lowest terms).
#[derive(Clone, Copy, Debug, PartialEq, Eq, Structural)]
pub struct Ratio {
    pub num: u128,
    pub den: u128,
}

impl Ratio {
    /// Both terms are positive: the fraction has a value, and it is not zero.
    pub open spec fn positive(self) -> bool {
        self.num > 0 && self.den > 0
    }

    /// Both terms are positive and fit in 32 bits.
    pub open spec fn bounded(self) -> bool {
        0 < self.num <= u32::MAX && 0 < self.den <= u32::MAX
    }

    /// The fraction's value is exactly one.
    pub open spec fn is_one(self) -> bool {
        self.den > 0 && self.num == self.den
    }

    /// The fraction's value is at most that of `other`
    /// (for denominators that are not zero).
    pub open spec fn at_most(self, other: Ratio) -> bool {
        self.num * other.den <= other.num * self.den
    }

    /// The fraction `1 / 1`.
    pub fn one() -> (r: Ratio)
        ensures
            r == (Ratio { num: 1, den: 1 }),
    {
        Ratio { num: 1, den: 1 }
    }
}

/// A scale factor for each axis of the quad.
#[derive(Clone, Copy, Debug, PartialEq, Eq, Structural)]
pub struct Scale {
    pub x: Ratio,
    pub y: Ratio,
}

impl Scale {
    /// Both factors are positive and fit in 32 bits.
    pub open spec fn bounded(self) -> bool {
        self.x.bounded() && self.y.bounded()
    }

    /// The scale that leaves both axes as they are.
    pub open spec fn spec_identity() -> Scale {
        Scale { x: Ratio { num: 1, den: 1 }, y: Ratio { num: 1, den: 1 } }
    }

    /// The scale that leaves both axes as they are.
    #[verifier::when_used_as_spec(spec_identity)]
    pub fn identity() -> (s: Scale)
        ensures
            s == Scale::spec_identity(),
    {
        Scale { x: Ratio::one(), y: Ratio::one() }
    }
}

/// The window, once `pre` has been applied to it, is narrower than the
/// picture: `(w * pre.x) / (h * pre.y) < iw / ih`, with both sides multiplied
/// by the four denominators.
pub open spec fn view_is_narrower(pre: Scale, w: int, h: int, iw: int, ih: int) -> bool {
    (w * ih) * (pre.x.num * pre.y.den) < (iw * h) * (pre.y.num * pre.x.den)
}

/// The scale that fits a picture of `iw x ih` into a window of `w x h` on
/// top of the scale `pre`.
///
/// Where the view is narrower than the picture, the vertical factor is
/// `pre.y` times the view's aspect ratio over the picture's, which is
/// `pre.x * (w * ih) / (iw * h)`; the horizontal factor stays `pre.x`.
/// Otherwise the horizontal factor is `pre.x` times the picture's aspect
/// ratio over the view's, which is `pre.y * (iw * h) / (w * ih)`, and the
/// vertical factor stays `pre.y`.
pub open spec fn fit_scale(pre: Scale, w: int, h: int, iw: int, ih: int) -> Scale {
    if view_is_narrower(pre, w, h, iw, ih) {
        Scale {
            x: pre.x,
            y: Ratio { num: (pre.x.num * (w * ih)) as u128, den: (pre.x.den * (iw * h)) as u128 },
        }
    } else {
        Scale {
            x: Ratio { num: (pre.y.num * (iw * h)) as u128, den: (pre.y.den * (w * ih)) as u128 },
            y: pre.y,
        }
    }
}

/// The sizes for which a fit is defined: every side is at least one pixel.
pub open spec fn sizes_positive(window_size: [i32; 2], image_size: [i32; 2]) -> bool {
    window_size[0] > 0 && window_size[1] > 0 && image_size[0] > 0 && image_size[1] > 0
}

/// The largest product of two pixel counts.
pub open spec fn max_area() -> int {
    0x7fff_ffffint * 0x7fff_ffffint
}

/// The largest product of two terms of bounded fractions.
pub open spec fn max_cross() -> int {
    0xffff_ffffint * 0xffff_ffffint
}

/// The product of two pixel counts, which fits in 62 bits.
fn area(a: i32, b: i32) -> (r: u128)
    requires
        a > 0,
        b > 0,
    ensures
        r == a * b,
        0 < r <= max_area(),
{
    let x: u128 = a as u128;
    let y: u128 = b as u128;
    proof {
        lemma_mul_upper_bound(x as int, 0x7fff_ffff, y as int, 0x7fff_ffff);
        assert(0 < x * y) by (nonlinear_arith)
            requires
                x > 0,
                y > 0,
        ;
    }
    x * y
}

/// The product of two terms of bounded fractions, which fits in 64 bits.
fn cross(a: u128, b: u128) -> (r: u128)
    requires
        0 < a <= u32::MAX,
        0 < b <= u32::MAX,
    ensures
        r == a * b,
        0 < r <= max_cross(),
{
    proof {
        lemma_mul_upper_bound(a as int, 0xffff_ffff, b as int, 0xffff_ffff);
        assert(0 < a * b) by (nonlinear_arith)
            requires
                a > 0,
                b > 0,
        ;
    }
    a * b
}

/// Fits a picture of `image_size` into a window of `window_size` on top of
/// the scale `pre`.
pub fn fit(pre: Scale, window_size: [i32; 2], image_size: [i32; 2]) -> (s: Scale)
    requires
        pre.bounded(),
        sizes_positive(window_size, image_size),
    ensures
        s == fit_scale(
            pre,
            window_size[0] as int,
            window_size[1] as int,
            image_size[0] as int,
            image_size[1] as int,
        ),
        s.x.positive(),
        s.y.positive(),
{
    let wih: u128 = area(window_size[0], image_size[1]);
    let iwh: u128 = area(image_size[0], window_size[1]);
    let xy: u128 = cross(pre.x.num, pre.y.den);
    let yx: u128 = cross(pre.y.num, pre.x.den);
    proof {
        lemma_mul_upper_bound(wih as int, max_area(), xy as int, max_cross());
        lemma_mul_upper_bound(iwh as int, max_area(), yx as int, max_cross());
        lemma_mul_upper_bound(pre.x.num as int, 0xffff_ffff, wih as int, max_area());
        lemma_mul_upper_bound(pre.x.den as int, 0xffff_ffff, iwh as int, max_area());
        lemma_mul_upper_bound(pre.y.num as int, 0xffff_ffff, iwh as int, max_area());
        lemma_mul_upper_bound(pre.y.den as int, 0xffff_ffff, wih as int, max_area());
        lemma_products_positive(pre, wih as int, iwh as int);
    }
    if wih * xy < iwh * yx {
        Scale { x: pre.x, y: Ratio { num: pre.x.num * wih, den: pre.x.den * iwh } }
    } else {
        Scale { x: Ratio { num: pre.y.num * iwh, den: pre.y.den * wih }, y: pre.y }
    }
}

/// Fits a picture of `image_size` into a window of `window_size`, with no
/// other scale applied: no factor exceeds one, and one of them is one.
pub fn aspect_fit(window_size: [i32; 2], image_size: [i32; 2]) -> (s: Scale)
    requires
        sizes_positive(window_size, image_size),
    ensures
        s == fit_scale(
            Scale::identity(),
            window_size[0] as int,
            window_size[1] as int,
            image_size[0] as int,
            image_size[1] as int,
        ),
        s.x.positive() && s.x.num <= s.x.den,
        s.y.positive() && s.y.num <= s.y.den,
        s.x.is_one() || s.y.is_one(),
{
    proof {
        lemma_fit_within_unit(window_size[0], window_size[1], image_size[0], image_size[1]);
    }
    fit(Scale::identity(), window_size, image_size)
}

proof fn lemma_products_positive(pre: Scale, wih: int, iwh: int)
    requires
        pre.bounded(),
        wih > 0,
        iwh > 0,
    ensures
        pre.x.num * wih > 0,
        pre.x.den * iwh > 0,
        pre.y.num * iwh > 0,
        pre.y.den * wih > 0,
{
    assert(pre.x.num * wih > 0 && pre.x.den * iwh > 0 && pre.y.num * iwh > 0 && pre.y.den * wih
        > 0) by (nonlinear_arith)
        requires
            pre.x.num > 0,
            pre.x.den > 0,
            pre.y.num > 0,
            pre.y.den > 0,
            wih > 0,
            iwh > 0,
    ;
}

/// Whatever the sizes, fitting leaves one axis at the scale it had, and
/// makes the other one no larger than it was.
pub proof fn lemma_fit_keeps_one_axis(pre: Scale, w: i32, h: i32, iw: i32, ih: i32)
    requires
        pre.bounded(),
        w > 0,
        h > 0,
        iw > 0,
        ih > 0,
    ensures
        ({
            let s = fit_scale(pre, w as int, h as int, iw as int, ih as int);
            &&& s.x.positive() && s.y.positive()
            &&& s.x == pre.x || s.y == pre.y
            &&& s.x.at_most(pre.x)
            &&& s.y.at_most(pre.y)
        }),
{
    let wih = w * ih;
    let iwh = iw * h;
    lemma_terms_in_range(pre, w, h, iw, ih);
    let a = pre.x.num as int;
    let b = pre.x.den as int;
    let c = pre.y.num as int;
    let d = pre.y.den as int;
    if view_is_narrower(pre, w as int, h as int, iw as int, ih as int) {
        // y = (a * wih) / (b * iwh) against c / d
        assert((a * wih) * d <= c * (b * iwh)) by (nonlinear_arith)
            requires
                wih * (a * d) < iwh * (c * b),
        ;
    } else {
        // x = (c * iwh) / (d * wih) against a / b
        assert((c * iwh) * b <= a * (d * wih)) by (nonlinear_arith)
            requires
                wih * (a * d) >= iwh * (c * b),
        ;
    }
}

/// The fitted quad has the picture's proportions: the window's aspect ratio
/// with the fitted scale applied, `(w * s.x) / (h * s.y)`, equals `iw / ih`.
pub proof fn lemma_fit_preserves_aspect(pre: Scale, w: i32, h: i32, iw: i32, ih: i32)
    requires
        pre.bounded(),
        w > 0,
        h > 0,
        iw > 0,
        ih > 0,
    ensures
        ({
            let s = fit_scale(pre, w as int, h as int, iw as int, ih as int);
            (w * ih) * (s.x.num * s.y.den) == (iw * h) * (s.y.num * s.x.den)
        }),
{
    let wih = w * ih;
    let iwh = iw * h;
    lemma_terms_in_range(pre, w, h, iw, ih);
    let a = pre.x.num as int;
    let b = pre.x.den as int;
    let c = pre.y.num as int;
    let d = pre.y.den as int;
    if view_is_narrower(pre, w as int, h as int, iw as int, ih as int) {
        assert(wih * (a * (b * iwh)) == iwh * ((a * wih) * b)) by (nonlinear_arith);
    } else {
        assert(wih * ((c * iwh) * d) == iwh * (c * (d * wih))) by (nonlinear_arith);
    }
}

/// With no other scale applied, no factor of the fit exceeds one, and one of
/// the two is one: that axis fills the window.
pub proof fn lemma_fit_within_unit(w: i32, h: i32, iw: i32, ih: i32)
    requires
        w > 0,
        h > 0,
        iw > 0,
        ih > 0,
    ensures
        ({
            let s = fit_scale(Scale::identity(), w as int, h as int, iw as int, ih as int);
            &&& s.x.positive() && s.x.num <= s.x.den
            &&& s.y.positive() && s.y.num <= s.y.den
            &&& s.x.is_one() || s.y.is_one()
        }),
{
    lemma_terms_in_range(Scale::identity(), w, h, iw, ih);
    assert((w * ih) * (1int * 1int) == w * ih);
    assert((iw * h) * (1int * 1int) == iw * h);
}

/// A square picture in a square window is not scaled at all.
pub proof fn lemma_fit_square_in_square(w: i32, iw: i32)
    requires
        w > 0,
        iw > 0,
    ensures
        ({
            let s = fit_scale(Scale::identity(), w as int, w as int, iw as int, iw as int);
            s.x.is_one() && s.y.is_one()
        }),
{
    lemma_terms_in_range(Scale::identity(), w, w, iw, iw);
    assert(w * iw == iw * w) by (nonlinear_arith);
    assert((w * iw) * (1int * 1int) == w * iw);
    assert((iw * w) * (1int * 1int) == iw * w);
}

/// The terms of a fitted scale are positive and fit in 128 bits, so that
/// `fit_scale` states them without loss.
proof fn lemma_terms_in_range(pre: Scale, w: i32, h: i32, iw: i32, ih: i32)
    requires
        pre.bounded(),
        w > 0,
        h > 0,
        iw > 0,
        ih > 0,
    ensures
        0 < w * ih <= max_area(),
        0 < iw * h <= max_area(),
        0 < pre.x.num * (w * ih) <= u128::MAX,
        0 < pre.x.den * (iw * h) <= u128::MAX,
        0 < pre.y.num * (iw * h) <= u128::MAX,
        0 < pre.y.den * (w * ih) <= u128::MAX,
{
    lemma_mul_upper_bound(w as int, 0x7fff_ffff, ih as int, 0x7fff_ffff);
    lemma_mul_upper_bound(iw as int, 0x7fff_ffff, h as int, 0x7fff_ffff);
    assert(0 < w * ih && 0 < iw * h) by (nonlinear_arith)
        requires
            w > 0,
            h > 0,
            iw > 0,
            ih > 0,
    ;
    let wih = w * ih;
    let iwh = iw * h;
    lemma_mul_upper_bound(pre.x.num as int, 0xffff_ffff, wih, max_area());
    lemma_mul_upper_bound(pre.x.den as int, 0xffff_ffff, iwh, max_area());
    lemma_mul_upper_bound(pre.y.num as int, 0xffff_ffff, iwh, max_area());
    lemma_mul_upper_bound(pre.y.den as int, 0xffff_ffff, wih, max_area());
    lemma_products_positive(pre, wih, iwh);
}

} // verus!
