//! Output sizing: how a source size is fitted to a requested raster size.

use vstd::prelude::*;

verus! {

/// An integer raster size with both sides positive.
#[derive(Clone, Copy, Debug, PartialEq, Eq, Structural)]
pub struct ScreenSize {
    pub width: u32,
    pub height: u32,
}

impl ScreenSize {
    pub open spec fn wf(&self) -> bool {
        self.width > 0 && self.height > 0
    }

    /// Makes a size; absent when a side is zero.
    pub fn new(width: u32, height: u32) -> (r: Option<ScreenSize>)
        ensures
            r == (if width > 0 && height > 0 {
                Some(ScreenSize { width, height })
            } else {
                None::<ScreenSize>
            }),
    {
        if width > 0 && height > 0 {
            Some(ScreenSize { width, height })
        } else {
            None
        }
    }
}

/// How an image is fitted to its output size. Every policy keeps the aspect.
#[derive(Clone, Copy, Debug, PartialEq, Eq, Structural)]
pub enum FitTo {
    /// Keep the original size.
    Original,
    /// Scale to the given width.
    Width(u32),
    /// Scale to the given height.
    Height(u32),
    /// Scale to fit inside the given width and height.
    Size(u32, u32),
    /// Scale by the factor `numerator / denominator`.
    Zoom(u32, u32),
}

/// `a / b` rounded up.
pub open spec fn ceil_div(a: int, b: int) -> int {
    (a + b - 1) / b
}

/// `a / b` rounded to the nearest integer, halves away from zero.
pub open spec fn round_div(a: int, b: int) -> int {
    (2 * a + b) / (2 * b)
}

pub open spec fn at_least_one(x: int) -> int {
    if x < 1 {
        1
    } else {
        x
    }
}

/// A pair of sides, when both are representable raster sides.
pub open spec fn screen(w: int, h: int) -> Option<(int, int)> {
    if 0 < w <= u32::MAX && 0 < h <= u32::MAX {
        Some((w, h))
    } else {
        None
    }
}

/// The size that `fit` gives to a source of `sw` by `sh`.
pub open spec fn fit_spec(fit: FitTo, sw: int, sh: int) -> Option<(int, int)> {
    match fit {
        FitTo::Original => Some((sw, sh)),
        FitTo::Width(w) => screen(w as int, ceil_div(w * sh, sw)),
        FitTo::Height(h) => screen(ceil_div(h * sw, sh), h as int),
        FitTo::Size(w, h) => {
            if w == 0 || h == 0 {
                None
            } else if h * sw >= w * sh {
                screen(w as int, at_least_one(round_div(w * sh, sw)))
            } else {
                screen(at_least_one(round_div(h * sw, sh)), h as int)
            }
        },
        FitTo::Zoom(num, den) => {
            if num == 0 || den == 0 {
                None
            } else {
                screen(
                    at_least_one(round_div(sw * num, den as int)),
                    at_least_one(round_div(sh * num, den as int)),
                )
            }
        },
    }
}

fn mul_wide(a: u32, b: u32) -> (r: u128)
    ensures
        r == a * b,
{
    assert(a * b <= 0xffff_ffffu128 * 0xffff_ffffu128) by (nonlinear_arith)
        requires
            a <= 0xffff_ffff,
            b <= 0xffff_ffff,
    ;
    a as u128 * b as u128
}

/// `a * b / c` rounded up.
fn mul_div_ceil(a: u32, b: u32, c: u32) -> (r: u128)
    requires
        c > 0,
    ensures
        r == ceil_div(a * b, c as int),
{
    assert(a * b <= 0xffff_ffffu128 * 0xffff_ffffu128) by (nonlinear_arith)
        requires
            a <= 0xffff_ffff,
            b <= 0xffff_ffff,
    ;
    let p: u128 = a as u128 * b as u128;
    (p + c as u128 - 1) / c as u128
}

/// `a * b / c` rounded to the nearest integer, never below one.
fn mul_div_round_min1(a: u32, b: u32, c: u32) -> (r: u128)
    requires
        c > 0,
    ensures
        r == at_least_one(round_div(a * b, c as int)),
{
    assert(a * b <= 0xffff_ffffu128 * 0xffff_ffffu128) by (nonlinear_arith)
        requires
            a <= 0xffff_ffff,
            b <= 0xffff_ffff,
    ;
    let p: u128 = a as u128 * b as u128;
    let q: u128 = (2 * p + c as u128) / (2 * c as u128);
    if q < 1 {
        1
    } else {
        q
    }
}

fn to_screen(w: u128, h: u128) -> (r: Option<ScreenSize>)
    ensures
        r matches Some(s) ==> screen(w as int, h as int) == Some((s.width as int, s.height as int)),
        r is None ==> screen(w as int, h as int) is None,
{
    if 0 < w && w <= 0xffff_ffff && 0 < h && h <= 0xffff_ffff {
        Some(ScreenSize { width: w as u32, height: h as u32 })
    } else {
        None
    }
}

impl FitTo {
    /// Returns `size` fitted according to this policy; absent when a derived side
    /// is zero or not representable.
    pub fn fit_to(&self, size: ScreenSize) -> (r: Option<ScreenSize>)
        requires
            size.wf(),
        ensures
            r matches Some(s) ==> s.wf() && fit_spec(*self, size.width as int, size.height as int)
                == Some((s.width as int, s.height as int)),
            r is None ==> fit_spec(*self, size.width as int, size.height as int) is None,
    {
        let sw = size.width;
        let sh = size.height;
        match *self {
            FitTo::Original => Some(size),
            FitTo::Width(w) => to_screen(w as u128, mul_div_ceil(w, sh, sw)),
            FitTo::Height(h) => to_screen(mul_div_ceil(h, sw, sh), h as u128),
            FitTo::Size(w, h) => {
                if w == 0 || h == 0 {
                    None
                } else if mul_wide(h, sw) >= mul_wide(w, sh) {
                    to_screen(w as u128, mul_div_round_min1(w, sh, sw))
                } else {
                    to_screen(mul_div_round_min1(h, sw, sh), h as u128)
                }
            },
            FitTo::Zoom(num, den) => {
                if num == 0 || den == 0 {
                    None
                } else {
                    to_screen(mul_div_round_min1(sw, num, den), mul_div_round_min1(sh, num, den))
                }
            },
        }
    }
}

/// The output size for drawing a single node whose bounding box is `bbox`: absent
/// when the box is missing or has a side that is not positive or does not fit a
/// raster side, and otherwise the box's size fitted by `fit`.
pub fn render_node_size(bbox: Option<(i64, i64)>, fit: FitTo) -> (r: Option<ScreenSize>)
    ensures
        r matches Some(s) ==> s.wf() && (bbox matches Some(b) && screen(b.0 as int, b.1 as int)
            is Some && fit_spec(fit, b.0 as int, b.1 as int) == Some(
            (s.width as int, s.height as int),
        )),
        r is None ==> (bbox matches Some(b) ==> screen(b.0 as int, b.1 as int) is None || fit_spec(
            fit,
            b.0 as int,
            b.1 as int,
        ) is None),
{
    let (w, h) = match bbox {
        Some(b) => b,
        None => return None,
    };
    if w <= 0 || w > 0xffff_ffff || h <= 0 || h > 0xffff_ffff {
        return None;
    }
    fit.fit_to(ScreenSize { width: w as u32, height: h as u32 })
}

} // verus!
