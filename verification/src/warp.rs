//! The barrel warp of the composite shader, evaluated exactly.
//!
//! The fragment stage computes, for an input coordinate `uv0` in [0,1]^2,
//!
//! ```text
//! dc   = (0.5 - uv0) squared elementwise
//! uv.x = 0.5 + (uv0.x - 0.5) * (1 + dc.y * 0.3 * 0.75)
//! uv.y = 0.5 + (uv0.y - 0.5) * (1 + dc.x * 0.4 * 0.75)
//! ```
//!
//! (the horizontal axis is warped by the *vertical* squared distance and
//! vice versa). The warp constants are the rationals 9/40 and 3/10, so with
//! `uv0 = (xn/xd, yn/yd)` the warped coordinate is itself a rational:
//!
//! ```text
//! uv.x = (160*xd*yd^2 + (2*xn - xd) * (160*yd^2 + 9*(yd - 2*yn)^2)) / (320*xd*yd^2)
//! uv.y = (160*yd*xd^2 + 4*(2*yn - yd) * (40*xd^2 + 3*(xd - 2*xn)^2)) / (320*yd*xd^2)
//! ```
//!
//! This module computes those numerators and denominators exactly in i128
//! arithmetic and proves the bounds that keep every product in range.

use vstd::prelude::*;

verus! {

/// A texture coordinate in [0,1] x [0,1] as an exact rational: per axis a
/// numerator over a positive denominator. Rasterization hands pixel centers
/// in here: pixel (px, py) of a w-by-h frame maps to
/// ((2*px + 1) / (2*w), (2*py + 1) / (2*h)).
#[derive(Clone, Copy, Debug, PartialEq, Eq, Structural)]
pub struct Uv {
    pub x_num: i64,
    pub x_den: i64,
    pub y_num: i64,
    pub y_den: i64,
}

/// The largest coordinate denominator the warp arithmetic admits (2^20);
/// it keeps every intermediate product far inside the i128 range while
/// allowing pixel-center coordinates for frames up to 2^19 pixels wide.
pub const MAX_COORD_DEN: i64 = 0x100000;

impl Uv {
    /// The coordinate lies in [0,1] on both axes and its denominators are
    /// positive and within the arithmetic bound.
    pub open spec fn wf(self) -> bool {
        &&& 0 < self.x_den <= MAX_COORD_DEN
        &&& 0 < self.y_den <= MAX_COORD_DEN
        &&& 0 <= self.x_num <= self.x_den
        &&& 0 <= self.y_num <= self.y_den
    }
}

/// The texture coordinate of the center of pixel (px, py) in a w-by-h frame:
/// ((px + 1/2) / w, (py + 1/2) / h).
pub fn pixel_center(px: u32, py: u32, w: u32, h: u32) -> (uv: Uv)
    requires
        0 < w <= 0x80000,
        0 < h <= 0x80000,
        px < w,
        py < h,
    ensures
        uv.wf(),
        uv.x_num == 2 * px + 1,
        uv.x_den == 2 * w,
        uv.y_num == 2 * py + 1,
        uv.y_den == 2 * h,
{
    Uv {
        x_num: 2 * (px as i64) + 1,
        x_den: 2 * (w as i64),
        y_num: 2 * (py as i64) + 1,
        y_den: 2 * (h as i64),
    }
}

/// Numerator of the warped horizontal coordinate over `warp_x_den`:
/// uv.x = 1/2 + (xn/xd - 1/2) * (1 + (1/2 - yn/yd)^2 * 9/40), brought to the
/// common denominator 320*xd*yd^2.
pub open spec fn warp_x_num(xn: int, xd: int, yn: int, yd: int) -> int {
    160 * (xd * (yd * yd)) + (2 * xn - xd) * (160 * (yd * yd) + 9 * ((yd - 2 * yn) * (yd - 2
        * yn)))
}

/// Denominator of the warped horizontal coordinate.
pub open spec fn warp_x_den(xd: int, yd: int) -> int {
    320 * (xd * (yd * yd))
}

/// Numerator of the warped vertical coordinate over `warp_y_den`:
/// uv.y = 1/2 + (yn/yd - 1/2) * (1 + (1/2 - xn/xd)^2 * 3/10), brought to the
/// common denominator 320*yd*xd^2.
pub open spec fn warp_y_num(xn: int, xd: int, yn: int, yd: int) -> int {
    160 * (yd * (xd * xd)) + 4 * ((2 * yn - yd) * (40 * (xd * xd) + 3 * ((xd - 2 * xn) * (xd - 2
        * xn))))
}

/// Denominator of the warped vertical coordinate.
pub open spec fn warp_y_den(xd: int, yd: int) -> int {
    320 * (yd * (xd * xd))
}

/// The exact warped coordinate: numerators over the common denominators
/// 320*xd*yd^2 (x axis) and 320*yd*xd^2 (y axis).
#[derive(Clone, Copy, Debug, PartialEq, Eq, Structural)]
pub struct WarpedUv {
    pub x_num: i128,
    pub x_den: i128,
    pub y_num: i128,
    pub y_den: i128,
}

/// `w` holds exactly the warp of `uv0`.
pub open spec fn is_warp_of(w: WarpedUv, uv0: Uv) -> bool {
    &&& w.x_num == warp_x_num(uv0.x_num as int, uv0.x_den as int, uv0.y_num as int, uv0.y_den as int)
    &&& w.x_den == warp_x_den(uv0.x_den as int, uv0.y_den as int)
    &&& w.y_num == warp_y_num(uv0.x_num as int, uv0.x_den as int, uv0.y_num as int, uv0.y_den as int)
    &&& w.y_den == warp_y_den(uv0.x_den as int, uv0.y_den as int)
}

/// Bound on the magnitude of warped numerators and denominators (2^70):
/// for denominators up to 2^20 the numerators stay below 329 * 2^60 and the
/// denominators below 320 * 2^60.
pub open spec fn warp_bound() -> int {
    0x400000000000000000
}

/// The warp pushed the coordinate off the source texture:
/// uv.y > 1 || uv.x < 0 || uv.x > 1 || uv.y < 0, over the exact rationals.
pub open spec fn spec_out_of_bounds(w: WarpedUv) -> bool {
    ||| w.y_num > w.y_den
    ||| w.x_num < 0
    ||| w.x_num > w.x_den
    ||| w.y_num < 0
}

/// `uv0` is masked to black by the bounds test after the warp.
pub open spec fn warps_out_of_bounds(uv0: Uv) -> bool {
    ||| warp_y_num(uv0.x_num as int, uv0.x_den as int, uv0.y_num as int, uv0.y_den as int)
        > warp_y_den(uv0.x_den as int, uv0.y_den as int)
    ||| warp_x_num(uv0.x_num as int, uv0.x_den as int, uv0.y_num as int, uv0.y_den as int) < 0
    ||| warp_x_num(uv0.x_num as int, uv0.x_den as int, uv0.y_num as int, uv0.y_den as int)
        > warp_x_den(uv0.x_den as int, uv0.y_den as int)
    ||| warp_y_num(uv0.x_num as int, uv0.x_den as int, uv0.y_num as int, uv0.y_den as int) < 0
}

/// Apply the barrel warp to a coordinate, exactly.
pub fn warp(uv0: &Uv) -> (w: WarpedUv)
    requires
        uv0.wf(),
    ensures
        is_warp_of(w, *uv0),
        0 < w.x_den <= warp_bound(),
        0 < w.y_den <= warp_bound(),
        -warp_bound() <= w.x_num <= warp_bound(),
        -warp_bound() <= w.y_num <= warp_bound(),
        spec_out_of_bounds(w) == warps_out_of_bounds(*uv0),
{
    let xn = uv0.x_num as i128;
    let xd = uv0.x_den as i128;
    let yn = uv0.y_num as i128;
    let yd = uv0.y_den as i128;
    let dy = yd - 2 * yn;
    let dx = xd - 2 * xn;
    assert(0 <= yd * yd <= 0x10000000000 && 1 <= yd * yd) by (nonlinear_arith)
        requires
            0 < yd <= 0x100000,
    ;
    assert(0 <= xd * xd <= 0x10000000000 && 1 <= xd * xd) by (nonlinear_arith)
        requires
            0 < xd <= 0x100000,
    ;
    assert(0 <= dy * dy <= 0x10000000000) by (nonlinear_arith)
        requires
            -0x100000 <= dy <= 0x100000,
    ;
    assert(0 <= dx * dx <= 0x10000000000) by (nonlinear_arith)
        requires
            -0x100000 <= dx <= 0x100000,
    ;
    let yd2 = yd * yd;
    let xd2 = xd * xd;
    let dy2 = dy * dy;
    let dx2 = dx * dx;
    // Warp factors over 160*yd^2 and 40*xd^2: 160*yd^2 + 9*dy^2, 40*xd^2 + 3*dx^2.
    let fx = 160 * yd2 + 9 * dy2;
    let fy = 40 * xd2 + 3 * dx2;
    let tx = 2 * xn - xd;
    let ty = 2 * yn - yd;
    assert(1 <= xd * yd2 <= 0x1000000000000000) by (nonlinear_arith)
        requires
            0 < xd <= 0x100000,
            1 <= yd2 <= 0x10000000000,
    ;
    assert(1 <= yd * xd2 <= 0x1000000000000000) by (nonlinear_arith)
        requires
            0 < yd <= 0x100000,
            1 <= xd2 <= 0x10000000000,
    ;
    let sx = xd * yd2;
    let sy = yd * xd2;
    assert(-0xa9000000000000000 <= tx * fx <= 0xa9000000000000000) by (nonlinear_arith)
        requires
            -0x100000 <= tx <= 0x100000,
            0 <= fx <= 0xa90000000000,
    ;
    assert(-0x2b000000000000000 <= ty * fy <= 0x2b000000000000000) by (nonlinear_arith)
        requires
            -0x100000 <= ty <= 0x100000,
            0 <= fy <= 0x2b0000000000,
    ;
    let x_num = 160 * sx + tx * fx;
    let x_den = 320 * sx;
    let y_num = 160 * sy + 4 * (ty * fy);
    let y_den = 320 * sy;
    WarpedUv { x_num, x_den, y_num, y_den }
}

/// Test of the bounds mask on an exact warped coordinate.
pub fn out_of_bounds(w: &WarpedUv) -> (r: bool)
    ensures
        r == spec_out_of_bounds(*w),
{
    w.y_num > w.y_den || w.x_num < 0 || w.x_num > w.x_den || w.y_num < 0
}

/// The warp is a no-op at the exact center of the frame: for uv0 = (1/2, 1/2)
/// both squared center distances vanish, the warped coordinate equals uv0 as
/// a rational on each axis, and the bounds mask does not fire.
pub proof fn lemma_warp_center_identity(uv0: Uv, w: WarpedUv)
    requires
        uv0.wf(),
        is_warp_of(w, uv0),
        2 * uv0.x_num == uv0.x_den,
        2 * uv0.y_num == uv0.y_den,
    ensures
        w.x_num * uv0.x_den == uv0.x_num * w.x_den,
        w.y_num * uv0.y_den == uv0.y_num * w.y_den,
        !spec_out_of_bounds(w),
{
    let xn = uv0.x_num as int;
    let xd = uv0.x_den as int;
    let yn = uv0.y_num as int;
    let yd = uv0.y_den as int;
    assert(w.x_num == 160 * (xd * (yd * yd)) && w.x_den == 320 * (xd * (yd * yd)) && w.y_num == 160
        * (yd * (xd * xd)) && w.y_den == 320 * (yd * (xd * xd))) by (nonlinear_arith)
        requires
            w.x_num == warp_x_num(xn, xd, yn, yd),
            w.x_den == warp_x_den(xd, yd),
            w.y_num == warp_y_num(xn, xd, yn, yd),
            w.y_den == warp_y_den(xd, yd),
            2 * xn == xd,
            2 * yn == yd,
    ;
    assert(w.x_num * xd == xn * w.x_den && w.y_num * yd == yn * w.y_den) by (nonlinear_arith)
        requires
            w.x_num == 160 * (xd * (yd * yd)),
            w.x_den == 320 * (xd * (yd * yd)),
            w.y_num == 160 * (yd * (xd * xd)),
            w.y_den == 320 * (yd * (xd * xd)),
            2 * xn == xd,
            2 * yn == yd,
    ;
    assert(0 < xd * (yd * yd) && 0 < yd * (xd * xd)) by (nonlinear_arith)
        requires
            0 < xd,
            0 < yd,
    ;
}

} // verus!
