//! The post-process fragment function: barrel warp, bounds mask, chromatic
//! channel split and scanline darkening, evaluated exactly on a texture model.
//!
//! The scanline factor of the real pipeline is
//! `apply = |sin(uv.y * resolution.y / 2) * 0.5 * 0.5|`: the sine itself is a
//! transcendental the GPU evaluates. This module therefore takes the sine's
//! value for the fragment's warped row as an input — an exact fraction in
//! [-1,1] — and states exactly what becomes of every possible value of it:
//! each channel is scaled by `1 - |sine|/4`, rounded down.

use vstd::arithmetic::div_mod::lemma_basic_div;
use vstd::arithmetic::div_mod::lemma_div_by_multiple;
use vstd::arithmetic::div_mod::lemma_div_denominator;
use vstd::arithmetic::div_mod::lemma_div_plus_one;
use vstd::arithmetic::div_mod::lemma_div_pos_is_pos;
use vstd::arithmetic::div_mod::lemma_multiply_divide_le;
use vstd::math::abs;
use vstd::prelude::*;

use crate::texture::clamp_index;
use crate::texture::sample_index;
use crate::texture::black;
use crate::texture::spec_black;
use crate::texture::Rgba;
use crate::texture::TextureModel;
use crate::warp::out_of_bounds;
use crate::warp::warp;
use crate::warp::warp_x_den;
use crate::warp::warp_x_num;
use crate::warp::warp_y_den;
use crate::warp::warp_y_num;
use crate::warp::warps_out_of_bounds;
use crate::warp::Uv;

verus! {

/// The sine of the scanline phase `uv.y * resolution.y / 2` for one fragment,
/// as an exact fraction num/den in [-1,1]. The GPU's transcendental unit (or
/// any host evaluation) supplies it; the shader model is verified for every
/// value it can take.
#[derive(Clone, Copy, Debug, PartialEq, Eq, Structural)]
pub struct ScanSin {
    pub num: i64,
    pub den: i64,
}

impl ScanSin {
    /// The fraction lies in [-1,1] with a positive, bounded denominator.
    pub open spec fn wf(self) -> bool {
        &&& 0 < self.den <= 0x100000000
        &&& -self.den <= self.num <= self.den
    }
}

/// One channel darkened by the scanline factor: mix(c, 0, apply) with
/// apply = |s|/4 for the sine fraction s, i.e. c * (1 - |s|/4) rounded down.
pub open spec fn spec_darken(c: int, s: ScanSin) -> int {
    c * (4 * s.den - abs(s.num as int)) / (4 * s.den as int)
}

/// Scale one channel by (1 - |sine|/4), rounding down.
pub fn darken(c: u8, s: &ScanSin) -> (d: u8)
    requires
        s.wf(),
    ensures
        d == spec_darken(c as int, *s),
        d <= c,
{
    let m: u64 = if s.num < 0 {
        (-s.num) as u64
    } else {
        s.num as u64
    };
    let den4: u64 = 4 * (s.den as u64);
    let keep: u64 = den4 - m;
    let cu: u64 = c as u64;
    proof {
        assert(cu * keep <= den4 * cu && cu * keep <= 0x100000000000000) by (nonlinear_arith)
            requires
                0 <= cu <= 255,
                0 <= keep <= den4,
                den4 <= 0x400000000,
        ;
        lemma_multiply_divide_le((cu * keep) as int, den4 as int, cu as int);
    }
    let d: u64 = (cu * keep) / den4;
    d as u8
}

/// The full fragment function of the composite pass on an input coordinate
/// `uv0`, output resolution (rx, ry) in pixels and source texture `tex`:
///
/// 1. barrel-warp `uv0` (see `crate::warp`);
/// 2. if the warped coordinate leaves [0,1]^2, opaque black;
/// 3. otherwise sample red at `uv.x + 1/rx`, green at `uv.x`, blue at
///    `uv.x - 1/rx` (nearest texel, clamp-to-edge) on the warped row, and
///    darken each channel by the scanline factor; alpha is 1.
pub open spec fn spec_shade(uv0: Uv, tex: TextureModel, rx: int, ry: int, s: ScanSin) -> Rgba {
    let xn = uv0.x_num as int;
    let xd = uv0.x_den as int;
    let yn = uv0.y_num as int;
    let yd = uv0.y_den as int;
    let wxn = warp_x_num(xn, xd, yn, yd);
    let wxd = warp_x_den(xd, yd);
    let wyn = warp_y_num(xn, xd, yn, yd);
    let wyd = warp_y_den(xd, yd);
    if warps_out_of_bounds(uv0) {
        spec_black()
    } else {
        let row = sample_index(wyn, wyd, tex.height as int);
        let col_g = sample_index(wxn, wxd, tex.width as int);
        let col_r = sample_index(wxn * rx + wxd, wxd * rx, tex.width as int);
        let col_b = sample_index(wxn * rx - wxd, wxd * rx, tex.width as int);
        Rgba {
            r: spec_darken(tex.texel(col_r, row).r as int, s) as u8,
            g: spec_darken(tex.texel(col_g, row).g as int, s) as u8,
            b: spec_darken(tex.texel(col_b, row).b as int, s) as u8,
            a: 255,
        }
    }
}

/// Evaluate the fragment function exactly. Masked fragments are opaque black
/// (the bounds test of the warp), never a clamped or wrapped sample.
pub fn shade(uv0: &Uv, tex: &TextureModel, rx: u32, ry: u32, s: &ScanSin) -> (c: Rgba)
    requires
        uv0.wf(),
        tex.wf(),
        1 <= rx <= 0x8000,
        1 <= ry <= 0x8000,
        s.wf(),
    ensures
        c == spec_shade(*uv0, *tex, rx as int, ry as int, *s),
        warps_out_of_bounds(*uv0) ==> c == spec_black(),
{
    let w = warp(uv0);
    if out_of_bounds(&w) {
        black()
    } else {
        let rxi = rx as i128;
        proof {
            assert(-0x2000000000000000000000 <= w.x_num * rxi <= 0x2000000000000000000000 && 0
                < w.x_den * rxi <= 0x2000000000000000000000) by (nonlinear_arith)
                requires
                    -0x400000000000000000 <= w.x_num <= 0x400000000000000000,
                    0 < w.x_den <= 0x400000000000000000,
                    0 < rxi <= 0x8000,
            ;
        }
        let red_num = w.x_num * rxi + w.x_den;
        let split_den = w.x_den * rxi;
        let blue_num = w.x_num * rxi - w.x_den;
        let row = crate::texture::sample_line(w.y_num, w.y_den, tex.height);
        let col_g = crate::texture::sample_line(w.x_num, w.x_den, tex.width);
        let col_r = crate::texture::sample_line(red_num, split_den, tex.width);
        let col_b = crate::texture::sample_line(blue_num, split_den, tex.width);
        let tr = tex.get(col_r, row);
        let tg = tex.get(col_g, row);
        let tb = tex.get(col_b, row);
        Rgba { r: darken(tr.r, s), g: darken(tg.g, s), b: darken(tb.b, s), a: 255 }
    }
}

/// At a scanline whose phase `uv.y * resolution.y / 2` is a multiple of pi
/// the sine — and with it the darkening factor — is zero, and every channel
/// passes through unchanged: the darkening is a no-op exactly there.
pub proof fn lemma_zero_sine_darken_noop(c: int, s: ScanSin)
    requires
        s.wf(),
        s.num == 0,
        0 <= c,
    ensures
        spec_darken(c, s) == c,
{
    lemma_div_by_multiple(c, 4 * s.den as int);
}

/// On a texture of one uniform color, every fragment the warp keeps in
/// bounds is that color darkened by the scanline factor, with full alpha —
/// the channel split reads equal texels — and every fragment the warp
/// pushes out of bounds is opaque black.
pub proof fn lemma_shade_uniform_texture(
    uv0: Uv,
    tex: TextureModel,
    rx: int,
    ry: int,
    s: ScanSin,
    c: Rgba,
)
    requires
        uv0.wf(),
        tex.wf(),
        s.wf(),
        forall|col: int, row: int|
            0 <= col < tex.width && 0 <= row < tex.height ==> #[trigger] tex.texel(col, row) == c,
    ensures
        warps_out_of_bounds(uv0) ==> spec_shade(uv0, tex, rx, ry, s) == spec_black(),
        !warps_out_of_bounds(uv0) ==> spec_shade(uv0, tex, rx, ry, s) == (Rgba {
            r: spec_darken(c.r as int, s) as u8,
            g: spec_darken(c.g as int, s) as u8,
            b: spec_darken(c.b as int, s) as u8,
            a: 255,
        }),
{
    if !warps_out_of_bounds(uv0) {
        let xn = uv0.x_num as int;
        let xd = uv0.x_den as int;
        let yn = uv0.y_num as int;
        let yd = uv0.y_den as int;
        let wxn = warp_x_num(xn, xd, yn, yd);
        let wxd = warp_x_den(xd, yd);
        let wyn = warp_y_num(xn, xd, yn, yd);
        let wyd = warp_y_den(xd, yd);
        let row = sample_index(wyn, wyd, tex.height as int);
        let col_g = sample_index(wxn, wxd, tex.width as int);
        let col_r = sample_index(wxn * rx + wxd, wxd * rx, tex.width as int);
        let col_b = sample_index(wxn * rx - wxd, wxd * rx, tex.width as int);
        assert(0 <= row < tex.height && 0 <= col_g < tex.width && 0 <= col_r < tex.width && 0
            <= col_b < tex.width);
        assert(tex.texel(col_r, row) == c && tex.texel(col_g, row) == c && tex.texel(col_b, row)
            == c);
    }
}

/// The channel split at the level of the whole fragment function: when the
/// sampled texture is as wide as the output resolution (the composite pass
/// sizes the offscreen target to the window) and the warp keeps the
/// coordinate in bounds, the red sample column is the green channel's
/// unclamped column plus one and the blue sample column is it minus one,
/// each clamped to the edge — the one-pixel chromatic shift.
pub proof fn lemma_shade_channel_split(uv0: Uv, tex: TextureModel, rx: int)
    requires
        uv0.wf(),
        tex.wf(),
        !warps_out_of_bounds(uv0),
        tex.width == rx,
    ensures
        ({
            let wxn = warp_x_num(
                uv0.x_num as int,
                uv0.x_den as int,
                uv0.y_num as int,
                uv0.y_den as int,
            );
            let wxd = warp_x_den(uv0.x_den as int, uv0.y_den as int);
            let q = wxn * rx / wxd;
            &&& 0 <= q <= rx
            &&& sample_index(wxn, wxd, rx) == clamp_index(q, rx)
            &&& sample_index(wxn * rx + wxd, wxd * rx, rx) == clamp_index(q + 1, rx)
            &&& sample_index(wxn * rx - wxd, wxd * rx, rx) == clamp_index(q - 1, rx)
        }),
{
    let xd = uv0.x_den as int;
    let yd = uv0.y_den as int;
    let wxn = warp_x_num(uv0.x_num as int, xd, uv0.y_num as int, uv0.y_den as int);
    let wxd = warp_x_den(xd, yd);
    assert(0 < xd * (yd * yd)) by (nonlinear_arith)
        requires
            0 < xd,
            0 < yd,
    ;
    lemma_one_texel_split(wxn, wxd, rx);
}

/// Channel split by exactly one texel. For a line of w texels sampled at an
/// in-range coordinate num/den, with the split offset 1/w of the composite
/// pass (the texture is as wide as the output resolution), the red channel
/// reads one texel to the right of the green channel's unclamped index q and
/// the blue channel one texel to the left, each clamped to the edge.
pub proof fn lemma_one_texel_split(num: int, den: int, w: int)
    requires
        0 < den,
        0 <= num <= den,
        1 <= w,
    ensures
        0 <= num * w / den <= w,
        sample_index(num, den, w) == clamp_index(num * w / den, w),
        sample_index(num * w + den, den * w, w) == clamp_index(num * w / den + 1, w),
        sample_index(num * w - den, den * w, w) == clamp_index(num * w / den - 1, w),
{
    let q = num * w / den;
    assert(0 <= num * w <= den * w) by (nonlinear_arith)
        requires
            0 <= num <= den,
            1 <= w,
    ;
    lemma_div_pos_is_pos(num * w, den);
    lemma_multiply_divide_le(num * w, den, w);
    // Red: ((num*w + den) * w) / (den * w) == (num*w + den) / den == q + 1.
    let a_r = num * w + den;
    assert(a_r * w == (a_r * w / w) * w && a_r * w / w == a_r) by {
        lemma_div_by_multiple(a_r, w);
    }
    lemma_div_denominator(a_r * w, w, den);
    assert(w * den == den * w) by (nonlinear_arith);
    assert(a_r * w / (den * w) == a_r / den);
    assert(a_r / den == 1 + num * w / den) by {
        lemma_div_plus_one(num * w, den);
    }
    // Blue: ((num*w - den) * w) / (den * w) == (num*w - den) / den == q - 1.
    let a_b = num * w - den;
    if a_b >= 0 {
        lemma_div_by_multiple(a_b, w);
        lemma_div_denominator(a_b * w, w, den);
        assert(a_b * w / (den * w) == a_b / den);
        assert(den + a_b == num * w);
        assert(1 + a_b / den == (den + a_b) / den) by {
            lemma_div_plus_one(a_b, den);
        }
        assert(a_b / den == q - 1);
    } else {
        // -den <= a_b < 0, so a_b / den == -1 and q == 0.
        assert(a_b / den == -1) by {
            lemma_div_plus_one(a_b, den);
            lemma_basic_div(den + a_b, den);
        }
        assert(a_b * w < 0 && -(den * w) <= a_b * w) by (nonlinear_arith)
            requires
                -den <= a_b < 0,
                1 <= w,
        ;
        assert(a_b * w / (den * w) == -1) by {
            lemma_div_plus_one(a_b * w, den * w);
            lemma_basic_div(den * w + a_b * w, den * w);
            assert(den * w + a_b * w < den * w);
        }
        assert(q == 0) by {
            lemma_basic_div(num * w, den);
            assert(num * w < den) by (nonlinear_arith)
                requires
                    num * w == den + a_b,
                    a_b < 0,
            ;
        }
    }
}

} // verus!
