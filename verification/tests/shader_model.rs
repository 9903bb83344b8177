use crt_post::shader::darken;
use crt_post::shader::shade;
use crt_post::shader::ScanSin;
use crt_post::texture::Rgba;
use crt_post::texture::TextureModel;
use crt_post::warp::out_of_bounds;
use crt_post::warp::pixel_center;
use crt_post::warp::warp;
use crt_post::warp::Uv;

const BLACK: Rgba = Rgba { r: 0, g: 0, b: 0, a: 255 };
const WHITE: Rgba = Rgba { r: 255, g: 255, b: 255, a: 255 };

fn center() -> Uv {
    Uv { x_num: 1, x_den: 2, y_num: 1, y_den: 2 }
}

#[test]
fn warp_center_is_identity() {
    let w = warp(&center());
    // Equal as rationals: w.x/w.x_den == 1/2 on both axes.
    assert_eq!(w.x_num * 2, w.x_den);
    assert_eq!(w.y_num * 2, w.y_den);
    assert!(!out_of_bounds(&w));
}

#[test]
fn warp_pulls_corner_out_of_bounds() {
    // The lower-left pixel of an 800x600 frame lands left of the texture.
    let uv0 = pixel_center(0, 0, 800, 600);
    let w = warp(&uv0);
    assert!(w.x_num < 0);
    assert!(out_of_bounds(&w));
}

#[test]
fn masked_fragment_is_opaque_black() {
    let tex = TextureModel::new_uniform(800, 600, WHITE);
    let s = ScanSin { num: 0, den: 1 };
    let uv0 = pixel_center(0, 0, 800, 600);
    assert_eq!(shade(&uv0, &tex, 800, 600, &s), BLACK);
}

#[test]
fn center_shade_is_plain_sample_darkened() {
    // At the exact center the warp is a no-op: the output is the texture
    // color darkened by the scanline factor |sin|/4 = 1/8 here.
    let c = Rgba { r: 100, g: 150, b: 200, a: 255 };
    let tex = TextureModel::new_uniform(8, 8, c);
    let s = ScanSin { num: 1, den: 2 };
    let out = shade(&center(), &tex, 8, 8, &s);
    // keep = 4*2 - 1 = 7 of 8: floor(c * 7 / 8) per channel.
    assert_eq!(out, Rgba { r: 87, g: 131, b: 175, a: 255 });
}

#[test]
fn zero_sine_scanline_is_noop() {
    // Where the scanline phase is a multiple of pi the sine is 0 and the
    // darkening leaves every channel untouched.
    let c = Rgba { r: 100, g: 150, b: 200, a: 255 };
    let tex = TextureModel::new_uniform(8, 8, c);
    let s = ScanSin { num: 0, den: 7 };
    assert_eq!(shade(&center(), &tex, 8, 8, &s), c);
}

#[test]
fn darken_exact_values() {
    assert_eq!(darken(200, &ScanSin { num: 4, den: 4 }), 150); // 200 * 3/4
    assert_eq!(darken(200, &ScanSin { num: -4, den: 4 }), 150); // |sin| used
    assert_eq!(darken(255, &ScanSin { num: 1, den: 2 }), 223); // floor(255 * 7/8)
    assert_eq!(darken(255, &ScanSin { num: 0, den: 9 }), 255);
    assert_eq!(darken(0, &ScanSin { num: 3, den: 3 }), 0);
}

#[test]
fn channel_split_reads_one_texel_apart() {
    // 8x8 texture, all black except a white stripe in column 4. At the
    // center the warp is a no-op and green samples column 4; red samples one
    // texel right (column 5, black), blue one texel left (column 3, black):
    // the red response of the stripe appears shifted by one output pixel.
    let mut tex = TextureModel::new_uniform(8, 8, BLACK);
    for row in 0..8 {
        tex.set(4, row, WHITE);
    }
    let s = ScanSin { num: 0, den: 1 };
    let out = shade(&center(), &tex, 8, 8, &s);
    assert_eq!(out, Rgba { r: 0, g: 255, b: 0, a: 255 });

    // Sampling every channel at the stripe column would give pure white:
    // the split alone separates the channels.
    let uniform_stripe = TextureModel::new_uniform(8, 8, WHITE);
    assert_eq!(
        shade(&center(), &uniform_stripe, 8, 8, &s),
        Rgba { r: 255, g: 255, b: 255, a: 255 }
    );
}

#[test]
fn split_clamps_at_texture_edges() {
    // At uv.x == 0 the blue sample (uv.x - 1/4) clamps to column 0, green
    // reads column 0, and red reads column 1.
    let mut tex = TextureModel::new_uniform(4, 1, BLACK);
    tex.set(0, 0, WHITE);
    let s = ScanSin { num: 0, den: 1 };
    let uv0 = Uv { x_num: 0, x_den: 1, y_num: 1, y_den: 2 };
    let out = shade(&uv0, &tex, 4, 1, &s);
    assert_eq!(out, Rgba { r: 0, g: 255, b: 255, a: 255 });
}
