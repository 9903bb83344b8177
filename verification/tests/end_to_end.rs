use crt_post::lifecycle::Stage;
use crt_post::pipeline::meta;
use crt_post::pipeline::UniformKind;
use crt_post::pipeline::FRAGMENT;
use crt_post::pipeline::VERTEX;
use crt_post::shader::shade;
use crt_post::shader::ScanSin;
use crt_post::texture::Rgba;
use crt_post::texture::TextureModel;
use crt_post::warp::pixel_center;

/// The warp numerators and denominators, recomputed independently, for the
/// coordinate (xn/xd, yn/yd).
fn warp_raw(xn: i128, xd: i128, yn: i128, yd: i128) -> (i128, i128, i128, i128) {
    let dy = yd - 2 * yn;
    let dx = xd - 2 * xn;
    let x_num = 160 * xd * yd * yd + (2 * xn - xd) * (160 * yd * yd + 9 * dy * dy);
    let x_den = 320 * xd * yd * yd;
    let y_num = 160 * yd * xd * xd + 4 * (2 * yn - yd) * (40 * xd * xd + 3 * dx * dx);
    let y_den = 320 * yd * xd * xd;
    (x_num, x_den, y_num, y_den)
}

#[test]
fn uniform_frame_end_to_end() {
    // One frame at 800x600 with the GUI pass producing a uniform color:
    // every pixel of the composite output is that color darkened by the
    // scanline factor of its row, except pixels the warp pushes off the
    // texture, which are opaque black.
    let mut stage = Stage::new(800, 600);
    stage.begin_gui_frame();
    stage.end_gui_frame();
    let target = stage.gui_pass();
    let c = Rgba { r: 30, g: 60, b: 90, a: 255 };
    let tex = TextureModel::new_uniform(target.width as usize, target.height as usize, c);
    let p = stage.composite_pass();
    let (rx, ry) = (p.uniforms.res_x, p.uniforms.res_y);
    assert_eq!((rx, ry), (800, 600));

    let mut masked = 0u32;
    let mut lit = 0u32;
    for py in 0..ry {
        // One scanline, one sine value; exercise several exact fractions.
        let s = ScanSin { num: (py % 5) as i64 - 2, den: 2 };
        let keep = 4 * s.den - s.num.abs();
        let expect_lit = Rgba {
            r: ((c.r as i64 * keep) / (4 * s.den)) as u8,
            g: ((c.g as i64 * keep) / (4 * s.den)) as u8,
            b: ((c.b as i64 * keep) / (4 * s.den)) as u8,
            a: 255,
        };
        for px in 0..rx {
            let uv0 = pixel_center(px, py, rx, ry);
            let out = shade(&uv0, &tex, rx, ry, &s);
            let (x_num, x_den, y_num, y_den) = warp_raw(
                (2 * px + 1) as i128,
                (2 * rx) as i128,
                (2 * py + 1) as i128,
                (2 * ry) as i128,
            );
            let oob = y_num > y_den || x_num < 0 || x_num > x_den || y_num < 0;
            if oob {
                assert_eq!(out, Rgba { r: 0, g: 0, b: 0, a: 255 });
                masked += 1;
            } else {
                assert_eq!(out, expect_lit);
                lit += 1;
            }
        }
    }
    // Both branches of the bounds mask must really occur.
    assert!(masked > 0);
    assert!(lit > 0);

    stage.present();
    assert_eq!(stage.frames, 1);
}

#[test]
fn meta_names_tex_and_uniform_block() {
    let m = meta();
    assert_eq!(m.images.len(), 1);
    assert_eq!(m.images[0], "tex");
    assert_eq!(m.uniforms.len(), 2);
    assert_eq!(m.uniforms[0].name, "offset");
    assert_eq!(m.uniforms[0].kind, UniformKind::Float2);
    assert_eq!(m.uniforms[1].name, "resolution");
    assert_eq!(m.uniforms[1].kind, UniformKind::Float2);
}

#[test]
fn shader_sources_carry_the_contract_constants() {
    assert!(VERTEX.contains("pos + offset"));
    assert!(FRAGMENT.contains("warp = 0.75"));
    assert!(FRAGMENT.contains("scan = 0.5"));
    assert!(FRAGMENT.contains("split = 1.0"));
    assert!(FRAGMENT.contains("dc.y*(0.3*warp)"));
    assert!(FRAGMENT.contains("dc.x*(0.4*warp)"));
    assert!(FRAGMENT.contains("sin(uv.y * resolution.y / 2.0) * 0.5 * scan"));
    assert!(FRAGMENT.contains("uv.x + split / resolution.x"));
    assert!(FRAGMENT.contains("uv.x - split / resolution.x"));
}
