//! The composite pipeline's fixed interface to the GPU driver: the vertex and
//! fragment source pair and the metadata naming its texture and uniform
//! bindings. The numeric constants in the fragment source (warp 0.75,
//! scanline strength 0.5, split 1.0) are the same rationals the verified
//! model in `crate::warp` and `crate::shader` evaluates exactly.

use vstd::prelude::*;
use vstd::string::StringExecFns;

verus! {

/// GLSL source of the composite vertex stage: the full-screen quad translated
/// by the compositing offset, texture coordinate passed through.
pub const VERTEX: &'static str = "#version 100
attribute vec2 pos;
attribute vec2 uv;
uniform vec2 offset;
varying lowp vec2 texcoord;
void main() {
    gl_Position = vec4(pos + offset, 0, 1);
    texcoord = uv;
}";

/// GLSL source of the composite fragment stage: barrel warp with the cross
/// axis squared-distance terms, bounds mask to opaque black, scanline
/// darkening from the vertical resolution, and the one-pixel RGB split.
pub const FRAGMENT: &'static str = "#version 100
varying lowp vec2 texcoord;
uniform sampler2D tex;
uniform lowp vec2 resolution;
lowp float warp = 0.75;
lowp float scan = 0.5;
lowp float split = 1.0;
void main() {
    lowp vec2 uv = texcoord;
    lowp vec2 dc = abs(0.5 - uv);
    dc *= dc;
    uv.x -= 0.5; uv.x *= 1.0+(dc.y*(0.3*warp)); uv.x += 0.5;
    uv.y -= 0.5; uv.y *= 1.0+(dc.x*(0.4*warp)); uv.y += 0.5;

    if (uv.y > 1.0 || uv.x < 0.0 || uv.x > 1.0 || uv.y < 0.0)
        gl_FragColor = vec4(0.0, 0.0, 0.0, 1.0);
    else {
        lowp float apply = abs(sin(uv.y * resolution.y / 2.0) * 0.5 * scan);
        lowp float r = texture2D(tex, vec2(uv.x + split / resolution.x, uv.y)).r;
        lowp float g = texture2D(tex, uv).g;
        lowp float b = texture2D(tex, vec2(uv.x - split / resolution.x, uv.y)).b;
        gl_FragColor = vec4(mix(vec3(r, g, b), vec3(0.0), apply), 1.0);
    }
}";

/// The type of one uniform in the block; both uniforms are pairs of floats.
#[derive(Clone, Copy, Debug, PartialEq, Eq, Structural)]
pub enum UniformKind {
    Float2,
}

/// One uniform's name and type, as the GPU driver wants them declared.
pub struct UniformDesc {
    pub name: String,
    pub kind: UniformKind,
}

/// The shader's bindings: the sampled images and the uniform block layout.
pub struct ShaderMetaModel {
    pub images: Vec<String>,
    pub uniforms: Vec<UniformDesc>,
}

/// The composite shader's bindings: one sampled image "tex" (the offscreen
/// target) and the uniform block of "offset" and "resolution", each a pair
/// of floats.
pub fn meta() -> (m: ShaderMetaModel)
    ensures
        m.images@.len() == 1,
        m.images@[0]@ == "tex"@,
        m.uniforms@.len() == 2,
        m.uniforms@[0].name@ == "offset"@,
        m.uniforms@[0].kind == UniformKind::Float2,
        m.uniforms@[1].name@ == "resolution"@,
        m.uniforms@[1].kind == UniformKind::Float2,
{
    let mut images: Vec<String> = Vec::new();
    images.push(String::from_str("tex"));
    let mut uniforms: Vec<UniformDesc> = Vec::new();
    uniforms.push(UniformDesc { name: String::from_str("offset"), kind: UniformKind::Float2 });
    uniforms.push(
        UniformDesc { name: String::from_str("resolution"), kind: UniformKind::Float2 },
    );
    ShaderMetaModel { images, uniforms }
}

} // verus!
