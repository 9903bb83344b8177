//! The full-screen quad: four vertices in normalized device coordinates and
//! six indices forming the two triangles that tile the whole viewport.

use vstd::prelude::*;

verus! {

/// One corner of the full-screen quad: a position in normalized device
/// coordinates (each component -1 or 1) and the matching texture coordinate
/// (each component 0 or 1). The host converts these exact integer values to
/// the GPU's floating-point vertex format.
#[derive(Clone, Copy, Debug, PartialEq, Eq, Structural)]
pub struct Vertex {
    pub pos_x: i8,
    pub pos_y: i8,
    pub uv_x: u8,
    pub uv_y: u8,
}

/// A vertex pairs a quad corner with its texture corner one-to-one:
/// texture coordinate 0 sits at position -1 and 1 at position 1, per axis.
pub open spec fn corner_matched(v: Vertex) -> bool {
    &&& (v.pos_x == -1 && v.uv_x == 0) || (v.pos_x == 1 && v.uv_x == 1)
    &&& (v.pos_y == -1 && v.uv_y == 0) || (v.pos_y == 1 && v.uv_y == 1)
}

/// The four corners of the quad, in counter-clockwise order starting at the
/// lower-left corner: positions span [-1,1] x [-1,1] and texture coordinates
/// span [0,1] x [0,1], matched corner for corner.
pub fn quad_vertices() -> (vs: Vec<Vertex>)
    ensures
        vs@.len() == 4,
        vs@[0] == (Vertex { pos_x: -1i8, pos_y: -1i8, uv_x: 0, uv_y: 0 }),
        vs@[1] == (Vertex { pos_x: 1i8, pos_y: -1i8, uv_x: 1, uv_y: 0 }),
        vs@[2] == (Vertex { pos_x: 1i8, pos_y: 1i8, uv_x: 1, uv_y: 1 }),
        vs@[3] == (Vertex { pos_x: -1i8, pos_y: 1i8, uv_x: 0, uv_y: 1 }),
        forall|i: int| 0 <= i < 4 ==> corner_matched(#[trigger] vs@[i]),
{
    let mut vs: Vec<Vertex> = Vec::new();
    vs.push(Vertex { pos_x: -1, pos_y: -1, uv_x: 0, uv_y: 0 });
    vs.push(Vertex { pos_x: 1, pos_y: -1, uv_x: 1, uv_y: 0 });
    vs.push(Vertex { pos_x: 1, pos_y: 1, uv_x: 1, uv_y: 1 });
    vs.push(Vertex { pos_x: -1, pos_y: 1, uv_x: 0, uv_y: 1 });
    vs
}

/// The index buffer: two triangles (0,1,2) and (0,2,3) over the quad's four
/// vertices, sharing the diagonal edge 0-2, so the two together cover the
/// quad exactly once.
pub fn quad_indices() -> (is: Vec<u16>)
    ensures
        is@ =~= seq![0u16, 1u16, 2u16, 0u16, 2u16, 3u16],
        forall|i: int| 0 <= i < is@.len() ==> #[trigger] is@[i] < 4,
{
    let mut is: Vec<u16> = Vec::new();
    is.push(0);
    is.push(1);
    is.push(2);
    is.push(0);
    is.push(2);
    is.push(3);
    is
}

} // verus!
