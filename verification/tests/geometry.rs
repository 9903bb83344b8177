use crt_post::geometry::quad_indices;
use crt_post::geometry::quad_vertices;

#[test]
fn quad_vertices_exact() {
    let vs = quad_vertices();
    assert_eq!(vs.len(), 4);
    let expected: [(i8, i8, u8, u8); 4] = [(-1, -1, 0, 0), (1, -1, 1, 0), (1, 1, 1, 1), (-1, 1, 0, 1)];
    for (v, e) in vs.iter().zip(expected.iter()) {
        assert_eq!(v.pos_x, e.0);
        assert_eq!(v.pos_y, e.1);
        assert_eq!(v.uv_x, e.2);
        assert_eq!(v.uv_y, e.3);
    }
}

#[test]
fn quad_vertices_corners_matched() {
    for v in quad_vertices() {
        assert_eq!(v.uv_x, if v.pos_x == 1 { 1 } else { 0 });
        assert_eq!(v.uv_y, if v.pos_y == 1 { 1 } else { 0 });
    }
}

#[test]
fn quad_indices_two_triangles() {
    let is = quad_indices();
    assert_eq!(is, vec![0u16, 1, 2, 0, 2, 3]);
    assert!(is.iter().all(|&i| i < 4));
}
