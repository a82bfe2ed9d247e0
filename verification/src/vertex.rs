//! Which screen corner each vertex of the full-screen geometry lands on.
//!
//! The shaders draw the whole screen with either one oversized triangle
//! (three vertices) or a quad of two triangles (six vertices); the vertex
//! shader picks the corner from the vertex index alone. Positions are in
//! clip space, where the screen is the square from -1 to 1.

use vstd::prelude::*;

verus! {

/// How many vertices the quad of two triangles has.
pub const QUAD_VERTEX_COUNT: usize = 6;

/// The texture coordinate of an oversized-triangle vertex: each axis is 0 or
/// 2, taken from bit 0 (x) and bit 1 (y) of the vertex index.
pub open spec fn triangle_uv(vert_id: int) -> (int, int) {
    (2 * (vert_id % 2), 2 * ((vert_id / 2) % 2))
}

/// The clip-space corner of an oversized-triangle vertex: `2 * uv - 1`, so
/// each axis is -1 or 3.
pub open spec fn triangle_corner(vert_id: int) -> (int, int) {
    let uv = triangle_uv(vert_id);
    (2 * uv.0 - 1, 2 * uv.1 - 1)
}

/// The corners of the quad's two triangles, in drawing order.
pub open spec fn quad_corners() -> Seq<(int, int)> {
    seq![(-1, -1), (1, -1), (1, 1), (-1, -1), (1, 1), (-1, 1)]
}

/// The texture coordinate of vertex `vert_id` of the oversized triangle
/// that covers the screen: `((vert_id << 1) & 2, vert_id & 2)`.
pub fn fullscreen_triangle_uv(vert_id: i32) -> (uv: (i32, i32))
    ensures
        uv.0 == triangle_uv(vert_id as int).0,
        uv.1 == triangle_uv(vert_id as int).1,
{
    let x = (vert_id << 1u32) & 2;
    let y = vert_id & 2;
    assert(((vert_id << 1u32) & 2) == 2 * (vert_id % 2)) by (bit_vector);
    assert((vert_id & 2) == 2 * ((vert_id / 2) % 2)) by (bit_vector);
    (x, y)
}

/// The clip-space corner of vertex `vert_id` of the oversized triangle:
/// twice the texture coordinate, less one.
pub fn fullscreen_triangle_corner(vert_id: i32) -> (p: (i32, i32))
    ensures
        p.0 == triangle_corner(vert_id as int).0,
        p.1 == triangle_corner(vert_id as int).1,
{
    let uv = fullscreen_triangle_uv(vert_id);
    (2 * uv.0 - 1, 2 * uv.1 - 1)
}

/// The clip-space corner of vertex `vert_id` of the oversized triangle as
/// the plainly positioned shader computes it:
/// `((vert_id & 1) * 4 - 1, (vert_id & 2) * 2 - 1)`.
pub fn oversized_triangle_corner(vert_id: i32) -> (p: (i32, i32))
    ensures
        p.0 == triangle_corner(vert_id as int).0,
        p.1 == triangle_corner(vert_id as int).1,
{
    let b0 = vert_id & 1;
    let b1 = vert_id & 2;
    assert((vert_id & 1) == vert_id % 2) by (bit_vector);
    assert((vert_id & 2) == 2 * ((vert_id / 2) % 2)) by (bit_vector);
    (b0 * 4 - 1, b1 * 2 - 1)
}

/// The slot in the quad's corner table that vertex `vert_id` reads: the
/// index converted to `usize`, modulo 6.
pub fn quad_slot(vert_id: i32) -> (i: usize)
    ensures
        i == (vert_id as usize) % 6,
        i < QUAD_VERTEX_COUNT,
{
    (vert_id as usize) % QUAD_VERTEX_COUNT
}

/// The clip-space corner of vertex `vert_id` of the quad of two triangles.
pub fn quad_corner(vert_id: i32) -> (p: (i32, i32))
    ensures
        p.0 == quad_corners()[((vert_id as usize) % 6) as int].0,
        p.1 == quad_corners()[((vert_id as usize) % 6) as int].1,
{
    let positions: [(i32, i32); 6] = [(-1, -1), (1, -1), (1, 1), (-1, -1), (1, 1), (-1, 1)];
    let idx = quad_slot(vert_id);
    positions[idx]
}

/// Point `p` lies in the triangle `a`, `b`, `c` (counter-clockwise), on
/// its border included: it is on the inner side of each edge.
pub open spec fn in_triangle(a: (int, int), b: (int, int), c: (int, int), p: (int, int)) -> bool {
    &&& edge_side(a, b, p) >= 0
    &&& edge_side(b, c, p) >= 0
    &&& edge_side(c, a, p) >= 0
}

/// Twice the signed area of `u`, `v`, `p`: positive when `p` is left of the
/// edge from `u` to `v`.
pub open spec fn edge_side(u: (int, int), v: (int, int), p: (int, int)) -> int {
    (v.0 - u.0) * (p.1 - u.1) - (v.1 - u.1) * (p.0 - u.0)
}

/// The oversized triangle covers the screen: its vertices 0, 1 and 2 land
/// on (-1, -1), (3, -1) and (-1, 3), and each corner of the screen square
/// lies in the triangle they span (so, the triangle being convex, the
/// whole square does).
pub proof fn lemma_triangle_covers_screen(sx: int, sy: int)
    requires
        sx == -1 || sx == 1,
        sy == -1 || sy == 1,
    ensures
        triangle_corner(0) == (-1int, -1int),
        triangle_corner(1) == (3int, -1int),
        triangle_corner(2) == (-1int, 3int),
        triangle_corner(3) == (3int, 3int),
        triangle_uv(0) == (0int, 0int),
        triangle_uv(1) == (2int, 0int),
        triangle_uv(2) == (0int, 2int),
        triangle_uv(3) == (2int, 2int),
        in_triangle(triangle_corner(0), triangle_corner(1), triangle_corner(2), (sx, sy)),
{
    assert(edge_side((-1, -1), (3, -1), (sx, sy)) >= 0) by (nonlinear_arith)
        requires
            sy == -1 || sy == 1,
    ;
    assert(edge_side((3, -1), (-1, 3), (sx, sy)) >= 0) by (nonlinear_arith)
        requires
            sx == -1 || sx == 1,
            sy == -1 || sy == 1,
    ;
    assert(edge_side((-1, 3), (-1, -1), (sx, sy)) >= 0) by (nonlinear_arith)
        requires
            sx == -1 || sx == 1,
    ;
}

/// The oversized triangle's corners repeat every four vertex indices, for
/// negative indices too.
pub proof fn lemma_triangle_corner_period(vert_id: int)
    ensures
        triangle_corner(vert_id + 4) == triangle_corner(vert_id),
{
    assert((vert_id + 4) / 2 == vert_id / 2 + 2);
}

/// The quad's two triangles, vertices 0-2 and 3-5, cover the screen: each
/// triangle is counter-clockwise, their corners are the four corners of the
/// screen square, and both share the diagonal from (-1, -1) to (1, 1).
pub proof fn lemma_quad_covers_screen()
    ensures
        forall|k: int| 0 <= k < 6 ==> (#[trigger] quad_corners()[k]).0 == -1 || quad_corners()[k].0 == 1,
        forall|k: int| 0 <= k < 6 ==> (#[trigger] quad_corners()[k]).1 == -1 || quad_corners()[k].1 == 1,
        quad_corners()[0] == quad_corners()[3],
        quad_corners()[2] == quad_corners()[4],
        in_triangle(quad_corners()[0], quad_corners()[1], quad_corners()[2], (1, -1)),
        in_triangle(quad_corners()[3], quad_corners()[4], quad_corners()[5], (-1, 1)),
        in_triangle(quad_corners()[0], quad_corners()[1], quad_corners()[2], (-1, -1)),
        in_triangle(quad_corners()[0], quad_corners()[1], quad_corners()[2], (1, 1)),
{
}

/// For non-negative vertex indices the quad's slots repeat every six
/// indices.
pub proof fn lemma_quad_period(vert_id: int)
    requires
        0 <= vert_id,
        vert_id + 6 <= i32::MAX,
    ensures
        ((vert_id + 6) as i32 as usize) % 6 == (vert_id as i32 as usize) % 6,
{
}

} // verus!
