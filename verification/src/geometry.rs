//! The quad geometry: four vertices and a triangle strip that cover the
//! whole viewport.
//!
//! Positions live on the corners of the clip-space square `[-1,1] x [-1,1]`
//! and texture coordinates on the corners of `[0,1] x [0,1]`, so both are
//! exact integers. The strip's index order `[1, 2, 0, 3]` yields the two
//! triangles `(v1, v2, v0)` and `(v2, v0, v3)`; their union is proved to
//! cover the full square at every scale, so no pixel of a non-degenerate
//! surface is omitted.

use vstd::prelude::*;

verus! {

/// One corner of the quad: a clip-space position and a texture coordinate.
#[derive(Clone, Copy, Debug, PartialEq, Eq)]
pub struct Vertex {
    /// Clip-space position; each component is -1 or 1 for the quad.
    pub position: (i32, i32),
    /// Texture coordinate; each component is 0 or 1 for the quad.
    pub tex_coords: (i32, i32),
}

/// The four corners, counter-clockwise from the lower left, with the texture
/// pinned corner-to-corner onto the quad.
pub open spec fn quad_vertices() -> Seq<Vertex> {
    seq![
        Vertex { position: (-1i32, -1i32), tex_coords: (0i32, 0i32) },
        Vertex { position: (-1i32, 1i32), tex_coords: (0i32, 1i32) },
        Vertex { position: (1i32, 1i32), tex_coords: (1i32, 1i32) },
        Vertex { position: (1i32, -1i32), tex_coords: (1i32, 0i32) },
    ]
}

/// The triangle-strip index order over the four corners.
pub open spec fn quad_indices() -> Seq<u16> {
    seq![1u16, 2u16, 0u16, 3u16]
}

/// Twice the signed area of the triangle `(a, b, p)`: positive when `p` lies
/// to the left of the directed edge `a -> b`.
pub open spec fn orient(a: (int, int), b: (int, int), p: (int, int)) -> int {
    (b.0 - a.0) * (p.1 - a.1) - (b.1 - a.1) * (p.0 - a.0)
}

/// Whether `p` lies inside or on the border of the triangle `(a, b, c)`:
/// the three edge orientations all agree in sign (or vanish), whichever way
/// the triangle is wound.
pub open spec fn in_triangle(p: (int, int), a: (int, int), b: (int, int), c: (int, int)) -> bool {
    let d0 = orient(a, b, p);
    let d1 = orient(b, c, p);
    let d2 = orient(c, a, p);
    (d0 >= 0 && d1 >= 0 && d2 >= 0) || (d0 <= 0 && d1 <= 0 && d2 <= 0)
}

/// The corner of the clip-space square scaled by `s` that vertex `i` of the
/// quad sits on.
pub open spec fn scaled_corner(i: int, s: int) -> (int, int) {
    (quad_vertices()[i].position.0 * s, quad_vertices()[i].position.1 * s)
}

/// Full coverage of the viewport: at every scale `s`, every point of the
/// square `[-s, s] x [-s, s]` lies in one of the strip's two triangles,
/// `(v1, v2, v0)` or `(v2, v0, v3)`. Taking `s` as large as wanted, the quad
/// leaves no seam and omits no point of any non-degenerate surface.
pub proof fn lemma_strip_covers_square(p: (int, int), s: int)
    requires
        s > 0,
        -s <= p.0 <= s,
        -s <= p.1 <= s,
    ensures
        in_triangle(p, scaled_corner(1, s), scaled_corner(2, s), scaled_corner(0, s))
            || in_triangle(p, scaled_corner(2, s), scaled_corner(0, s), scaled_corner(3, s)),
{
    let x = p.0;
    let y = p.1;
    assert((-1) * s == -s) by (nonlinear_arith);
    assert(1 * s == s) by (nonlinear_arith);
    assert(scaled_corner(0, s) == (-s, -s));
    assert(scaled_corner(1, s) == (-s, s));
    assert(scaled_corner(2, s) == (s, s));
    assert(scaled_corner(3, s) == (s, -s));
    if y >= x {
        // Upper-left triangle (v1, v2, v0), bounded by the top edge, the
        // diagonal, and the left edge of the square.
        let d0 = orient((-s, s), (s, s), p);
        let d1 = orient((s, s), (-s, -s), p);
        let d2 = orient((-s, -s), (-s, s), p);
        assert(d0 <= 0) by (nonlinear_arith)
            requires
                d0 == (s - (-s)) * (y - s) - (s - s) * (x - (-s)),
                s > 0,
                y <= s,
        ;
        assert(d1 <= 0) by (nonlinear_arith)
            requires
                d1 == ((-s) - s) * (y - s) - ((-s) - s) * (x - s),
                s > 0,
                x <= y,
        ;
        assert(d2 <= 0) by (nonlinear_arith)
            requires
                d2 == ((-s) - (-s)) * (y - (-s)) - (s - (-s)) * (x - (-s)),
                s > 0,
                x >= -s,
        ;
        assert(in_triangle(p, (-s, s), (s, s), (-s, -s)));
    } else {
        // Lower-right triangle (v2, v0, v3), bounded by the diagonal, the
        // bottom edge, and the right edge of the square.
        let d0 = orient((s, s), (-s, -s), p);
        let d1 = orient((-s, -s), (s, -s), p);
        let d2 = orient((s, -s), (s, s), p);
        assert(d0 >= 0) by (nonlinear_arith)
            requires
                d0 == ((-s) - s) * (y - s) - ((-s) - s) * (x - s),
                s > 0,
                x >= y,
        ;
        assert(d1 >= 0) by (nonlinear_arith)
            requires
                d1 == (s - (-s)) * (y - (-s)) - ((-s) - (-s)) * (x - (-s)),
                s > 0,
                y >= -s,
        ;
        assert(d2 >= 0) by (nonlinear_arith)
            requires
                d2 == (s - s) * (y - (-s)) - (s - (-s)) * (x - s),
                s > 0,
                x <= s,
        ;
        assert(in_triangle(p, (s, s), (-s, -s), (s, -s)));
    }
}

/// The converse: the strip never reaches outside the viewport. Every point
/// of either triangle lies inside the square `[-s, s] x [-s, s]`, so the
/// quad's union is exactly the full viewport: covered without seams, and
/// nothing drawn beyond it.
pub proof fn lemma_strip_within_square(p: (int, int), s: int)
    requires
        s > 0,
        in_triangle(p, scaled_corner(1, s), scaled_corner(2, s), scaled_corner(0, s))
            || in_triangle(p, scaled_corner(2, s), scaled_corner(0, s), scaled_corner(3, s)),
    ensures
        -s <= p.0 <= s,
        -s <= p.1 <= s,
{
    let x = p.0;
    let y = p.1;
    assert((-1) * s == -s) by (nonlinear_arith);
    assert(1 * s == s) by (nonlinear_arith);
    assert(scaled_corner(0, s) == (-s, -s));
    assert(scaled_corner(1, s) == (-s, s));
    assert(scaled_corner(2, s) == (s, s));
    assert(scaled_corner(3, s) == (s, -s));
    if in_triangle(p, (-s, s), (s, s), (-s, -s)) {
        let d0 = orient((-s, s), (s, s), p);
        let d1 = orient((s, s), (-s, -s), p);
        let d2 = orient((-s, -s), (-s, s), p);
        if d0 <= 0 && d1 <= 0 && d2 <= 0 {
            // The winding of (v1, v2, v0) is clockwise: the three
            // half-planes are the top edge, the diagonal, and the left
            // edge, and together they pin the point into the square.
            assert(y <= s && x <= y && x >= -s) by (nonlinear_arith)
                requires
                    d0 == (s - (-s)) * (y - s) - (s - s) * (x - (-s)),
                    d1 == ((-s) - s) * (y - s) - ((-s) - s) * (x - s),
                    d2 == ((-s) - (-s)) * (y - (-s)) - (s - (-s)) * (x - (-s)),
                    s > 0,
                    d0 <= 0,
                    d1 <= 0,
                    d2 <= 0,
            ;
        } else {
            // The counter-clockwise reading of the same triangle is empty:
            // its half-planes contradict each other for s > 0.
            assert(false) by (nonlinear_arith)
                requires
                    d0 == (s - (-s)) * (y - s) - (s - s) * (x - (-s)),
                    d1 == ((-s) - s) * (y - s) - ((-s) - s) * (x - s),
                    d2 == ((-s) - (-s)) * (y - (-s)) - (s - (-s)) * (x - (-s)),
                    s > 0,
                    d0 >= 0,
                    d1 >= 0,
                    d2 >= 0,
                    !(d0 <= 0 && d1 <= 0 && d2 <= 0),
            ;
        }
    } else {
        let d0 = orient((s, s), (-s, -s), p);
        let d1 = orient((-s, -s), (s, -s), p);
        let d2 = orient((s, -s), (s, s), p);
        if d0 >= 0 && d1 >= 0 && d2 >= 0 {
            // (v2, v0, v3) winds counter-clockwise: the diagonal, the
            // bottom edge and the right edge pin the point in.
            assert(x >= y && y >= -s && x <= s) by (nonlinear_arith)
                requires
                    d0 == ((-s) - s) * (y - s) - ((-s) - s) * (x - s),
                    d1 == (s - (-s)) * (y - (-s)) - ((-s) - (-s)) * (x - (-s)),
                    d2 == (s - s) * (y - (-s)) - (s - (-s)) * (x - s),
                    s > 0,
                    d0 >= 0,
                    d1 >= 0,
                    d2 >= 0,
            ;
        } else {
            assert(false) by (nonlinear_arith)
                requires
                    d0 == ((-s) - s) * (y - s) - ((-s) - s) * (x - s),
                    d1 == (s - (-s)) * (y - (-s)) - ((-s) - (-s)) * (x - (-s)),
                    d2 == (s - s) * (y - (-s)) - (s - (-s)) * (x - s),
                    s > 0,
                    d0 <= 0,
                    d1 <= 0,
                    d2 <= 0,
                    !(d0 >= 0 && d1 >= 0 && d2 >= 0),
            ;
        }
    }
}

/// The quad's positions are exactly the four corners of the clip-space
/// square, and each texture coordinate is pinned to the matching corner of
/// the unit square, so the full texture lands on the full viewport.
pub proof fn lemma_quad_spans_square()
    ensures
        quad_vertices().len() == 4,
        quad_vertices()[0] == (Vertex { position: (-1i32, -1i32), tex_coords: (0i32, 0i32) }),
        quad_vertices()[1] == (Vertex { position: (-1i32, 1i32), tex_coords: (0i32, 1i32) }),
        quad_vertices()[2] == (Vertex { position: (1i32, 1i32), tex_coords: (1i32, 1i32) }),
        quad_vertices()[3] == (Vertex { position: (1i32, -1i32), tex_coords: (1i32, 0i32) }),
        forall|i: int|
            0 <= i < 4 ==> #[trigger] quad_vertices()[i].tex_coords.0 == (quad_vertices()[i].position.0 + 1) / 2
                && quad_vertices()[i].tex_coords.1 == (quad_vertices()[i].position.1 + 1) / 2,
{
    assert forall|i: int|
        0 <= i < 4 implies #[trigger] quad_vertices()[i].tex_coords.0 == (quad_vertices()[i].position.0 + 1) / 2
        && quad_vertices()[i].tex_coords.1 == (quad_vertices()[i].position.1 + 1) / 2 by {
        if i == 0 {
        } else if i == 1 {
        } else if i == 2 {
        } else {
        }
    }
}

} // verus!
