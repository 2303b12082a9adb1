//! Laws that relate the drawing operations to each other, proved once and for
//! all over the spec-level geometry that the operations' contracts speak of.

use vstd::prelude::*;
use crate::frame::batch_bytes;
use crate::geom::Rect;
use crate::geom::Vec2;
use crate::geom::Vec3;
use crate::geom::Vec4;
use crate::renderer::Triangle3;
use crate::renderer::corner_bl;
use crate::renderer::corner_br;
use crate::renderer::corner_tl;
use crate::renderer::corner_tr;
use crate::renderer::norm_pos;
use crate::renderer::norm_seq;
use crate::renderer::norm_tri;
use crate::renderer::pyramid_tris;
use crate::renderer::rect_tris;
use crate::renderer::reverse_tile_tris;
use crate::renderer::tile_tris;

verus! {

/// The set of the three vertex positions of one triangle.
pub open spec fn tri_positions(t: Triangle3) -> Set<Vec3> {
    set![t.a.pos, t.b.pos, t.c.pos]
}

/// The four corners of `r` at depth `depth`, remapped into the viewport
/// window `[tl, br]`.
pub open spec fn normed_corner_positions(r: Rect, depth: u32, tl: Vec2, br: Vec2) -> Set<Vec3> {
    set![
        norm_pos(corner_tl(r, depth), tl, br),
        norm_pos(corner_tr(r, depth), tl, br),
        norm_pos(corner_br(r, depth), tl, br),
        norm_pos(corner_bl(r, depth), tl, br),
    ]
}

/// What a rectangle submission stores keeps the given depth exactly on every
/// vertex, and carries the given colour on every vertex: normalization
/// touches only x and y.
pub proof fn lemma_rect_depth_and_colour(r: Rect, colour: Vec4, depth: u32, tl: Vec2, br: Vec2)
    ensures
        ({
            let ts = norm_seq(rect_tris(r, colour, depth), tl, br);
            &&& ts.len() == 2
            &&& forall|i: int| 0 <= i < 2 ==> (#[trigger] ts[i]).a.pos.z == depth
                && ts[i].b.pos.z == depth && ts[i].c.pos.z == depth
            &&& forall|i: int| 0 <= i < 2 ==> (#[trigger] ts[i]).a.colour == colour
                && ts[i].b.colour == colour && ts[i].c.colour == colour
        }),
{
    let ts = norm_seq(rect_tris(r, colour, depth), tl, br);
    assert(ts[0] == norm_tri(rect_tris(r, colour, depth)[0], tl, br));
    assert(ts[1] == norm_tri(rect_tris(r, colour, depth)[1], tl, br));
}

/// The two triangles of one rectangle submission together cover exactly the
/// four normalized corners of the submitted rectangle: every vertex position
/// is one of the corners, and every corner occurs.
pub proof fn lemma_rect_corner_coverage(r: Rect, colour: Vec4, depth: u32, tl: Vec2, br: Vec2)
    ensures
        ({
            let ts = norm_seq(rect_tris(r, colour, depth), tl, br);
            tri_positions(ts[0]).union(tri_positions(ts[1]))
                == normed_corner_positions(r, depth, tl, br)
        }),
{
    let ts = norm_seq(rect_tris(r, colour, depth), tl, br);
    assert(ts[0] == norm_tri(rect_tris(r, colour, depth)[0], tl, br));
    assert(ts[1] == norm_tri(rect_tris(r, colour, depth)[1], tl, br));
    assert(tri_positions(ts[0]).union(tri_positions(ts[1]))
        =~= normed_corner_positions(r, depth, tl, br));
}

/// For identical inputs, a beveled tile's first four triangles are exactly
/// the four of the no-bevel tile: the bevel only appends. This holds both in
/// world space and after normalization into any viewport window.
pub proof fn lemma_tile_pyramid_prefix(
    r: Rect,
    colour_n: Vec3,
    colour_e: Vec3,
    colour_s: Vec3,
    colour_w: Vec3,
    depth: u32,
    alpha: u32,
    tl: Vec2,
    br: Vec2,
)
    ensures
        tile_tris(r, colour_n, colour_e, colour_s, colour_w, depth, alpha).take(4)
            == pyramid_tris(r, colour_n, colour_e, colour_s, colour_w, depth, alpha),
        norm_seq(tile_tris(r, colour_n, colour_e, colour_s, colour_w, depth, alpha), tl, br)
            .take(4)
            == norm_seq(pyramid_tris(r, colour_n, colour_e, colour_s, colour_w, depth, alpha), tl, br),
{
    assert(tile_tris(r, colour_n, colour_e, colour_s, colour_w, depth, alpha).take(4)
        =~= pyramid_tris(r, colour_n, colour_e, colour_s, colour_w, depth, alpha));
    assert(norm_seq(tile_tris(r, colour_n, colour_e, colour_s, colour_w, depth, alpha), tl, br)
        .take(4)
        =~= norm_seq(pyramid_tris(r, colour_n, colour_e, colour_s, colour_w, depth, alpha), tl, br));
}

/// The reverse-beveled tile shares the beveled tile's centre pyramid too:
/// its first four triangles are the same four.
pub proof fn lemma_reverse_tile_pyramid_prefix(
    r: Rect,
    colour_n: Vec3,
    colour_e: Vec3,
    colour_s: Vec3,
    colour_w: Vec3,
    depth: u32,
    alpha: u32,
)
    ensures
        reverse_tile_tris(r, colour_n, colour_e, colour_s, colour_w, depth, alpha).take(4)
            == pyramid_tris(r, colour_n, colour_e, colour_s, colour_w, depth, alpha),
{
    assert(reverse_tile_tris(r, colour_n, colour_e, colour_s, colour_w, depth, alpha).take(4)
        =~= pyramid_tris(r, colour_n, colour_e, colour_s, colour_w, depth, alpha));
}

/// An empty batch — the state right after a `clear` — serializes to no bytes
/// and submits zero vertices.
pub proof fn lemma_empty_batch_presents_nothing(s: Seq<Triangle3>)
    requires
        s.len() == 0,
    ensures
        batch_bytes(s) == Seq::<u8>::empty(),
        3 * s.len() == 0,
{
}

} // verus!
