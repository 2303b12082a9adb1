//! The triangle batch: accumulation, viewport normalization, frame lifecycle.

use vstd::prelude::*;
use crate::frame::FrameData;
use crate::frame::batch_bytes;
use crate::frame::push_tri;
use crate::frame::lemma_batch_bytes_push;
use crate::frame::lemma_batch_bytes_len;
use crate::geom::Rect;
use crate::geom::Vec2;
use crate::geom::Vec3;
use crate::geom::Vec4;
use crate::geom::spec_child;
use crate::geom::spec_with_w;
use crate::scalar::add_bits;
use crate::scalar::div_bits;
use crate::scalar::sub_bits;
use crate::scalar::fadd;
use crate::scalar::fdiv;
use crate::scalar::fsub;
use crate::scalar::BITS_ZERO;
use crate::scalar::BITS_ONE;
use crate::scalar::BITS_TWO;
use crate::scalar::BITS_HALF;
use crate::scalar::BITS_BEVEL_THICKNESS;
use crate::scalar::BITS_BEVEL_LIFT;
use crate::scalar::BITS_HIGHLIGHT_GREY;
use crate::scalar::BITS_SHADOW_GREY;

verus! {

/// One vertex of the batch: a 3D position and an RGBA colour.
#[derive(Clone, Copy, Debug, PartialEq, Eq, Structural)]
pub struct Vert3 {
    pub pos: Vec3,
    pub colour: Vec4,
}

/// Three vertices, wound as the submitting shape chose.
#[derive(Clone, Copy, Debug, PartialEq, Eq, Structural)]
pub struct Triangle3 {
    pub a: Vert3,
    pub b: Vert3,
    pub c: Vert3,
}

/// One scalar remapped into the viewport window along one axis:
/// `(v - lo) / size`, in IEEE-754 single-precision arithmetic.
pub open spec fn norm_scalar(v: u32, lo: u32, size: u32) -> u32 {
    div_bits(sub_bits(v, lo), size)
}

/// One position remapped into the viewport window `[top_left, bot_right]`:
/// x and y are normalized against the window, z passes through.
pub open spec fn norm_pos(p: Vec3, top_left: Vec2, bot_right: Vec2) -> Vec3 {
    Vec3 {
        x: norm_scalar(p.x, top_left.x, sub_bits(bot_right.x, top_left.x)),
        y: norm_scalar(p.y, top_left.y, sub_bits(bot_right.y, top_left.y)),
        z: p.z,
    }
}

/// One vertex remapped into the viewport window: the position is remapped,
/// the colour passes through.
pub open spec fn norm_vert(v: Vert3, top_left: Vec2, bot_right: Vec2) -> Vert3 {
    Vert3 { pos: norm_pos(v.pos, top_left, bot_right), colour: v.colour }
}

/// One triangle remapped into the viewport window, vertex by vertex.
pub open spec fn norm_tri(t: Triangle3, top_left: Vec2, bot_right: Vec2) -> Triangle3 {
    Triangle3 {
        a: norm_vert(t.a, top_left, bot_right),
        b: norm_vert(t.b, top_left, bot_right),
        c: norm_vert(t.c, top_left, bot_right),
    }
}

/// A sequence of triangles remapped into the viewport window, element-wise.
pub open spec fn norm_seq(s: Seq<Triangle3>, top_left: Vec2, bot_right: Vec2) -> Seq<Triangle3> {
    s.map_values(|t: Triangle3| norm_tri(t, top_left, bot_right))
}

/// The top-left corner of `r` at depth `depth` (world space).
pub open spec fn corner_tl(r: Rect, depth: u32) -> Vec3 {
    Vec3 { x: r.x, y: r.y, z: depth }
}

/// The top-right corner of `r` at depth `depth`: `x + w` in IEEE-754 arithmetic.
pub open spec fn corner_tr(r: Rect, depth: u32) -> Vec3 {
    Vec3 { x: add_bits(r.x, r.w), y: r.y, z: depth }
}

/// The bottom-right corner of `r` at depth `depth`.
pub open spec fn corner_br(r: Rect, depth: u32) -> Vec3 {
    Vec3 { x: add_bits(r.x, r.w), y: add_bits(r.y, r.h), z: depth }
}

/// The bottom-left corner of `r` at depth `depth`.
pub open spec fn corner_bl(r: Rect, depth: u32) -> Vec3 {
    Vec3 { x: r.x, y: add_bits(r.y, r.h), z: depth }
}

/// The two world-space triangles that tile the rectangle `r` at depth `depth`
/// with the flat colour `colour`: (tl, tr, br) then (tl, br, bl).
pub open spec fn rect_tris(r: Rect, colour: Vec4, depth: u32) -> Seq<Triangle3> {
    seq![
        Triangle3 {
            a: Vert3 { pos: corner_tl(r, depth), colour },
            b: Vert3 { pos: corner_tr(r, depth), colour },
            c: Vert3 { pos: corner_br(r, depth), colour },
        },
        Triangle3 {
            a: Vert3 { pos: corner_tl(r, depth), colour },
            b: Vert3 { pos: corner_br(r, depth), colour },
            c: Vert3 { pos: corner_bl(r, depth), colour },
        },
    ]
}

/// The centre of `r` at depth `depth`: `(x + w/2, y + h/2)` in IEEE-754
/// arithmetic.
pub open spec fn tile_center(r: Rect, depth: u32) -> Vec3 {
    Vec3 {
        x: add_bits(r.x, div_bits(r.w, BITS_TWO)),
        y: add_bits(r.y, div_bits(r.h, BITS_TWO)),
        z: depth,
    }
}

/// The bevel highlight colour: light grey at half alpha.
pub open spec fn highlight_colour() -> Vec4 {
    Vec4 { x: BITS_HIGHLIGHT_GREY, y: BITS_HIGHLIGHT_GREY, z: BITS_HIGHLIGHT_GREY, w: BITS_HALF }
}

/// The bevel shadow colour: dark grey at half alpha.
pub open spec fn shadow_colour() -> Vec4 {
    Vec4 { x: BITS_SHADOW_GREY, y: BITS_SHADOW_GREY, z: BITS_SHADOW_GREY, w: BITS_HALF }
}

/// The four world-space "pyramid" triangles of a tile: one per cardinal edge,
/// each spanning from that edge of `r` to the tile's centre, flat-coloured
/// with its edge colour extended by `alpha`.
pub open spec fn pyramid_tris(
    r: Rect,
    colour_n: Vec3,
    colour_e: Vec3,
    colour_s: Vec3,
    colour_w: Vec3,
    depth: u32,
    alpha: u32,
) -> Seq<Triangle3> {
    let cn = spec_with_w(colour_n, alpha);
    let ce = spec_with_w(colour_e, alpha);
    let cs = spec_with_w(colour_s, alpha);
    let cw = spec_with_w(colour_w, alpha);
    let center = tile_center(r, depth);
    seq![
        Triangle3 {
            a: Vert3 { pos: corner_tl(r, depth), colour: cn },
            b: Vert3 { pos: corner_tr(r, depth), colour: cn },
            c: Vert3 { pos: center, colour: cn },
        },
        Triangle3 {
            a: Vert3 { pos: corner_tr(r, depth), colour: ce },
            b: Vert3 { pos: corner_br(r, depth), colour: ce },
            c: Vert3 { pos: center, colour: ce },
        },
        Triangle3 {
            a: Vert3 { pos: corner_br(r, depth), colour: cs },
            b: Vert3 { pos: corner_bl(r, depth), colour: cs },
            c: Vert3 { pos: center, colour: cs },
        },
        Triangle3 {
            a: Vert3 { pos: corner_bl(r, depth), colour: cw },
            b: Vert3 { pos: corner_tl(r, depth), colour: cw },
            c: Vert3 { pos: center, colour: cw },
        },
    ]
}

/// The thin strip along the top edge of `r`, in `r`'s local space.
pub open spec fn strip_top(r: Rect) -> Rect {
    spec_child(r, BITS_ZERO, BITS_ZERO, BITS_ONE, BITS_BEVEL_THICKNESS)
}

/// The thin strip along the left edge of `r`, in `r`'s local space.
pub open spec fn strip_left(r: Rect) -> Rect {
    spec_child(r, BITS_ZERO, BITS_ZERO, BITS_BEVEL_THICKNESS, BITS_ONE)
}

/// The thin strip along the bottom edge of `r`, in `r`'s local space.
pub open spec fn strip_bottom(r: Rect) -> Rect {
    spec_child(r, BITS_ZERO, sub_bits(BITS_ONE, BITS_BEVEL_THICKNESS), BITS_ONE, BITS_BEVEL_THICKNESS)
}

/// The thin strip along the right edge of `r`, in `r`'s local space.
pub open spec fn strip_right(r: Rect) -> Rect {
    spec_child(r, sub_bits(BITS_ONE, BITS_BEVEL_THICKNESS), BITS_ZERO, BITS_BEVEL_THICKNESS, BITS_ONE)
}

/// The eight world-space triangles of a raised bevel on `r`: top and left
/// strips in the highlight colour, bottom and right strips in the shadow
/// colour, all lifted slightly in front of the tile's own depth.
pub open spec fn bevel_tris(r: Rect, depth: u32) -> Seq<Triangle3> {
    let lifted = add_bits(depth, BITS_BEVEL_LIFT);
    rect_tris(strip_top(r), highlight_colour(), lifted)
        + rect_tris(strip_left(r), highlight_colour(), lifted)
        + rect_tris(strip_bottom(r), shadow_colour(), lifted)
        + rect_tris(strip_right(r), shadow_colour(), lifted)
}

/// The eight world-space triangles of an inset bevel on `r`: the same four
/// strips as [`bevel_tris`], but every strip in the shadow colour (an
/// intentional visual variant: the highlight/shadow split collapses).
pub open spec fn reverse_bevel_tris(r: Rect, depth: u32) -> Seq<Triangle3> {
    let lifted = add_bits(depth, BITS_BEVEL_LIFT);
    rect_tris(strip_top(r), shadow_colour(), lifted)
        + rect_tris(strip_left(r), shadow_colour(), lifted)
        + rect_tris(strip_bottom(r), shadow_colour(), lifted)
        + rect_tris(strip_right(r), shadow_colour(), lifted)
}

/// All twelve world-space triangles of a beveled tile: the centre pyramid
/// followed by the raised bevel.
pub open spec fn tile_tris(
    r: Rect,
    colour_n: Vec3,
    colour_e: Vec3,
    colour_s: Vec3,
    colour_w: Vec3,
    depth: u32,
    alpha: u32,
) -> Seq<Triangle3> {
    pyramid_tris(r, colour_n, colour_e, colour_s, colour_w, depth, alpha) + bevel_tris(r, depth)
}

/// All twelve world-space triangles of a reverse-beveled tile: the centre
/// pyramid followed by the inset bevel.
pub open spec fn reverse_tile_tris(
    r: Rect,
    colour_n: Vec3,
    colour_e: Vec3,
    colour_s: Vec3,
    colour_w: Vec3,
    depth: u32,
    alpha: u32,
) -> Seq<Triangle3> {
    pyramid_tris(r, colour_n, colour_e, colour_s, colour_w, depth, alpha)
        + reverse_bevel_tris(r, depth)
}

/// The batch renderer: triangles accumulated for the current frame, plus the
/// viewport window that every incoming shape is remapped into at submission.
pub struct Renderer {
    triangles: Vec<Triangle3>,
    top_left: Vec2,
    bot_right: Vec2,
    aspect_ratio: u32,
}

impl Renderer {
    /// The triangles accumulated so far, in submission order, each already
    /// remapped into the viewport window that was current when it was pushed.
    pub closed spec fn batch(&self) -> Seq<Triangle3> {
        self.triangles@
    }

    /// The top-left corner of the current viewport window.
    pub closed spec fn win_tl(&self) -> Vec2 {
        self.top_left
    }

    /// The bottom-right corner of the current viewport window.
    pub closed spec fn win_br(&self) -> Vec2 {
        self.bot_right
    }

    /// The aspect ratio handed to the constructor.
    pub closed spec fn aspect(&self) -> u32 {
        self.aspect_ratio
    }

    /// Sets the viewport window that every shape submitted from now on is
    /// remapped into; triangles already in the batch are untouched.
    pub fn set_window(&mut self, top_left: Vec2, bot_right: Vec2)
        ensures
            final(self).batch() == old(self).batch(),
            final(self).win_tl() == top_left,
            final(self).win_br() == bot_right,
            final(self).aspect() == old(self).aspect(),
    {
        self.top_left = top_left;
        self.bot_right = bot_right;
    }

    /// The top-left corner of the current viewport window.
    pub fn top_left(&self) -> (v: Vec2)
        ensures
            v == self.win_tl(),
    {
        self.top_left
    }

    /// The bottom-right corner of the current viewport window.
    pub fn bot_right(&self) -> (v: Vec2)
        ensures
            v == self.win_br(),
    {
        self.bot_right
    }

    /// The aspect ratio handed to the constructor. Reserved for future
    /// projection logic; the layout math does not consume it.
    pub fn aspect_ratio(&self) -> (v: u32)
        ensures
            v == self.aspect(),
    {
        self.aspect_ratio
    }

    /// A fresh renderer: empty batch, identity viewport window
    /// (top-left 0.0, bottom-right 1.0 on both axes).
    pub fn new(aspect_ratio: u32) -> (r: Renderer)
        ensures
            r.batch() == Seq::<Triangle3>::empty(),
            r.win_tl() == (Vec2 { x: BITS_ZERO, y: BITS_ZERO }),
            r.win_br() == (Vec2 { x: BITS_ONE, y: BITS_ONE }),
            r.aspect() == aspect_ratio,
    {
        Renderer {
            triangles: Vec::new(),
            top_left: Vec2 { x: BITS_ZERO, y: BITS_ZERO },
            bot_right: Vec2 { x: BITS_ONE, y: BITS_ONE },
            aspect_ratio,
        }
    }

    /// Read access to the accumulated batch.
    pub fn triangles(&self) -> (t: &Vec<Triangle3>)
        ensures
            t@ == self.batch(),
    {
        &self.triangles
    }

    /// Packs the whole batch for one GPU submission: every vertex's bytes in
    /// the documented interleaved layout, and the vertex count for the draw
    /// call — three per triangle, zero for an empty batch. The whole batch is
    /// re-packed on every call; nothing is incremental.
    pub fn present(&self) -> (frame: FrameData)
        ensures
            frame.bytes@ == batch_bytes(self.batch()),
            frame.vertex_count == 3 * self.batch().len(),
    {
        let mut bytes: Vec<u8> = Vec::new();
        let n = self.triangles.len();
        let mut i: usize = 0;
        while i < n
            invariant
                n == self.batch().len(),
                i <= n,
                bytes@ == batch_bytes(self.batch().take(i as int)),
            decreases n - i,
        {
            push_tri(&mut bytes, self.triangles[i]);
            proof {
                lemma_batch_bytes_push(self.batch().take(i as int), self.batch()[i as int]);
                assert(self.batch().take(i as int).push(self.batch()[i as int])
                    =~= self.batch().take(i as int + 1));
            }
            i = i + 1;
        }
        let total = bytes.len();
        proof {
            assert(self.batch().take(n as int) =~= self.batch());
            lemma_batch_bytes_len(self.batch());
            assert(total == 84 * self.batch().len());
        }
        let vertex_count: usize = 3 * n;
        FrameData { bytes, vertex_count }
    }

    /// Empties the batch; the viewport window is kept.
    pub fn clear(&mut self)
        ensures
            final(self).batch() == Seq::<Triangle3>::empty(),
            final(self).win_tl() == old(self).win_tl(),
            final(self).win_br() == old(self).win_br(),
            final(self).aspect() == old(self).aspect(),
    {
        self.triangles.clear();
    }

    /// Remaps `tri` into the current viewport window and appends it. Called
    /// once per submitted triangle; normalization is not re-appliable, so a
    /// triangle is never pushed twice.
    fn push_triangle(&mut self, tri: Triangle3)
        ensures
            final(self).batch() == old(self).batch().push(
                norm_tri(tri, old(self).win_tl(), old(self).win_br()),
            ),
            final(self).win_tl() == old(self).win_tl(),
            final(self).win_br() == old(self).win_br(),
            final(self).aspect() == old(self).aspect(),
    {
        let dim_x = fsub(self.bot_right.x, self.top_left.x);
        let dim_y = fsub(self.bot_right.y, self.top_left.y);
        let normed = Triangle3 {
            a: Self::norm_vert_exec(tri.a, self.top_left, dim_x, dim_y),
            b: Self::norm_vert_exec(tri.b, self.top_left, dim_x, dim_y),
            c: Self::norm_vert_exec(tri.c, self.top_left, dim_x, dim_y),
        };
        self.triangles.push(normed);
    }

    /// One vertex remapped against the window origin and precomputed extents.
    fn norm_vert_exec(v: Vert3, top_left: Vec2, dim_x: u32, dim_y: u32) -> (n: Vert3)
        ensures
            n == (Vert3 {
                pos: Vec3 {
                    x: div_bits(sub_bits(v.pos.x, top_left.x), dim_x),
                    y: div_bits(sub_bits(v.pos.y, top_left.y), dim_y),
                    z: v.pos.z,
                },
                colour: v.colour,
            }),
    {
        Vert3 {
            pos: Vec3 {
                x: fdiv(fsub(v.pos.x, top_left.x), dim_x),
                y: fdiv(fsub(v.pos.y, top_left.y), dim_y),
                z: v.pos.z,
            },
            colour: v.colour,
        }
    }

    /// Appends the two triangles that tile `r` at depth `depth` with the flat
    /// colour `colour`, each remapped into the current viewport window.
    /// Exactly two triangles are added; nothing else changes.
    pub fn draw_rect(&mut self, r: Rect, colour: Vec4, depth: u32)
        ensures
            final(self).batch() == old(self).batch() + norm_seq(
                rect_tris(r, colour, depth),
                old(self).win_tl(),
                old(self).win_br(),
            ),
            final(self).batch().len() == old(self).batch().len() + 2,
            final(self).win_tl() == old(self).win_tl(),
            final(self).win_br() == old(self).win_br(),
            final(self).aspect() == old(self).aspect(),
    {
        let x_w = fadd(r.x, r.w);
        let y_h = fadd(r.y, r.h);
        let v1 = Vert3 { pos: Vec3 { x: r.x, y: r.y, z: depth }, colour };
        let v2 = Vert3 { pos: Vec3 { x: r.x, y: y_h, z: depth }, colour };
        let v3 = Vert3 { pos: Vec3 { x: x_w, y: y_h, z: depth }, colour };
        let v4 = Vert3 { pos: Vec3 { x: x_w, y: r.y, z: depth }, colour };
        self.push_triangle(Triangle3 { a: v1, b: v4, c: v3 });
        self.push_triangle(Triangle3 { a: v1, b: v3, c: v2 });
        proof {
            assert(self.batch() =~= old(self).batch() + norm_seq(
                rect_tris(r, colour, depth),
                old(self).win_tl(),
                old(self).win_br(),
            ));
        }
    }

    /// Appends the four centre-pyramid triangles of a tile on `r`: one
    /// triangle per cardinal edge, spanning from that edge to the tile's
    /// centre, flat-coloured with its edge colour extended by `alpha`; each
    /// remapped into the current viewport window.
    fn push_pyramid(
        &mut self,
        r: Rect,
        colour_n: Vec3,
        colour_e: Vec3,
        colour_s: Vec3,
        colour_w: Vec3,
        depth: u32,
        alpha: u32,
    )
        ensures
            final(self).batch() == old(self).batch() + norm_seq(
                pyramid_tris(r, colour_n, colour_e, colour_s, colour_w, depth, alpha),
                old(self).win_tl(),
                old(self).win_br(),
            ),
            final(self).win_tl() == old(self).win_tl(),
            final(self).win_br() == old(self).win_br(),
            final(self).aspect() == old(self).aspect(),
    {
        let x_w = fadd(r.x, r.w);
        let y_h = fadd(r.y, r.h);
        let corner1 = Vec3 { x: r.x, y: r.y, z: depth };
        let corner2 = Vec3 { x: x_w, y: r.y, z: depth };
        let corner3 = Vec3 { x: x_w, y: y_h, z: depth };
        let corner4 = Vec3 { x: r.x, y: y_h, z: depth };
        let center = Vec3 {
            x: fadd(r.x, fdiv(r.w, BITS_TWO)),
            y: fadd(r.y, fdiv(r.h, BITS_TWO)),
            z: depth,
        };
        let cn = colour_n.with_w(alpha);
        let ce = colour_e.with_w(alpha);
        let cs = colour_s.with_w(alpha);
        let cw = colour_w.with_w(alpha);
        self.push_triangle(Triangle3 {
            a: Vert3 { pos: corner1, colour: cn },
            b: Vert3 { pos: corner2, colour: cn },
            c: Vert3 { pos: center, colour: cn },
        });
        self.push_triangle(Triangle3 {
            a: Vert3 { pos: corner2, colour: ce },
            b: Vert3 { pos: corner3, colour: ce },
            c: Vert3 { pos: center, colour: ce },
        });
        self.push_triangle(Triangle3 {
            a: Vert3 { pos: corner3, colour: cs },
            b: Vert3 { pos: corner4, colour: cs },
            c: Vert3 { pos: center, colour: cs },
        });
        self.push_triangle(Triangle3 {
            a: Vert3 { pos: corner4, colour: cw },
            b: Vert3 { pos: corner1, colour: cw },
            c: Vert3 { pos: center, colour: cw },
        });
        proof {
            assert(self.batch() =~= old(self).batch() + norm_seq(
                pyramid_tris(r, colour_n, colour_e, colour_s, colour_w, depth, alpha),
                old(self).win_tl(),
                old(self).win_br(),
            ));
        }
    }

    /// Appends a beveled tile on `r`: the four centre-pyramid triangles, then
    /// four thin bevel strips (top and left in the highlight colour, bottom
    /// and right in the shadow colour) lifted slightly in front of `depth`.
    /// Exactly twelve triangles are added, each remapped into the current
    /// viewport window.
    pub fn draw_tile(
        &mut self,
        r: Rect,
        colour_n: Vec3,
        colour_e: Vec3,
        colour_s: Vec3,
        colour_w: Vec3,
        depth: u32,
        alpha: u32,
    )
        ensures
            final(self).batch() == old(self).batch() + norm_seq(
                tile_tris(r, colour_n, colour_e, colour_s, colour_w, depth, alpha),
                old(self).win_tl(),
                old(self).win_br(),
            ),
            final(self).batch().len() == old(self).batch().len() + 12,
            final(self).win_tl() == old(self).win_tl(),
            final(self).win_br() == old(self).win_br(),
            final(self).aspect() == old(self).aspect(),
    {
        let top_depth_colour = Vec4 {
            x: BITS_HIGHLIGHT_GREY,
            y: BITS_HIGHLIGHT_GREY,
            z: BITS_HIGHLIGHT_GREY,
            w: BITS_HALF,
        };
        let bot_depth_colour = Vec4 {
            x: BITS_SHADOW_GREY,
            y: BITS_SHADOW_GREY,
            z: BITS_SHADOW_GREY,
            w: BITS_HALF,
        };
        let inner_edge = fsub(BITS_ONE, BITS_BEVEL_THICKNESS);
        let lifted = fadd(depth, BITS_BEVEL_LIFT);
        self.push_pyramid(r, colour_n, colour_e, colour_s, colour_w, depth, alpha);
        self.draw_rect(
            r.child(BITS_ZERO, BITS_ZERO, BITS_ONE, BITS_BEVEL_THICKNESS),
            top_depth_colour,
            lifted,
        );
        self.draw_rect(
            r.child(BITS_ZERO, BITS_ZERO, BITS_BEVEL_THICKNESS, BITS_ONE),
            top_depth_colour,
            lifted,
        );
        self.draw_rect(
            r.child(BITS_ZERO, inner_edge, BITS_ONE, BITS_BEVEL_THICKNESS),
            bot_depth_colour,
            lifted,
        );
        self.draw_rect(
            r.child(inner_edge, BITS_ZERO, BITS_BEVEL_THICKNESS, BITS_ONE),
            bot_depth_colour,
            lifted,
        );
        proof {
            assert(self.batch() =~= old(self).batch() + norm_seq(
                tile_tris(r, colour_n, colour_e, colour_s, colour_w, depth, alpha),
                old(self).win_tl(),
                old(self).win_br(),
            ));
            assert(tile_tris(r, colour_n, colour_e, colour_s, colour_w, depth, alpha).len() == 12);
        }
    }

    /// Appends the centre pyramid of a tile on `r` and nothing else: exactly
    /// four triangles, identical to the first four of [`Renderer::draw_tile`]
    /// for identical inputs, each remapped into the current viewport window.
    pub fn draw_tile_no_bevel(
        &mut self,
        r: Rect,
        colour_n: Vec3,
        colour_e: Vec3,
        colour_s: Vec3,
        colour_w: Vec3,
        depth: u32,
        alpha: u32,
    )
        ensures
            final(self).batch() == old(self).batch() + norm_seq(
                pyramid_tris(r, colour_n, colour_e, colour_s, colour_w, depth, alpha),
                old(self).win_tl(),
                old(self).win_br(),
            ),
            final(self).batch().len() == old(self).batch().len() + 4,
            final(self).win_tl() == old(self).win_tl(),
            final(self).win_br() == old(self).win_br(),
            final(self).aspect() == old(self).aspect(),
    {
        self.push_pyramid(r, colour_n, colour_e, colour_s, colour_w, depth, alpha);
    }

    /// Appends a reverse-beveled (inset) tile on `r`: the same geometry as
    /// [`Renderer::draw_tile`], but all four bevel strips use the shadow
    /// colour. Exactly twelve triangles are added, each remapped into the
    /// current viewport window.
    pub fn draw_tile_reverse_bevel(
        &mut self,
        r: Rect,
        colour_n: Vec3,
        colour_e: Vec3,
        colour_s: Vec3,
        colour_w: Vec3,
        depth: u32,
        alpha: u32,
    )
        ensures
            final(self).batch() == old(self).batch() + norm_seq(
                reverse_tile_tris(r, colour_n, colour_e, colour_s, colour_w, depth, alpha),
                old(self).win_tl(),
                old(self).win_br(),
            ),
            final(self).batch().len() == old(self).batch().len() + 12,
            final(self).win_tl() == old(self).win_tl(),
            final(self).win_br() == old(self).win_br(),
            final(self).aspect() == old(self).aspect(),
    {
        let bot_depth_colour = Vec4 {
            x: BITS_SHADOW_GREY,
            y: BITS_SHADOW_GREY,
            z: BITS_SHADOW_GREY,
            w: BITS_HALF,
        };
        let inner_edge = fsub(BITS_ONE, BITS_BEVEL_THICKNESS);
        let lifted = fadd(depth, BITS_BEVEL_LIFT);
        self.push_pyramid(r, colour_n, colour_e, colour_s, colour_w, depth, alpha);
        self.draw_rect(
            r.child(BITS_ZERO, BITS_ZERO, BITS_ONE, BITS_BEVEL_THICKNESS),
            bot_depth_colour,
            lifted,
        );
        self.draw_rect(
            r.child(BITS_ZERO, BITS_ZERO, BITS_BEVEL_THICKNESS, BITS_ONE),
            bot_depth_colour,
            lifted,
        );
        self.draw_rect(
            r.child(BITS_ZERO, inner_edge, BITS_ONE, BITS_BEVEL_THICKNESS),
            bot_depth_colour,
            lifted,
        );
        self.draw_rect(
            r.child(inner_edge, BITS_ZERO, BITS_BEVEL_THICKNESS, BITS_ONE),
            bot_depth_colour,
            lifted,
        );
        proof {
            assert(self.batch() =~= old(self).batch() + norm_seq(
                reverse_tile_tris(r, colour_n, colour_e, colour_s, colour_w, depth, alpha),
                old(self).win_tl(),
                old(self).win_br(),
            ));
            assert(reverse_tile_tris(r, colour_n, colour_e, colour_s, colour_w, depth, alpha).len()
                == 12);
        }
    }
}

} // verus!
