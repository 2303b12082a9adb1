use tribatch::geom::Rect;
use tribatch::geom::Vec2;
use tribatch::geom::Vec3;
use tribatch::geom::Vec4;
use tribatch::renderer::Renderer;
use tribatch::renderer::Triangle3;

fn b(v: f32) -> u32 {
    v.to_bits()
}

fn rect(x: f32, y: f32, w: f32, h: f32) -> Rect {
    Rect::new(b(x), b(y), b(w), b(h))
}

fn rgb(r: f32, g: f32, bl: f32) -> Vec3 {
    Vec3::new(b(r), b(g), b(bl))
}

fn rgba(r: f32, g: f32, bl: f32, a: f32) -> Vec4 {
    Vec4::new(b(r), b(g), b(bl), b(a))
}

fn positions(t: &Triangle3) -> [(u32, u32, u32); 3] {
    [
        (t.a.pos.x, t.a.pos.y, t.a.pos.z),
        (t.b.pos.x, t.b.pos.y, t.b.pos.z),
        (t.c.pos.x, t.c.pos.y, t.c.pos.z),
    ]
}

#[test]
fn new_starts_empty_with_identity_window() {
    let r = Renderer::new(b(1.5));
    assert_eq!(r.triangles().len(), 0);
    assert_eq!(r.top_left(), Vec2::new(b(0.0), b(0.0)));
    assert_eq!(r.bot_right(), Vec2::new(b(1.0), b(1.0)));
    assert_eq!(r.aspect_ratio(), b(1.5));
}

#[test]
fn set_window_changes_only_the_window() {
    let mut r = Renderer::new(b(1.0));
    r.draw_rect(rect(0.0, 0.0, 1.0, 1.0), rgba(1.0, 1.0, 1.0, 1.0), b(0.0));
    let before = r.triangles().clone();
    r.set_window(Vec2::new(b(2.0), b(3.0)), Vec2::new(b(4.0), b(5.0)));
    assert_eq!(r.top_left(), Vec2::new(b(2.0), b(3.0)));
    assert_eq!(r.bot_right(), Vec2::new(b(4.0), b(5.0)));
    assert_eq!(*r.triangles(), before);
}

#[test]
fn draw_rect_adds_two_triangles_per_call() {
    let mut r = Renderer::new(b(1.0));
    for i in 0..5u32 {
        assert_eq!(r.triangles().len(), 2 * i as usize);
        r.draw_rect(rect(0.1, 0.2, 0.3, 0.4), rgba(1.0, 0.0, 0.0, 1.0), b(0.5));
    }
    assert_eq!(r.triangles().len(), 10);
}

#[test]
fn draw_rect_identity_window_round_trip() {
    // Identity window: a rectangle at (0.25, 0.25) with extent (0.25, 0.25)
    // is stored occupying exactly [0.25, 0.5] x [0.25, 0.5].
    let mut r = Renderer::new(b(1.0));
    r.draw_rect(rect(0.25, 0.25, 0.25, 0.25), rgba(0.0, 1.0, 0.0, 1.0), b(0.125));
    let ts = r.triangles();
    assert_eq!(ts.len(), 2);
    let lo = b(0.25);
    let hi = b(0.5);
    let z = b(0.125);
    // First triangle: top-left, top-right, bottom-right; second: top-left,
    // bottom-right, bottom-left.
    assert_eq!(positions(&ts[0]), [(lo, lo, z), (hi, lo, z), (hi, hi, z)]);
    assert_eq!(positions(&ts[1]), [(lo, lo, z), (hi, hi, z), (lo, hi, z)]);
}

#[test]
fn draw_rect_fills_window_exactly() {
    // A world rectangle that matches the viewport window lands exactly on the
    // unit square, every vertex on {0, 1} x {0, 1}, depth kept exactly.
    let mut r = Renderer::new(b(1.77));
    r.set_window(Vec2::new(b(10.0), b(10.0)), Vec2::new(b(20.0), b(30.0)));
    r.draw_rect(rect(10.0, 10.0, 10.0, 20.0), rgba(1.0, 1.0, 1.0, 1.0), b(0.0));
    let ts = r.triangles();
    assert_eq!(ts.len(), 2);
    let mut corners: Vec<(u32, u32)> = Vec::new();
    for t in ts.iter() {
        for (x, y, z) in positions(t) {
            assert_eq!(z, b(0.0));
            assert!(x == b(0.0) || x == b(1.0), "x was {:#x}", x);
            assert!(y == b(0.0) || y == b(1.0), "y was {:#x}", y);
            if !corners.contains(&(x, y)) {
                corners.push((x, y));
            }
        }
    }
    // All four unit-square corners occur, and nothing else.
    assert_eq!(corners.len(), 4);
}

#[test]
fn draw_rect_union_of_vertices_is_the_four_corners() {
    let mut r = Renderer::new(b(1.0));
    r.set_window(Vec2::new(b(0.0), b(0.0)), Vec2::new(b(2.0), b(2.0)));
    r.draw_rect(rect(0.5, 0.5, 1.0, 1.0), rgba(0.2, 0.4, 0.6, 0.8), b(0.75));
    let ts = r.triangles();
    let mut seen: Vec<(u32, u32, u32)> = Vec::new();
    for t in ts.iter() {
        for p in positions(t) {
            assert_eq!(p.2, b(0.75));
            if !seen.contains(&p) {
                seen.push(p);
            }
        }
    }
    let expected = [
        (b(0.25), b(0.25), b(0.75)),
        (b(0.75), b(0.25), b(0.75)),
        (b(0.75), b(0.75), b(0.75)),
        (b(0.25), b(0.75), b(0.75)),
    ];
    assert_eq!(seen.len(), 4);
    for c in expected {
        assert!(seen.contains(&c));
    }
}

#[test]
fn draw_rect_normalized_coordinates_stay_in_unit_range() {
    // A rectangle fully inside the window normalizes into [0, 1] on x and y.
    let mut r = Renderer::new(b(1.0));
    r.set_window(Vec2::new(b(-4.0), b(2.0)), Vec2::new(b(4.0), b(10.0)));
    r.draw_rect(rect(-2.0, 4.0, 3.0, 3.0), rgba(1.0, 1.0, 1.0, 1.0), b(0.25));
    for t in r.triangles().iter() {
        for (x, y, z) in positions(t) {
            let xf = f32::from_bits(x);
            let yf = f32::from_bits(y);
            assert!((0.0..=1.0).contains(&xf));
            assert!((0.0..=1.0).contains(&yf));
            assert_eq!(z, b(0.25));
        }
    }
}

#[test]
fn draw_tile_adds_twelve_triangles() {
    // Four centre-pyramid triangles plus four bevel strips of two triangles
    // each.
    let mut r = Renderer::new(b(1.0));
    r.draw_tile(
        rect(0.0, 0.0, 1.0, 1.0),
        rgb(1.0, 0.0, 0.0),
        rgb(0.0, 1.0, 0.0),
        rgb(0.0, 0.0, 1.0),
        rgb(1.0, 1.0, 0.0),
        b(0.0),
        b(1.0),
    );
    assert_eq!(r.triangles().len(), 12);
}

#[test]
fn draw_tile_no_bevel_adds_four_triangles() {
    let mut r = Renderer::new(b(1.0));
    r.draw_tile_no_bevel(
        rect(0.0, 0.0, 1.0, 1.0),
        rgb(1.0, 0.0, 0.0),
        rgb(0.0, 1.0, 0.0),
        rgb(0.0, 0.0, 1.0),
        rgb(1.0, 1.0, 0.0),
        b(0.0),
        b(1.0),
    );
    assert_eq!(r.triangles().len(), 4);
}

#[test]
fn draw_tile_reverse_bevel_adds_twelve_triangles() {
    let mut r = Renderer::new(b(1.0));
    r.draw_tile_reverse_bevel(
        rect(0.0, 0.0, 1.0, 1.0),
        rgb(1.0, 0.0, 0.0),
        rgb(0.0, 1.0, 0.0),
        rgb(0.0, 0.0, 1.0),
        rgb(1.0, 1.0, 0.0),
        b(0.0),
        b(1.0),
    );
    assert_eq!(r.triangles().len(), 12);
}

#[test]
fn draw_tile_no_bevel_matches_tile_pyramid() {
    // For identical inputs the no-bevel tile is exactly the first four
    // triangles of the beveled tile.
    let mut with_bevel = Renderer::new(b(1.0));
    let mut without = Renderer::new(b(1.0));
    let args = (
        rect(0.125, 0.25, 0.5, 0.5),
        rgb(0.9, 0.1, 0.2),
        rgb(0.3, 0.8, 0.1),
        rgb(0.2, 0.2, 0.7),
        rgb(0.6, 0.6, 0.6),
        b(0.375),
        b(0.75),
    );
    with_bevel.draw_tile(args.0, args.1, args.2, args.3, args.4, args.5, args.6);
    without.draw_tile_no_bevel(args.0, args.1, args.2, args.3, args.4, args.5, args.6);
    assert_eq!(&with_bevel.triangles()[0..4], &without.triangles()[0..4]);
}

#[test]
fn draw_tile_pyramid_geometry_and_colours() {
    // Identity window, unit tile: each pyramid triangle runs from one edge to
    // the centre (0.5, 0.5), flat-coloured with its edge colour plus alpha.
    let mut r = Renderer::new(b(1.0));
    r.draw_tile_no_bevel(
        rect(0.0, 0.0, 1.0, 1.0),
        rgb(1.0, 0.0, 0.0),
        rgb(0.0, 1.0, 0.0),
        rgb(0.0, 0.0, 1.0),
        rgb(1.0, 1.0, 0.0),
        b(0.25),
        b(0.5),
    );
    let ts = r.triangles();
    let z = b(0.25);
    let c = (b(0.5), b(0.5), z);
    let tl = (b(0.0), b(0.0), z);
    let tr = (b(1.0), b(0.0), z);
    let br = (b(1.0), b(1.0), z);
    let bl = (b(0.0), b(1.0), z);
    assert_eq!(positions(&ts[0]), [tl, tr, c]);
    assert_eq!(positions(&ts[1]), [tr, br, c]);
    assert_eq!(positions(&ts[2]), [br, bl, c]);
    assert_eq!(positions(&ts[3]), [bl, tl, c]);
    // North edge colour with the call's alpha, on every vertex of its
    // triangle.
    let north = rgba(1.0, 0.0, 0.0, 0.5);
    assert_eq!(ts[0].a.colour, north);
    assert_eq!(ts[0].b.colour, north);
    assert_eq!(ts[0].c.colour, north);
    let west = rgba(1.0, 1.0, 0.0, 0.5);
    assert_eq!(ts[3].a.colour, west);
}

#[test]
fn draw_tile_bevel_strips_geometry_and_shades() {
    // Unit tile, identity window: the four bevel strips are thin rectangles
    // along the edges, 0.03 thick, lifted 0.05 in front; top and left carry
    // the light highlight, bottom and right the dark shadow.
    let mut r = Renderer::new(b(1.0));
    r.draw_tile(
        rect(0.0, 0.0, 1.0, 1.0),
        rgb(1.0, 0.0, 0.0),
        rgb(0.0, 1.0, 0.0),
        rgb(0.0, 0.0, 1.0),
        rgb(1.0, 1.0, 0.0),
        b(0.0),
        b(1.0),
    );
    let ts = r.triangles();
    let highlight = rgba(0.7, 0.7, 0.7, 0.5);
    let shadow = rgba(0.3, 0.3, 0.3, 0.5);
    let lifted = b(0.05);
    for t in &ts[4..8] {
        assert_eq!(t.a.colour, highlight);
    }
    for t in &ts[8..12] {
        assert_eq!(t.a.colour, shadow);
    }
    for t in &ts[4..12] {
        for (_, _, z) in positions(t) {
            assert_eq!(z, lifted);
        }
    }
    // Top strip: [0, 1] x [0, 0.03].
    assert_eq!(
        positions(&ts[4]),
        [(b(0.0), b(0.0), lifted), (b(1.0), b(0.0), lifted), (b(1.0), b(0.03), lifted)]
    );
    // Bottom strip starts at y = 0.97.
    assert_eq!(positions(&ts[8])[0], (b(0.0), b(0.97), lifted));
}

#[test]
fn draw_tile_reverse_bevel_uses_shadow_on_all_strips() {
    let mut r = Renderer::new(b(1.0));
    r.draw_tile_reverse_bevel(
        rect(0.0, 0.0, 1.0, 1.0),
        rgb(1.0, 0.0, 0.0),
        rgb(0.0, 1.0, 0.0),
        rgb(0.0, 0.0, 1.0),
        rgb(1.0, 1.0, 0.0),
        b(0.0),
        b(1.0),
    );
    let ts = r.triangles();
    let shadow = rgba(0.3, 0.3, 0.3, 0.5);
    for t in &ts[4..12] {
        assert_eq!(t.a.colour, shadow);
        assert_eq!(t.b.colour, shadow);
        assert_eq!(t.c.colour, shadow);
    }
}

#[test]
fn clear_empties_the_batch_and_keeps_the_window() {
    let mut r = Renderer::new(b(1.0));
    r.set_window(Vec2::new(b(1.0), b(2.0)), Vec2::new(b(3.0), b(4.0)));
    r.draw_rect(rect(1.0, 2.0, 1.0, 1.0), rgba(1.0, 1.0, 1.0, 1.0), b(0.0));
    assert_eq!(r.triangles().len(), 2);
    r.clear();
    assert_eq!(r.triangles().len(), 0);
    assert_eq!(r.top_left(), Vec2::new(b(1.0), b(2.0)));
    assert_eq!(r.bot_right(), Vec2::new(b(3.0), b(4.0)));
}

#[test]
fn clear_then_present_submits_zero_vertices() {
    let mut r = Renderer::new(b(1.0));
    r.draw_tile(
        rect(0.0, 0.0, 1.0, 1.0),
        rgb(1.0, 0.0, 0.0),
        rgb(0.0, 1.0, 0.0),
        rgb(0.0, 0.0, 1.0),
        rgb(1.0, 1.0, 0.0),
        b(0.0),
        b(1.0),
    );
    r.clear();
    let frame = r.present();
    assert_eq!(frame.vertex_count, 0);
    assert!(frame.bytes.is_empty());
}

#[test]
fn present_packs_the_documented_byte_layout() {
    // One rectangle, identity window: the bytes are the two triangles'
    // vertices in order, each vertex seven little-endian 32-bit floats
    // [x, y, z, r, g, b, a], with no padding.
    let mut r = Renderer::new(b(1.0));
    r.draw_rect(rect(0.0, 0.0, 1.0, 1.0), rgba(1.0, 0.5, 0.25, 1.0), b(0.5));
    let frame = r.present();
    assert_eq!(frame.vertex_count, 6);
    assert_eq!(frame.bytes.len(), 6 * 28);
    let v = |x: f32, y: f32| -> Vec<u8> {
        let mut out = Vec::new();
        for f in [x, y, 0.5, 1.0, 0.5, 0.25, 1.0] {
            out.extend_from_slice(&f.to_le_bytes());
        }
        out
    };
    let mut expected = Vec::new();
    // Triangle 1: top-left, top-right, bottom-right.
    expected.extend(v(0.0, 0.0));
    expected.extend(v(1.0, 0.0));
    expected.extend(v(1.0, 1.0));
    // Triangle 2: top-left, bottom-right, bottom-left.
    expected.extend(v(0.0, 0.0));
    expected.extend(v(1.0, 1.0));
    expected.extend(v(0.0, 1.0));
    assert_eq!(frame.bytes, expected);
}

#[test]
fn present_counts_three_vertices_per_triangle() {
    let mut r = Renderer::new(b(1.0));
    r.draw_tile(
        rect(0.0, 0.0, 1.0, 1.0),
        rgb(1.0, 0.0, 0.0),
        rgb(0.0, 1.0, 0.0),
        rgb(0.0, 0.0, 1.0),
        rgb(1.0, 1.0, 0.0),
        b(0.0),
        b(1.0),
    );
    r.draw_rect(rect(0.0, 0.0, 1.0, 1.0), rgba(1.0, 1.0, 1.0, 1.0), b(0.0));
    let frame = r.present();
    assert_eq!(frame.vertex_count, 14 * 3);
    assert_eq!(frame.bytes.len(), 14 * 84);
}

#[test]
fn window_change_affects_only_later_shapes() {
    let mut r = Renderer::new(b(1.0));
    r.draw_rect(rect(0.0, 0.0, 1.0, 1.0), rgba(1.0, 1.0, 1.0, 1.0), b(0.0));
    let first = r.triangles()[0];
    r.set_window(Vec2::new(b(0.0), b(0.0)), Vec2::new(b(2.0), b(2.0)));
    r.draw_rect(rect(0.0, 0.0, 1.0, 1.0), rgba(1.0, 1.0, 1.0, 1.0), b(0.0));
    let ts = r.triangles();
    // The earlier triangle is untouched; the later one is normalized against
    // the new window, so its bottom-right corner sits at (0.5, 0.5).
    assert_eq!(ts[0], first);
    assert_eq!(positions(&ts[2])[2], (b(0.5), b(0.5), b(0.0)));
}

#[test]
fn rect_child_carves_in_local_space() {
    let parent = rect(2.0, 4.0, 8.0, 16.0);
    let child = parent.child(b(0.25), b(0.5), b(0.5), b(0.25));
    assert_eq!(child, rect(4.0, 12.0, 4.0, 4.0));
}
