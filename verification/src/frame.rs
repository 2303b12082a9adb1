//! Serialization of a batch into the byte layout the GPU consumes.
//!
//! Each vertex is seven consecutive 32-bit little-endian words — position
//! x, y, z then colour r, g, b, a — each word an IEEE-754 single-precision
//! bit pattern. Each triangle is its three vertices a, b, c in order; the
//! whole batch is its triangles concatenated with no padding, header or
//! length prefix. The vertex count travels out-of-band beside the bytes.

use vstd::prelude::*;
use crate::renderer::Triangle3;
use crate::renderer::Vert3;

verus! {

/// The four little-endian bytes of one 32-bit word.
pub open spec fn scalar_bytes(v: u32) -> Seq<u8> {
    seq![
        (v % 256) as u8,
        ((v / 256) % 256) as u8,
        ((v / 65536) % 256) as u8,
        ((v / 16777216) % 256) as u8,
    ]
}

/// The 28 bytes of one vertex: position x, y, z then colour r, g, b, a.
#[verifier::opaque]
pub open spec fn vert_bytes(v: Vert3) -> Seq<u8> {
    scalar_bytes(v.pos.x) + scalar_bytes(v.pos.y) + scalar_bytes(v.pos.z)
        + scalar_bytes(v.colour.x) + scalar_bytes(v.colour.y) + scalar_bytes(v.colour.z)
        + scalar_bytes(v.colour.w)
}

/// The 84 bytes of one triangle: vertices a, b, c in order.
#[verifier::opaque]
pub open spec fn tri_bytes(t: Triangle3) -> Seq<u8> {
    vert_bytes(t.a) + vert_bytes(t.b) + vert_bytes(t.c)
}

/// The whole batch: its triangles' bytes concatenated, in order.
pub open spec fn batch_bytes(s: Seq<Triangle3>) -> Seq<u8>
    decreases s.len(),
{
    if s.len() == 0 {
        Seq::empty()
    } else {
        batch_bytes(s.drop_last()) + tri_bytes(s.last())
    }
}

/// One vertex always serializes to exactly 28 bytes.
pub proof fn lemma_vert_bytes_len(v: Vert3)
    ensures
        vert_bytes(v).len() == 28,
{
    reveal(vert_bytes);
}

/// One triangle always serializes to exactly 84 bytes.
pub proof fn lemma_tri_bytes_len(t: Triangle3)
    ensures
        tri_bytes(t).len() == 84,
{
    reveal(tri_bytes);
    lemma_vert_bytes_len(t.a);
    lemma_vert_bytes_len(t.b);
    lemma_vert_bytes_len(t.c);
}

/// Appending a triangle to a batch appends its 84 bytes to the serialization.
pub proof fn lemma_batch_bytes_push(s: Seq<Triangle3>, t: Triangle3)
    ensures
        batch_bytes(s.push(t)) == batch_bytes(s) + tri_bytes(t),
{
    assert(s.push(t).drop_last() =~= s);
    assert(s.push(t).last() == t);
}

/// A batch's serialization is 84 bytes per triangle.
pub proof fn lemma_batch_bytes_len(s: Seq<Triangle3>)
    ensures
        batch_bytes(s).len() == 84 * s.len(),
    decreases s.len(),
{
    if s.len() > 0 {
        lemma_tri_bytes_len(s.last());
        lemma_batch_bytes_len(s.drop_last());
    }
}

/// One frame's GPU submission: the packed vertex bytes and how many vertices
/// they hold.
pub struct FrameData {
    /// The batch's vertices, packed in the documented interleaved layout.
    pub bytes: Vec<u8>,
    /// The number of vertices in `bytes`: three per triangle.
    pub vertex_count: usize,
}

/// Appends the four little-endian bytes of one 32-bit word.
pub(crate) fn push_scalar(bytes: &mut Vec<u8>, v: u32)
    ensures
        final(bytes)@ == old(bytes)@ + scalar_bytes(v),
{
    bytes.push((v % 256) as u8);
    bytes.push(((v / 256) % 256) as u8);
    bytes.push(((v / 65536) % 256) as u8);
    bytes.push(((v / 16777216) % 256) as u8);
    proof {
        assert(bytes@ =~= old(bytes)@ + scalar_bytes(v));
    }
}

/// Appends the 28 bytes of one vertex.
pub(crate) fn push_vert(bytes: &mut Vec<u8>, v: Vert3)
    ensures
        final(bytes)@ == old(bytes)@ + vert_bytes(v),
{
    push_scalar(bytes, v.pos.x);
    push_scalar(bytes, v.pos.y);
    push_scalar(bytes, v.pos.z);
    push_scalar(bytes, v.colour.x);
    push_scalar(bytes, v.colour.y);
    push_scalar(bytes, v.colour.z);
    push_scalar(bytes, v.colour.w);
    proof {
        reveal(vert_bytes);
        assert(bytes@ =~= old(bytes)@ + vert_bytes(v));
    }
}

/// Appends the 84 bytes of one triangle.
pub(crate) fn push_tri(bytes: &mut Vec<u8>, t: Triangle3)
    ensures
        final(bytes)@ == old(bytes)@ + tri_bytes(t),
{
    push_vert(bytes, t.a);
    push_vert(bytes, t.b);
    push_vert(bytes, t.c);
    proof {
        reveal(tri_bytes);
        assert(bytes@ =~= old(bytes)@ + tri_bytes(t));
    }
}

} // verus!
