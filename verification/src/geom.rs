//! Plain geometric value types over IEEE-754 bit-pattern scalars.

use vstd::prelude::*;
use crate::scalar::add_bits;
use crate::scalar::mul_bits;
use crate::scalar::fadd;
use crate::scalar::fmul;

verus! {

/// A 2D point, each component an IEEE-754 single-precision bit pattern.
#[derive(Clone, Copy, Debug, PartialEq, Eq, Structural)]
pub struct Vec2 {
    pub x: u32,
    pub y: u32,
}

/// A 3D position, each component an IEEE-754 single-precision bit pattern.
#[derive(Clone, Copy, Debug, PartialEq, Eq, Structural)]
pub struct Vec3 {
    pub x: u32,
    pub y: u32,
    pub z: u32,
}

/// An RGBA colour, each channel an IEEE-754 single-precision bit pattern.
#[derive(Clone, Copy, Debug, PartialEq, Eq, Structural)]
pub struct Vec4 {
    pub x: u32,
    pub y: u32,
    pub z: u32,
    pub w: u32,
}

/// An axis-aligned rectangle: origin `(x, y)`, extent `(w, h)`, every field an
/// IEEE-754 single-precision bit pattern.
#[derive(Clone, Copy, Debug, PartialEq, Eq, Structural)]
pub struct Rect {
    pub x: u32,
    pub y: u32,
    pub w: u32,
    pub h: u32,
}

impl Vec2 {
    pub fn new(x: u32, y: u32) -> (v: Vec2)
        ensures
            v == (Vec2 { x, y }),
    {
        Vec2 { x, y }
    }
}

impl Vec3 {
    pub fn new(x: u32, y: u32, z: u32) -> (v: Vec3)
        ensures
            v == (Vec3 { x, y, z }),
    {
        Vec3 { x, y, z }
    }

    /// The colour extended by an alpha channel: RGB unchanged, `w` appended.
    pub fn with_w(self, w: u32) -> (v: Vec4)
        ensures
            v == spec_with_w(self, w),
    {
        Vec4 { x: self.x, y: self.y, z: self.z, w }
    }
}

/// The RGB channels of `v` with `w` as the alpha channel.
pub open spec fn spec_with_w(v: Vec3, w: u32) -> Vec4 {
    Vec4 { x: v.x, y: v.y, z: v.z, w }
}

impl Vec4 {
    pub fn new(x: u32, y: u32, z: u32, w: u32) -> (v: Vec4)
        ensures
            v == (Vec4 { x, y, z, w }),
    {
        Vec4 { x, y, z, w }
    }
}

/// The sub-rectangle of `r` carved out by relative offsets and sizes in `r`'s
/// own local space: origin shifted by `(w * fx, h * fy)`, extent `(w * fw, h * fh)`,
/// every operation IEEE-754 single-precision.
pub open spec fn spec_child(r: Rect, fx: u32, fy: u32, fw: u32, fh: u32) -> Rect {
    Rect {
        x: add_bits(r.x, mul_bits(r.w, fx)),
        y: add_bits(r.y, mul_bits(r.h, fy)),
        w: mul_bits(r.w, fw),
        h: mul_bits(r.h, fh),
    }
}

impl Rect {
    pub fn new(x: u32, y: u32, w: u32, h: u32) -> (r: Rect)
        ensures
            r == (Rect { x, y, w, h }),
    {
        Rect { x, y, w, h }
    }

    /// The sub-rectangle at relative offsets `(fx, fy)` with relative extent
    /// `(fw, fh)`, all fractions of this rectangle's own extent.
    pub fn child(self, fx: u32, fy: u32, fw: u32, fh: u32) -> (c: Rect)
        ensures
            c == spec_child(self, fx, fy, fw, fh),
    {
        Rect {
            x: fadd(self.x, fmul(self.w, fx)),
            y: fadd(self.y, fmul(self.h, fy)),
            w: fmul(self.w, fw),
            h: fmul(self.h, fh),
        }
    }
}

} // verus!
