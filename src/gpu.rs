//! Plain records shared with the device. Floating-point quantities are
//! carried as their IEEE-754 bit patterns, exactly as the device reads them.
use vstd::prelude::*;

verus! {

/// Three 32-bit channels.
#[derive(Clone, Copy, Debug, Default, PartialEq, Eq, Structural)]
pub struct Vec3Bits {
    pub x: u32,
    pub y: u32,
    pub z: u32,
}

/// Four 32-bit channels: one texel of an RGBA32 texture, or one row of a
/// packed record.
#[derive(Clone, Copy, Debug, Default, PartialEq, Eq, Structural)]
pub struct Vec4Bits {
    pub x: u32,
    pub y: u32,
    pub z: u32,
    pub w: u32,
}

/// The four channels of `v` followed by `w`.
pub open spec fn extended(v: Vec3Bits, w: u32) -> Vec4Bits {
    Vec4Bits { x: v.x, y: v.y, z: v.z, w }
}

impl Vec3Bits {
    pub fn extend(&self, w: u32) -> (r: Vec4Bits)
        ensures
            r == extended(*self, w),
    {
        Vec4Bits { x: self.x, y: self.y, z: self.z, w }
    }
}

impl Vec4Bits {
    pub fn zero() -> (r: Vec4Bits)
        ensures
            r == (Vec4Bits { x: 0, y: 0, z: 0, w: 0 }),
    {
        Vec4Bits { x: 0, y: 0, z: 0, w: 0 }
    }

    /// The first three channels.
    pub fn truncate(&self) -> (r: Vec3Bits)
        ensures
            r == (Vec3Bits { x: self.x, y: self.y, z: self.z }),
    {
        Vec3Bits { x: self.x, y: self.y, z: self.z }
    }
}

} // verus!
