//! Scene lights and their packed device record.
use vstd::prelude::*;

use crate::gpu::{extended, Vec3Bits, Vec4Bits};

verus! {

/// Tag stored in the first channel of a light record's third row.
pub const TYPE_POINT: u32 = 0;

/// Tag stored in the first channel of a light record's third row.
pub const TYPE_SPOT: u32 = 1;

/// A unit direction in its two-channel octahedral encoding.
#[derive(Clone, Copy, Debug, Default, PartialEq, Eq, Structural)]
pub struct NormalBits {
    pub x: u32,
    pub y: u32,
}

/// A scene light. Every float is held as its bit pattern.
#[derive(Clone, Copy, Debug, PartialEq, Eq, Structural)]
pub enum Light {
    Point { position: Vec3Bits, radius: u32, color: Vec3Bits, range: u32 },
    Spot {
        position: Vec3Bits,
        radius: u32,
        color: Vec3Bits,
        range: u32,
        direction: NormalBits,
        angle: u32,
    },
}

/// A light as the device reads it: three rows describing the light in the
/// current frame, one spare row, and the first three rows as they were in
/// the previous frame.
#[derive(Clone, Copy, Debug, PartialEq, Eq, Structural)]
pub struct GpuLight {
    pub d0: Vec4Bits,
    pub d1: Vec4Bits,
    pub d2: Vec4Bits,
    pub d3: Vec4Bits,
    pub prev_d0: Vec4Bits,
    pub prev_d1: Vec4Bits,
    pub prev_d2: Vec4Bits,
}

/// The row of a light record that holds its position and radius.
pub open spec fn row0(l: Light) -> Vec4Bits {
    match l {
        Light::Point { position, radius, .. } => extended(position, radius),
        Light::Spot { position, radius, .. } => extended(position, radius),
    }
}

/// The row of a light record that holds its color and range.
pub open spec fn row1(l: Light) -> Vec4Bits {
    match l {
        Light::Point { color, range, .. } => extended(color, range),
        Light::Spot { color, range, .. } => extended(color, range),
    }
}

/// The row of a light record that holds its kind and, for a spot, its
/// encoded direction and cone angle.
pub open spec fn row2(l: Light) -> Vec4Bits {
    match l {
        Light::Point { .. } => Vec4Bits { x: TYPE_POINT, y: 0, z: 0, w: 0 },
        Light::Spot { direction, angle, .. } => Vec4Bits {
            x: TYPE_SPOT,
            y: direction.x,
            z: direction.y,
            w: angle,
        },
    }
}

impl Light {
    /// Packs the light into its device record. A light seen for the first
    /// time has no earlier state, so its previous-frame rows repeat the
    /// current ones (no motion is reported for it in this frame).
    pub fn serialize(&self) -> (r: GpuLight)
        ensures
            r.d0 == row0(*self),
            r.d1 == row1(*self),
            r.d2 == row2(*self),
            r.d3 == (Vec4Bits { x: 0, y: 0, z: 0, w: 0 }),
            r.prev_d0 == r.d0,
            r.prev_d1 == r.d1,
            r.prev_d2 == r.d2,
    {
        let d0;
        let d1;
        let d2;

        match self {
            Light::Point { position, radius, color, range } => {
                d0 = position.extend(*radius);
                d1 = color.extend(*range);
                d2 = Vec4Bits { x: TYPE_POINT, y: 0, z: 0, w: 0 };
            },
            Light::Spot { position, radius, color, range, direction, angle } => {
                d0 = position.extend(*radius);
                d1 = color.extend(*range);
                d2 = Vec4Bits { x: TYPE_SPOT, y: direction.x, z: direction.y, w: *angle };
            },
        }

        GpuLight { d0, d1, d2, d3: Vec4Bits::zero(), prev_d0: d0, prev_d1: d1, prev_d2: d2 }
    }
}

impl GpuLight {
    /// Whether the record describes a spot light.
    pub fn is_spot(&self) -> (r: bool)
        ensures
            r == (self.d2.x == TYPE_SPOT),
    {
        self.d2.x == TYPE_SPOT
    }

    /// Moves to the next frame with `light` as the light's new state: the
    /// rows of the frame that ends become the previous-frame rows.
    pub fn update(&mut self, light: &Light)
        ensures
            final(self).d0 == row0(*light),
            final(self).d1 == row1(*light),
            final(self).d2 == row2(*light),
            final(self).d3 == old(self).d3,
            final(self).prev_d0 == old(self).d0,
            final(self).prev_d1 == old(self).d1,
            final(self).prev_d2 == old(self).d2,
    {
        let next = light.serialize();
        self.prev_d0 = self.d0;
        self.prev_d1 = self.d1;
        self.prev_d2 = self.d2;
        self.d0 = next.d0;
        self.d1 = next.d1;
        self.d2 = next.d2;
    }
}

} // verus!
