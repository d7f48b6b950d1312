//! Surface hits and their two-texel encoding.
use vstd::prelude::*;

use crate::gpu::{extended, Vec3Bits, Vec4Bits};

verus! {

/// Material index that marks "nothing was hit".
pub const MATERIAL_NONE: u32 = 0xffff_ffff;

/// Bit pattern of the largest finite `f32`: the distance of a miss.
pub const DISTANCE_NONE: u32 = 0x7f7f_ffff;

/// Where a ray met the scene. Position, normal and distance are float bit
/// patterns; a miss carries `MATERIAL_NONE`.
#[derive(Clone, Copy, Debug, PartialEq, Eq, Structural)]
pub struct Hit {
    pub point: Vec3Bits,
    pub normal: Vec3Bits,
    pub material_id: u32,
    pub distance: u32,
}

/// The hit that stands for a miss.
pub open spec fn none_spec() -> Hit {
    Hit {
        point: Vec3Bits { x: 0, y: 0, z: 0 },
        normal: Vec3Bits { x: 0, y: 0, z: 0 },
        material_id: MATERIAL_NONE,
        distance: DISTANCE_NONE,
    }
}

/// A hit that the encoding carries: a real hit, or the miss itself.
pub open spec fn well_formed(h: Hit) -> bool {
    h.material_id != MATERIAL_NONE || h == none_spec()
}

/// The two texels that a hit is stored as.
pub open spec fn encoded(h: Hit) -> (Vec4Bits, Vec4Bits) {
    (extended(h.point, h.material_id), extended(h.normal, h.distance))
}

/// The hit that two texels stand for.
pub open spec fn decoded(d0: Vec4Bits, d1: Vec4Bits) -> Hit {
    if d0.w == MATERIAL_NONE {
        none_spec()
    } else {
        Hit {
            point: Vec3Bits { x: d0.x, y: d0.y, z: d0.z },
            normal: Vec3Bits { x: d1.x, y: d1.y, z: d1.z },
            material_id: d0.w,
            distance: d1.w,
        }
    }
}

impl Hit {
    pub fn none() -> (r: Hit)
        ensures
            r == none_spec(),
    {
        Hit {
            point: Vec3Bits { x: 0, y: 0, z: 0 },
            normal: Vec3Bits { x: 0, y: 0, z: 0 },
            material_id: MATERIAL_NONE,
            distance: DISTANCE_NONE,
        }
    }

    pub fn is_none(&self) -> (r: bool)
        ensures
            r == (self.material_id == MATERIAL_NONE),
    {
        self.material_id == MATERIAL_NONE
    }

    pub fn is_some(&self) -> (r: bool)
        ensures
            r == (self.material_id != MATERIAL_NONE),
    {
        self.material_id != MATERIAL_NONE
    }

    /// Encodes the hit as two texels: position and material, then normal
    /// and distance.
    pub fn serialize(&self) -> (r: (Vec4Bits, Vec4Bits))
        ensures
            r == encoded(*self),
    {
        (self.point.extend(self.material_id), self.normal.extend(self.distance))
    }

    /// Decodes two texels; a material index of `MATERIAL_NONE` reads back
    /// as the miss, whatever the other channels hold.
    pub fn deserialize(d0: Vec4Bits, d1: Vec4Bits) -> (r: Hit)
        ensures
            r == decoded(d0, d1),
    {
        if d0.w == MATERIAL_NONE {
            Hit::none()
        } else {
            Hit { point: d0.truncate(), normal: d1.truncate(), material_id: d0.w, distance: d1.w }
        }
    }
}

/// Decoding an encoded hit gives the hit back, bit for bit; in particular
/// the miss survives the round trip.
pub proof fn lemma_hit_round_trip(h: Hit)
    requires
        well_formed(h),
    ensures
        decoded(encoded(h).0, encoded(h).1) == h,
        decoded(encoded(none_spec()).0, encoded(none_spec()).1) == none_spec(),
{
}

/// What the indirect tracing step stores for one pixel: nothing when the
/// primary ray missed, else the hit of the secondary ray.
pub open spec fn indirect_hit(direct: Hit, traced: Hit) -> Hit {
    if direct.material_id == MATERIAL_NONE {
        none_spec()
    } else {
        traced
    }
}

/// Whether a secondary ray has to be traced from the primary hit stored in
/// `direct_d0` and `direct_d1`.
pub fn needs_indirect_ray(direct_d0: Vec4Bits, direct_d1: Vec4Bits) -> (r: bool)
    ensures
        r == (decoded(direct_d0, direct_d1).material_id != MATERIAL_NONE),
{
    Hit::deserialize(direct_d0, direct_d1).is_some()
}

/// The indirect tracing step for one pixel: decodes the primary hit, keeps
/// the secondary ray's hit `traced` only where the primary ray hit
/// something, and encodes the result.
pub fn indirect_initial_tracing(direct_d0: Vec4Bits, direct_d1: Vec4Bits, traced: Hit) -> (r: (
    Vec4Bits,
    Vec4Bits,
))
    ensures
        r == encoded(indirect_hit(decoded(direct_d0, direct_d1), traced)),
{
    let direct_hit = Hit::deserialize(direct_d0, direct_d1);
    let indirect_hit = if direct_hit.is_none() {
        Hit::none()
    } else {
        traced
    };
    indirect_hit.serialize()
}

} // verus!
