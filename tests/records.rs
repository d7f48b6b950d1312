use strolle::bufferable::Bufferable;
use strolle::gpu::{Vec3Bits, Vec4Bits};
use strolle::hit::{indirect_initial_tracing, needs_indirect_ray, Hit, DISTANCE_NONE, MATERIAL_NONE};
use strolle::light::{GpuLight, Light, NormalBits, TYPE_POINT, TYPE_SPOT};

fn v3(x: f32, y: f32, z: f32) -> Vec3Bits {
    Vec3Bits { x: x.to_bits(), y: y.to_bits(), z: z.to_bits() }
}

fn sample_hit() -> Hit {
    Hit {
        point: v3(1.0, 2.0, -3.5),
        normal: v3(0.0, 1.0, 0.0),
        material_id: 7,
        distance: 4.25f32.to_bits(),
    }
}

#[test]
fn u32_data_is_its_four_bytes() {
    let v: u32 = 0x0102_0304;
    assert_eq!(v.data(), &v.to_ne_bytes()[..]);
}

#[test]
fn u64_data_is_its_eight_bytes() {
    let v: u64 = 0x0102_0304_0506_0708;
    assert_eq!(v.data(), &v.to_ne_bytes()[..]);
}

#[test]
fn vec_data_concatenates_items() {
    let v: Vec<u32> = vec![1, 0xdead_beef];
    let mut expected = Vec::new();
    expected.extend_from_slice(&1u32.to_ne_bytes());
    expected.extend_from_slice(&0xdead_beefu32.to_ne_bytes());
    assert_eq!(v.data(), &expected[..]);
    assert_eq!(Vec::<u32>::new().data().len(), 0);
}

#[test]
fn slice_data_concatenates_items() {
    let items: [u32; 3] = [5, 6, 0x0a0b_0c0d];
    let slice: &[u32] = &items[1..];
    let mut expected = Vec::new();
    expected.extend_from_slice(&6u32.to_ne_bytes());
    expected.extend_from_slice(&0x0a0b_0c0du32.to_ne_bytes());
    assert_eq!(slice.data(), &expected[..]);
}

#[test]
fn point_light_record() {
    let l = Light::Point { position: v3(1.0, 2.0, 3.0), radius: 0.5f32.to_bits(), color: v3(1.0, 0.5, 0.25), range: 10.0f32.to_bits() };
    let r = l.serialize();
    assert_eq!(r.d0, Vec4Bits { x: 1.0f32.to_bits(), y: 2.0f32.to_bits(), z: 3.0f32.to_bits(), w: 0.5f32.to_bits() });
    assert_eq!(r.d1, Vec4Bits { x: 1.0f32.to_bits(), y: 0.5f32.to_bits(), z: 0.25f32.to_bits(), w: 10.0f32.to_bits() });
    assert_eq!(r.d2, Vec4Bits { x: TYPE_POINT, y: 0, z: 0, w: 0 });
    assert_eq!(r.d3, Vec4Bits::default());
    assert!(!r.is_spot());
}

#[test]
fn spot_light_record() {
    let l = Light::Spot {
        position: v3(0.0, 5.0, 0.0),
        radius: 0.1f32.to_bits(),
        color: v3(2.0, 2.0, 2.0),
        range: 20.0f32.to_bits(),
        direction: NormalBits { x: 0.25f32.to_bits(), y: 0.75f32.to_bits() },
        angle: 0.5f32.to_bits(),
    };
    let r = l.serialize();
    assert_eq!(r.d2, Vec4Bits { x: TYPE_SPOT, y: 0.25f32.to_bits(), z: 0.75f32.to_bits(), w: 0.5f32.to_bits() });
    assert!(r.is_spot());
}

#[test]
fn new_light_previous_rows_equal_current() {
    let l = Light::Point { position: v3(1.0, 1.0, 1.0), radius: 0, color: v3(1.0, 1.0, 1.0), range: 0 };
    let r = l.serialize();
    assert_eq!((r.prev_d0, r.prev_d1, r.prev_d2), (r.d0, r.d1, r.d2));
}

#[test]
fn light_update_moves_rows_to_previous() {
    let a = Light::Point { position: v3(1.0, 1.0, 1.0), radius: 0, color: v3(1.0, 1.0, 1.0), range: 0 };
    let b = Light::Point { position: v3(2.0, 1.0, 1.0), radius: 0, color: v3(1.0, 1.0, 1.0), range: 0 };
    let mut r: GpuLight = a.serialize();
    let before = r;
    r.update(&b);
    assert_eq!(r.prev_d0, before.d0);
    assert_eq!(r.d0.x, 2.0f32.to_bits());
    assert_ne!(r.d0, r.prev_d0);
}

#[test]
fn hit_round_trip() {
    let h = sample_hit();
    let (d0, d1) = h.serialize();
    assert_eq!(d0.w, 7);
    assert_eq!(d1.w, 4.25f32.to_bits());
    assert_eq!(Hit::deserialize(d0, d1), h);
}

#[test]
fn none_hit_round_trip() {
    let n = Hit::none();
    assert!(n.is_none());
    assert_eq!(n.material_id, MATERIAL_NONE);
    assert_eq!(n.distance, DISTANCE_NONE);
    let (d0, d1) = n.serialize();
    assert_eq!(Hit::deserialize(d0, d1), n);
}

#[test]
fn none_material_reads_back_as_miss() {
    let d0 = Vec4Bits { x: 5, y: 6, z: 7, w: MATERIAL_NONE };
    let d1 = Vec4Bits { x: 1, y: 2, z: 3, w: 4 };
    assert_eq!(Hit::deserialize(d0, d1), Hit::none());
}

#[test]
fn indirect_tracing_skips_missed_pixels() {
    let (n0, n1) = Hit::none().serialize();
    assert!(!needs_indirect_ray(n0, n1));
    let out = indirect_initial_tracing(n0, n1, sample_hit());
    assert_eq!(out, Hit::none().serialize());
}

#[test]
fn indirect_tracing_keeps_secondary_hit() {
    let (d0, d1) = sample_hit().serialize();
    assert!(needs_indirect_ray(d0, d1));
    let traced = Hit { material_id: 3, ..sample_hit() };
    let out = indirect_initial_tracing(d0, d1, traced);
    assert_eq!(out, traced.serialize());
}
