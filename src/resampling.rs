//! The temporal and spatial resampling steps of one pixel, shared by direct
//! and indirect illumination.
use vstd::prelude::*;

use crate::double_buffered::{DoubleBuffered, lemma_replaced_slots};
use crate::reservoir::{JACOBIAN_ONE, Reservoir, capped_sum, merged};

verus! {

/// Depths of the two frames may differ by at most a `DEPTH_TOLERANCE_DIV`th
/// of the current depth.
pub const DEPTH_TOLERANCE_DIV: u64 = 10;

/// Scale of a cosine between two normals: `NORMAL_DOT_ONE` stands for 1.
pub const NORMAL_DOT_ONE: i32 = 1024;

/// The smallest cosine between the current and the reprojected normal that
/// still counts as the same surface (about 0.9).
pub const NORMAL_DOT_MIN: i32 = 922;

/// Where a pixel lands in the previous frame, and what the two frames saw
/// there: depths, and the cosine between the normals scaled by
/// `NORMAL_DOT_ONE`.
#[derive(Clone, Copy, Debug, PartialEq, Eq, Structural)]
pub struct Reprojection {
    pub x: i64,
    pub y: i64,
    pub depth: u32,
    pub past_depth: u32,
    pub normal_dot: i32,
}

/// Whether the reprojected pixel shows the same surface: inside the
/// viewport, at a similar depth, with a similar normal.
pub open spec fn reprojection_valid_spec(r: Reprojection, width: u32, height: u32) -> bool {
    &&& 0 <= r.x < width
    &&& 0 <= r.y < height
    &&& (if r.depth >= r.past_depth {
        r.depth - r.past_depth
    } else {
        r.past_depth - r.depth
    }) * DEPTH_TOLERANCE_DIV <= r.depth
    &&& r.normal_dot >= NORMAL_DOT_MIN
}

pub fn is_reprojection_valid(r: &Reprojection, width: u32, height: u32) -> (b: bool)
    ensures
        b == reprojection_valid_spec(*r, width, height),
{
    if r.x < 0 || r.y < 0 || r.x >= width as i64 || r.y >= height as i64 {
        return false;
    }
    let diff: u64 = if r.depth >= r.past_depth {
        (r.depth - r.past_depth) as u64
    } else {
        (r.past_depth - r.depth) as u64
    };
    diff * DEPTH_TOLERANCE_DIV <= r.depth as u64 && r.normal_dot >= NORMAL_DOT_MIN
}

/// The temporal step: with a valid history the fresh reservoir absorbs the
/// past one, otherwise it stands alone.
pub open spec fn temporal_merged(
    fresh: Reservoir,
    past: Reservoir,
    valid: bool,
    u: u64,
    max_m: u32,
) -> Reservoir {
    if valid {
        merged(fresh, past, u, max_m)
    } else {
        fresh
    }
}

/// Merges the history `past` into `fresh` when `valid` holds, else keeps
/// `fresh` unchanged.
pub fn temporal_merge(fresh: &Reservoir, past: &Reservoir, valid: bool, u: u64, max_m: u32) -> (r:
    Reservoir)
    requires
        valid ==> fresh.w_sum + past.w_sum <= u64::MAX,
    ensures
        r == temporal_merged(*fresh, *past, valid, u, max_m),
{
    let mut r = *fresh;
    if valid {
        r.merge(past, u, max_m);
    }
    r
}

/// The temporal step of the pixel whose reprojection is `reprojection`:
/// the past reservoir at the reprojected pixel of the `width` x `height`
/// viewport is merged in when the reprojection is valid and the weights
/// fit, and ignored otherwise (disocclusion, off-screen, first frame).
pub fn temporal_resampling(
    fresh: &Reservoir,
    past_reservoirs: &Vec<Reservoir>,
    width: u32,
    height: u32,
    reprojection: &Reprojection,
    u: u64,
    max_m: u32,
) -> (r: Reservoir)
    requires
        past_reservoirs@.len() == width * height,
    ensures
        ({
            let valid = reprojection_valid_spec(*reprojection, width, height);
            let idx = reprojection.y * width + reprojection.x;
            if valid && fresh.w_sum + past_reservoirs@[idx].w_sum <= u64::MAX {
                r == merged(*fresh, past_reservoirs@[idx], u, max_m)
            } else {
                r == *fresh
            }
        }),
{
    if !is_reprojection_valid(reprojection, width, height) {
        return *fresh;
    }
    let n = past_reservoirs.len();
    let x = reprojection.x as usize;
    let y = reprojection.y as usize;
    proof {
        assert(y * width + x < width * height) by (nonlinear_arith)
            requires
                y < height,
                x < width,
        ;
        assert(y * width <= y * width + x);
    }
    let idx = y * width as usize + x;
    let past = &past_reservoirs[idx];
    if fresh.w_sum > u64::MAX - past.w_sum {
        return *fresh;
    }
    temporal_merge(fresh, past, true, u, max_m)
}

/// One step of a pixel's history: its fresh candidate reservoir, whether
/// its reprojection was valid, the index of the past pixel it reprojects
/// to, and the random value of the merge.
pub struct TemporalStep {
    pub fresh: Reservoir,
    pub valid: bool,
    pub source: u64,
    pub u: u64,
}

/// The reservoir after running the temporal step over `steps`, starting
/// from the history `start`.
pub open spec fn temporal_history(start: Reservoir, steps: Seq<TemporalStep>, max_m: u32) -> Reservoir
    decreases steps.len(),
{
    if steps.len() == 0 {
        start
    } else {
        let prev = temporal_history(start, steps.drop_last(), max_m);
        let s = steps.last();
        temporal_merged(s.fresh, prev, s.valid, s.u, max_m)
    }
}

/// However long the history, a temporal merge chain never lets `m` exceed
/// the configured maximum, provided each fresh candidate stays within it.
pub proof fn lemma_temporal_cap(start: Reservoir, steps: Seq<TemporalStep>, max_m: u32)
    requires
        start.m <= max_m,
        forall|i: int| 0 <= i < steps.len() ==> (#[trigger] steps[i]).fresh.m <= max_m,
    ensures
        temporal_history(start, steps, max_m).m <= max_m,
    decreases steps.len(),
{
    if steps.len() > 0 {
        let init = steps.drop_last();
        assert forall|i: int| 0 <= i < init.len() implies (#[trigger] init[i]).fresh.m <= max_m by {
            assert(init[i] == steps[i]);
        }
        lemma_temporal_cap(start, init, max_m);
        assert(steps.last() == steps[steps.len() - 1]);
    }
}

/// Every reservoir of `s` has streamed at most `max_m` candidates.
pub open spec fn all_capped(s: Seq<Reservoir>, max_m: u32) -> bool {
    forall|i: int| 0 <= i < s.len() ==> (#[trigger] s[i]).m <= max_m
}

/// The temporal step over a whole reservoir buffer: pixel `i` merges the
/// past reservoir at `steps[i].source` into its fresh one when its
/// reprojection is valid and lands inside the buffer.
pub open spec fn temporal_frame(past: Seq<Reservoir>, steps: Seq<TemporalStep>, max_m: u32) -> Seq<
    Reservoir,
> {
    Seq::new(
        steps.len(),
        |i: int|
            if steps[i].source < past.len() {
                temporal_merged(
                    steps[i].fresh,
                    past[steps[i].source as int],
                    steps[i].valid,
                    steps[i].u,
                    max_m,
                )
            } else {
                steps[i].fresh
            },
    )
}

/// A double-buffered reservoir buffer after the frames `frames`: frame `k`
/// runs with the alternation flag `k % 2 == 1`, reads the past copy and
/// writes the temporal step's result into the current one.
pub open spec fn buffer_history(
    d: DoubleBuffered<Seq<Reservoir>>,
    frames: Seq<Seq<TemporalStep>>,
    max_m: u32,
) -> DoubleBuffered<Seq<Reservoir>>
    decreases frames.len(),
{
    if frames.len() == 0 {
        d
    } else {
        let prev = buffer_history(d, frames.drop_last(), max_m);
        let alternate = (frames.len() - 1) % 2 == 1;
        prev.replaced(
            alternate,
            temporal_frame(prev.past_slot(alternate), frames.last(), max_m),
        )
    }
}

/// Each reservoir that one frame of temporal merges writes has streamed at
/// most `max_m` candidates, whatever the history it read.
pub proof fn lemma_temporal_frame_capped(past: Seq<Reservoir>, steps: Seq<TemporalStep>, max_m: u32)
    requires
        forall|i: int| 0 <= i < steps.len() ==> (#[trigger] steps[i]).fresh.m <= max_m,
    ensures
        all_capped(temporal_frame(past, steps, max_m), max_m),
{
    let next = temporal_frame(past, steps, max_m);
    assert forall|i: int| 0 <= i < next.len() implies (#[trigger] next[i]).m <= max_m by {
        assert(steps[i].fresh.m <= max_m);
    }
}

/// After one or more frames of temporal merges, every reservoir that the
/// next frame reads through the past view has streamed at most `max_m`
/// candidates, whatever the buffers held at the start, provided each fresh
/// candidate stays within the cap. When both copies also started within
/// the cap, this holds of both past copies after any number of frames.
pub proof fn lemma_history_stays_capped(
    d: DoubleBuffered<Seq<Reservoir>>,
    frames: Seq<Seq<TemporalStep>>,
    max_m: u32,
)
    requires
        forall|k: int, i: int|
            0 <= k < frames.len() && 0 <= i < frames[k].len() ==> (#[trigger] frames[k][i]).fresh.m
                <= max_m,
    ensures
        frames.len() > 0 ==> all_capped(
            buffer_history(d, frames, max_m).past_slot(frames.len() % 2 == 1),
            max_m,
        ),
        all_capped(d.curr_slot(false), max_m) && all_capped(d.curr_slot(true), max_m) ==> {
            &&& all_capped(buffer_history(d, frames, max_m).past_slot(false), max_m)
            &&& all_capped(buffer_history(d, frames, max_m).past_slot(true), max_m)
        },
    decreases frames.len(),
{
    if frames.len() > 0 {
        let init = frames.drop_last();
        assert forall|k: int, i: int|
            0 <= k < init.len() && 0 <= i < init[k].len() implies (#[trigger] init[k][i]).fresh.m
                <= max_m by {
            assert(init[k] == frames[k]);
        }
        lemma_history_stays_capped(d, init, max_m);
        let prev = buffer_history(d, init, max_m);
        let alternate = (frames.len() - 1) % 2 == 1;
        let steps = frames.last();
        assert forall|i: int| 0 <= i < steps.len() implies (#[trigger] steps[i]).fresh.m <= max_m by {
            assert(steps[i] == frames[frames.len() - 1][i]);
        }
        let next = temporal_frame(prev.past_slot(alternate), steps, max_m);
        lemma_temporal_frame_capped(prev.past_slot(alternate), steps, max_m);
        lemma_replaced_slots(prev, alternate, next);
        let h = prev.replaced(alternate, next);
        assert(h.past_slot(!alternate) == h.curr_slot(alternate));
        assert((frames.len() % 2 == 1) == !alternate);
    }
}

/// A pixel whose reprojection fails the similarity test inherits nothing
/// of the history: what comes out is the fresh candidate, with its own `m`.
pub proof fn lemma_disocclusion_keeps_fresh(
    fresh: Reservoir,
    past: Reservoir,
    reprojection: Reprojection,
    width: u32,
    height: u32,
    u: u64,
    max_m: u32,
)
    requires
        !reprojection_valid_spec(reprojection, width, height),
    ensures
        temporal_merged(fresh, past, reprojection_valid_spec(reprojection, width, height), u, max_m)
            == fresh,
        temporal_merged(
            fresh,
            past,
            reprojection_valid_spec(reprojection, width, height),
            u,
            max_m,
        ).m == fresh.m,
{
}

/// A neighbour's reservoir offered to the current pixel: its target
/// function re-evaluated at the current pixel's shading point, the Jacobian
/// of the change of pixel (scaled by `JACOBIAN_ONE`), whether the visibility
/// ray found the sample unoccluded, and the random value of its merge.
#[derive(Clone, Copy, Debug, PartialEq, Eq, Structural)]
pub struct SpatialCandidate {
    pub reservoir: Reservoir,
    pub target_pdf: u32,
    pub jacobian: u32,
    pub visible: bool,
    pub u: u64,
}

/// The weight a neighbour's sample carries in the current pixel's domain:
/// re-evaluated target times contribution weight times `m`, corrected by
/// the Jacobian.
pub open spec fn transplanted_weight(c: SpatialCandidate) -> int {
    (c.target_pdf * c.jacobian * c.reservoir.m * c.reservoir.w) / (JACOBIAN_ONE as int)
}

/// Whether the neighbour `c` is merged into `acc`: it is visible, and its
/// weight fits beside what `acc` already holds.
pub open spec fn accepts(acc: Reservoir, c: SpatialCandidate) -> bool {
    c.visible && acc.w_sum + transplanted_weight(c) <= u64::MAX
}

/// The neighbour's reservoir reweighted for the current pixel.
pub open spec fn transplanted(c: SpatialCandidate) -> Reservoir {
    Reservoir {
        sample: c.reservoir.sample,
        w_sum: transplanted_weight(c) as u64,
        m: c.reservoir.m,
        w: c.reservoir.w,
    }
}

/// The pixel's reservoir after the neighbours `cands`, in order.
pub open spec fn spatial_merged(own: Reservoir, cands: Seq<SpatialCandidate>, max_m: u32) -> Reservoir
    decreases cands.len(),
{
    if cands.len() == 0 {
        own
    } else {
        let acc = spatial_merged(own, cands.drop_last(), max_m);
        let c = cands.last();
        if accepts(acc, c) {
            merged(acc, transplanted(c), c.u, max_m)
        } else {
            acc
        }
    }
}

/// The transplanted weight of `c`, or `None` when it does not fit a `u64`.
fn transplant_weight(c: &SpatialCandidate) -> (r: Option<u64>)
    ensures
        transplanted_weight(*c) <= u64::MAX ==> r == Some(transplanted_weight(*c) as u64),
        transplanted_weight(*c) > u64::MAX ==> r is None,
{
    let pdf = c.target_pdf as u128;
    let jac = c.jacobian as u128;
    let m = c.reservoir.m as u128;
    proof {
        assert(pdf * jac <= u32::MAX * u32::MAX) by (nonlinear_arith)
            requires
                pdf <= u32::MAX,
                jac <= u32::MAX,
        ;
        assert(pdf * jac * m <= u32::MAX * u32::MAX * u32::MAX) by (nonlinear_arith)
            requires
                pdf * jac <= u32::MAX * u32::MAX,
                m <= u32::MAX,
        ;
    }
    let a = pdf * jac * m;
    match a.checked_mul(c.reservoir.w as u128) {
        None => {
            proof {
                let p = a * c.reservoir.w;
                assert(p > u128::MAX);
                assert(p / 65536 > u64::MAX);
            }
            None
        },
        Some(p) => {
            let w = p / (JACOBIAN_ONE as u128);
            if w > u64::MAX as u128 {
                None
            } else {
                Some(w as u64)
            }
        },
    }
}

/// The spatial step: each visible neighbour whose weight fits is merged, in
/// order, into the pixel's own reservoir, with `m` capped at `max_m`;
/// occluded neighbours are discarded.
pub fn spatial_merge(own: &Reservoir, candidates: &Vec<SpatialCandidate>, max_m: u32) -> (r:
    Reservoir)
    ensures
        r == spatial_merged(*own, candidates@, max_m),
{
    let mut acc = *own;
    let mut i: usize = 0;
    while i < candidates.len()
        invariant
            i <= candidates@.len(),
            acc == spatial_merged(*own, candidates@.take(i as int), max_m),
        decreases candidates@.len() - i,
    {
        let c = &candidates[i];
        assert(candidates@.take(i + 1).drop_last() == candidates@.take(i as int));
        assert(candidates@.take(i + 1).last() == *c);
        if c.visible {
            match transplant_weight(c) {
                Some(weight) => {
                    if acc.w_sum <= u64::MAX - weight {
                        let incoming = Reservoir {
                            sample: c.reservoir.sample,
                            w_sum: weight,
                            m: c.reservoir.m,
                            w: c.reservoir.w,
                        };
                        acc.merge(&incoming, c.u, max_m);
                    }
                },
                None => {},
            }
        }
        i = i + 1;
    }
    assert(candidates@.take(candidates@.len() as int) == candidates@);
    acc
}

} // verus!
