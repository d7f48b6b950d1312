//! The per-frame pass sequence of one camera: which passes run, in which
//! order, over how many workgroups, with which parameters.
use vstd::prelude::*;

use crate::buffers::BufferFlushOutcome;
use crate::double_buffered::DoubleBuffered;

verus! {

/// Side of the square workgroup every pass runs with.
pub const WARP_SIZE: u32 = 8;

/// A two-dimensional extent in pixels or workgroups.
#[derive(Clone, Copy, Debug, PartialEq, Eq, Structural)]
pub struct Extent {
    pub x: u32,
    pub y: u32,
}

/// What each pass is handed besides its bindings.
#[derive(Clone, Copy, Debug, PartialEq, Eq, Structural)]
pub struct PassParams {
    pub seed: u32,
    pub frame: u32,
}

/// The passes of a frame.
#[derive(Clone, Copy, Debug, PartialEq, Eq, Structural)]
pub enum PassKind {
    DirectTracing,
    DirectInitialShading,
    DiSampling,
    DiTemporalResampling,
    DiSpatialResamplingPick,
    DiSpatialResamplingSample,
    DiSpatialResamplingTrace,
    DiResolving,
    GiSamplingA,
    GiSamplingB,
    GiTemporalResampling,
    GiSpatialResamplingPick,
    GiSpatialResamplingSample,
    GiSpatialResamplingTrace,
    GiResolving,
}

/// The order in which a frame runs its passes.
pub open spec fn frame_passes() -> Seq<PassKind> {
    seq![
        PassKind::DirectTracing,
        PassKind::DirectInitialShading,
        PassKind::DiSampling,
        PassKind::DiTemporalResampling,
        PassKind::DiSpatialResamplingPick,
        PassKind::DiSpatialResamplingSample,
        PassKind::DiSpatialResamplingTrace,
        PassKind::DiResolving,
        PassKind::GiSamplingA,
        PassKind::GiSamplingB,
        PassKind::GiTemporalResampling,
        PassKind::GiSpatialResamplingPick,
        PassKind::GiSpatialResamplingSample,
        PassKind::GiSpatialResamplingTrace,
        PassKind::GiResolving,
    ]
}

/// By how much a pass divides each side of the viewport: indirect sampling
/// and reuse run at a quarter of the pixels, everything else at full
/// resolution.
pub open spec fn downsample_of(kind: PassKind) -> u32 {
    match kind {
        PassKind::GiSamplingA | PassKind::GiSamplingB | PassKind::GiTemporalResampling
        | PassKind::GiSpatialResamplingPick | PassKind::GiSpatialResamplingSample
        | PassKind::GiSpatialResamplingTrace => 2,
        _ => 1,
    }
}

/// The workgroup grid that covers `viewport` at `downsample`.
pub open spec fn workgroups_spec(viewport: Extent, downsample: u32) -> Extent {
    Extent {
        x: (viewport.x / WARP_SIZE / downsample) as u32,
        y: (viewport.y / WARP_SIZE / downsample) as u32,
    }
}

/// One pass to run: which, over how many workgroups, with what parameters.
#[derive(Clone, Copy, Debug, PartialEq, Eq, Structural)]
pub struct Dispatch {
    pub kind: PassKind,
    pub size: Extent,
    pub params: PassParams,
}

pub open spec fn dispatch_spec(kind: PassKind, viewport: Extent, params: PassParams) -> Dispatch {
    Dispatch { kind, size: workgroups_spec(viewport, downsample_of(kind)), params }
}

impl PassKind {
    pub fn downsample(&self) -> (r: u32)
        ensures
            r == downsample_of(*self),
    {
        match self {
            PassKind::GiSamplingA | PassKind::GiSamplingB | PassKind::GiTemporalResampling
            | PassKind::GiSpatialResamplingPick | PassKind::GiSpatialResamplingSample
            | PassKind::GiSpatialResamplingTrace => 2,
            _ => 1,
        }
    }
}

/// The workgroup grid that covers `viewport` at `downsample`.
pub fn workgroups(viewport: Extent, downsample: u32) -> (r: Extent)
    requires
        downsample > 0,
    ensures
        r == workgroups_spec(viewport, downsample),
{
    Extent { x: viewport.x / WARP_SIZE / downsample, y: viewport.y / WARP_SIZE / downsample }
}

/// The passes of a frame, in order.
pub fn frame_pass_order() -> (r: Vec<PassKind>)
    ensures
        r@ == frame_passes(),
{
    let mut r: Vec<PassKind> = Vec::new();
    r.push(PassKind::DirectTracing);
    r.push(PassKind::DirectInitialShading);
    r.push(PassKind::DiSampling);
    r.push(PassKind::DiTemporalResampling);
    r.push(PassKind::DiSpatialResamplingPick);
    r.push(PassKind::DiSpatialResamplingSample);
    r.push(PassKind::DiSpatialResamplingTrace);
    r.push(PassKind::DiResolving);
    r.push(PassKind::GiSamplingA);
    r.push(PassKind::GiSamplingB);
    r.push(PassKind::GiTemporalResampling);
    r.push(PassKind::GiSpatialResamplingPick);
    r.push(PassKind::GiSpatialResamplingSample);
    r.push(PassKind::GiSpatialResamplingTrace);
    r.push(PassKind::GiResolving);
    assert(r@ =~= frame_passes());
    r
}

#[verifier::external_type_specification]
#[verifier::external_body]
pub struct ExRandError(rand::Error);

/// Relies on rand's `OsRng::try_fill_bytes`: four bytes from the operating
/// system's random source, or its error when that source fails. Nothing is
/// promised of the bytes.
#[verifier::external_body]
fn os_random_bytes() -> (r: Result<[u8; 4], rand::Error>) {
    let mut bytes = [0u8; 4];
    match rand::RngCore::try_fill_bytes(&mut rand::rngs::OsRng, &mut bytes) {
        Ok(()) => Ok(bytes),
        Err(e) => Err(e),
    }
}

/// A freshly drawn seed, or `None` when no random bytes could be had.
fn random_seed() -> (r: Option<u32>) {
    match os_random_bytes() {
        Ok(b) => Some(
            b[0] as u32 + b[1] as u32 * 0x100 + b[2] as u32 * 0x1_0000 + b[3] as u32 * 0x100_0000,
        ),
        Err(_) => None,
    }
}

/// A camera's frame state: its viewport and how many frames it completed.
#[derive(Clone, Copy, Debug, PartialEq, Eq, Structural)]
pub struct CameraController {
    pub viewport: Extent,
    pub frame: u32,
}

/// The alternation flag of frame `frame`: which copy of every
/// double-buffered resource is current.
pub open spec fn alternate_of(frame: u32) -> bool {
    frame % 2 == 1
}

impl CameraController {
    pub fn new(viewport: Extent) -> (r: CameraController)
        ensures
            r.viewport == viewport,
            r.frame == 0,
    {
        CameraController { viewport, frame: 0 }
    }

    /// The alternation flag of the frame being rendered.
    pub fn alternate(&self) -> (r: bool)
        ensures
            r == alternate_of(self.frame),
    {
        self.frame % 2 == 1
    }

    /// Changes the viewport. The outcome reports whether it changed, in
    /// which case the camera's buffers are reallocated and every binding to
    /// them has to be rebuilt.
    pub fn set_viewport(&mut self, viewport: Extent) -> (r: BufferFlushOutcome)
        ensures
            r.reallocated == (viewport != old(self).viewport),
            final(self).viewport == viewport,
            final(self).frame == old(self).frame,
    {
        let reallocated = viewport.x != self.viewport.x || viewport.y != self.viewport.y;
        self.viewport = viewport;
        BufferFlushOutcome { reallocated }
    }

    /// Runs one frame with the random seed `seed`: every pass of
    /// `frame_passes`, in order, sized for the viewport, all with this
    /// seed and the current frame index; then moves to the next frame,
    /// which flips the alternation flag.
    pub fn run(&mut self, seed: u32) -> (r: Vec<Dispatch>)
        requires
            old(self).frame < u32::MAX,
        ensures
            r@.len() == frame_passes().len(),
            forall|i: int|
                0 <= i < r@.len() ==> #[trigger] r@[i] == dispatch_spec(
                    frame_passes()[i],
                    old(self).viewport,
                    PassParams { seed, frame: old(self).frame },
                ),
            final(self).viewport == old(self).viewport,
            final(self).frame == old(self).frame + 1,
    {
        let kinds = frame_pass_order();
        let params = PassParams { seed, frame: self.frame };
        let mut out: Vec<Dispatch> = Vec::new();
        let mut i: usize = 0;
        while i < kinds.len()
            invariant
                kinds@ == frame_passes(),
                i <= kinds@.len(),
                out@.len() == i,
                forall|j: int|
                    0 <= j < i ==> #[trigger] out@[j] == dispatch_spec(
                        kinds@[j],
                        self.viewport,
                        params,
                    ),
            decreases kinds@.len() - i,
        {
            let kind = kinds[i];
            let size = workgroups(self.viewport, kind.downsample());
            out.push(Dispatch { kind, size, params });
            i = i + 1;
        }
        self.frame = self.frame + 1;
        out
    }

    /// Runs one frame with a freshly drawn seed.
    /// When no seed can be drawn the frame is dropped: nothing runs and the
    /// camera stays where it was.
    pub fn run_with_random_seed(&mut self) -> (r: Option<Vec<Dispatch>>)
        requires
            old(self).frame < u32::MAX,
        ensures
            r is None ==> *final(self) == *old(self),
            r matches Some(d) ==> {
                &&& d@.len() == frame_passes().len()
                &&& forall|i: int|
                    0 <= i < d@.len() ==> #[trigger] d@[i] == dispatch_spec(
                        frame_passes()[i],
                        old(self).viewport,
                        PassParams { seed: d@[0].params.seed, frame: old(self).frame },
                    )
                &&& final(self).viewport == old(self).viewport
                &&& final(self).frame == old(self).frame + 1
            },
    {
        match random_seed() {
            Some(seed) => Some(self.run(seed)),
            None => None,
        }
    }
}

/// Moving to the next frame exchanges the views of every double-buffered
/// resource: what the finished frame wrote is what the next one reads as
/// its past, and the copy it read is the one the next frame overwrites.
pub proof fn lemma_next_frame_swaps_buffers<T>(d: DoubleBuffered<T>, frame: u32)
    requires
        frame < u32::MAX,
    ensures
        d.past_slot(alternate_of((frame + 1) as u32)) == d.curr_slot(alternate_of(frame)),
        d.curr_slot(alternate_of((frame + 1) as u32)) == d.past_slot(alternate_of(frame)),
{
}

/// By how much the direct initial shading pass divides each side of the
/// viewport: it runs at full resolution.
pub const DIRECT_INITIAL_SHADING_DOWNSAMPLE: u32 = 1;

/// By how much the voxel tracing pass divides each side of the viewport: its
/// pending-voxels texture has a quarter of the camera's pixels.
pub const VOXEL_TRACING_DOWNSAMPLE: u32 = 2;

/// The pass that shades the primary hits and draws the first direct-light
/// candidates.
#[derive(Clone, Copy, Debug)]
pub struct DirectInitialShadingPass;

impl DirectInitialShadingPass {
    pub fn new() -> (r: DirectInitialShadingPass) {
        DirectInitialShadingPass
    }

    /// The full-resolution dispatch for the camera's current frame, with the
    /// seed `seed`.
    pub fn dispatch(&self, camera: &CameraController, seed: u32) -> (r: Dispatch)
        ensures
            r.kind == PassKind::DirectInitialShading,
            r.size == workgroups_spec(camera.viewport, DIRECT_INITIAL_SHADING_DOWNSAMPLE),
            r.params == (PassParams { seed, frame: camera.frame }),
    {
        let size = workgroups(camera.viewport, DIRECT_INITIAL_SHADING_DOWNSAMPLE);
        Dispatch {
            kind: PassKind::DirectInitialShading,
            size,
            params: PassParams { seed, frame: camera.frame },
        }
    }

    /// The dispatch for the camera's current frame, with a freshly drawn
    /// seed: `dispatch` for whatever seed was drawn, or `None` when no seed
    /// could be drawn (the frame is then dropped).
    pub fn run(&self, camera: &CameraController) -> (r: Option<Dispatch>)
        ensures
            r matches Some(d) ==> d == self.dispatch_spec(camera, d.params.seed),
    {
        match random_seed() {
            Some(seed) => Some(self.dispatch(camera, seed)),
            None => None,
        }
    }

    /// What `dispatch` returns for `seed`.
    pub open spec fn dispatch_spec(&self, camera: &CameraController, seed: u32) -> Dispatch {
        Dispatch {
            kind: PassKind::DirectInitialShading,
            size: workgroups_spec(camera.viewport, DIRECT_INITIAL_SHADING_DOWNSAMPLE),
            params: PassParams { seed, frame: camera.frame },
        }
    }
}

/// The voxel tracing pass.
#[derive(Clone, Copy, Debug)]
pub struct VoxelTracingPass;

impl VoxelTracingPass {
    pub fn new() -> (r: VoxelTracingPass) {
        VoxelTracingPass
    }

    /// Its workgroup grid and parameters for the camera's current frame.
    pub fn run(&self, camera: &CameraController, seed: u32) -> (r: (Extent, PassParams))
        ensures
            r.0 == workgroups_spec(camera.viewport, VOXEL_TRACING_DOWNSAMPLE),
            r.1 == (PassParams { seed, frame: camera.frame }),
    {
        (workgroups(camera.viewport, VOXEL_TRACING_DOWNSAMPLE), PassParams { seed, frame: camera.frame })
    }
}

} // verus!
