//! Bookkeeping of the compute-then-display pipeline: what is set up once,
//! what follows the size of the target, and what one frame consists of.
//!
//! Nothing here touches a device. [`GpuState`] holds the facts that decide
//! what is created, rebuilt and dispatched; whoever owns the device carries
//! the decisions out.

use crate::params::RuntimeParams;
use crate::records::{
    FrameUniforms, RaymarchParams, FRAME_UNIFORMS_BYTES, RAYMARCH_PARAMS_BYTES,
};
use crate::scalar::{single_bits, Scalar, ONE_BITS, ZERO_BITS};
use crate::world::{CELL_RECORD_BYTES, PHASE_RECORD_BYTES};
use vstd::prelude::*;

verus! {

/// Edge, in texels, of the square tile that one workgroup shades.
pub const WORKGROUP_EDGE: u32 = 8;

/// Vertices of the one triangle that covers the whole target.
pub const FULLSCREEN_VERTICES: u32 = 3;

/// Smallest edge that a canvas report is believed at; below it the
/// enclosing window is asked instead.
pub const MIN_CANVAS_EDGE: u32 = 100;

/// Encoding of `0.1`, the near plane before the first frame.
pub const INITIAL_NEAR_BITS: u32 = 0x3DCC_CCCD;

/// Encoding of `100.0`, the far plane before the first frame.
pub const INITIAL_FAR_BITS: u32 = 0x42C8_0000;

/// A texture format of the backend.
#[verifier::external_type_specification]
#[verifier::external_body]
pub struct ExTextureFormat(wgpu::TextureFormat);

/// The backend's reasons for not handing out the next image of a surface.
#[verifier::external_type_specification]
#[verifier::external_body]
pub struct ExSurfaceError(wgpu::SurfaceError);

/// Width and height of a surface or image, in texels.
#[derive(Clone, Copy, Debug, PartialEq, Eq, Structural)]
pub struct SurfaceSize {
    pub width: u32,
    pub height: u32,
}

/// Why no image of the surface could be had for a frame.
#[derive(Clone, Copy, Debug, PartialEq, Eq, Structural)]
pub enum SurfaceFault {
    /// Waiting for the image took too long.
    Timeout,
    /// The surface changed under its configuration.
    Outdated,
    /// The surface was lost and wants configuring again.
    Lost,
    /// No memory is left for another image.
    OutOfMemory,
    /// Any other failure.
    Other,
}

/// What follows a frame.
#[derive(Clone, Copy, Debug, PartialEq, Eq, Structural)]
pub enum FrameAction {
    /// The frame was presented; go on.
    Proceed,
    /// The frame is lost. Configure the surface again at this size, rebuild
    /// what follows the size, and go on with the next frame.
    Reconfigure(SurfaceSize),
    /// The frame is lost and so is the program: stop.
    Quit,
    /// The frame is lost; report it and go on with the next frame.
    Skip,
}

/// The shader stage that sees a binding.
#[derive(Clone, Copy, Debug, PartialEq, Eq, Structural)]
pub enum Stage {
    Compute,
    Fragment,
}

/// What is bound at a slot.
#[derive(Clone, Copy, Debug, PartialEq, Eq, Structural)]
pub enum BindingKind {
    /// A uniform buffer that holds at least this many bytes.
    Uniform(u64),
    /// A storage buffer, read only, whose elements have this many bytes.
    ReadOnlyStorage(u64),
    /// A two-dimensional image of half-precision RGBA that is only written.
    WriteOnlyImage,
    /// A two-dimensional image that is sampled with filtering.
    SampledImage,
    /// A filtering sampler.
    Sampler,
}

/// One entry of a bind group layout.
#[derive(Clone, Copy, Debug, PartialEq, Eq, Structural)]
pub struct BindingSlot {
    pub binding: u32,
    pub stage: Stage,
    pub kind: BindingKind,
}

/// The matrices and planes of the camera for one frame.
#[derive(Clone, Copy, Debug)]
pub struct CameraFrame {
    /// Projection times view, column by column.
    pub view_proj: [Scalar; 16],
    /// Inverse of `view_proj`.
    pub inv_view_proj: [Scalar; 16],
    /// Eye position in world space.
    pub position: [Scalar; 3],
    /// Near plane distance.
    pub near: Scalar,
    /// Far plane distance.
    pub far: Scalar,
}

/// Everything one frame writes and dispatches.
#[derive(Clone, Copy, Debug)]
pub struct FramePlan {
    /// New content of the whole frame uniform buffer.
    pub frame_uniforms: FrameUniforms,
    /// New content of the whole parameter buffer.
    pub raymarch_params: RaymarchParams,
    /// Workgroups of the compute pass along x, y and z.
    pub workgroups: [u32; 3],
    /// Vertices of the display pass's single draw.
    pub vertices: u32,
}

/// Number of tiles of eight texels needed to cover `extent` texels.
pub open spec fn tiles(extent: int) -> int {
    (extent + 7) / 8
}

/// Workgroups needed along one axis of an image `extent` texels long: as
/// few as cover it.
pub fn workgroup_count(extent: u32) -> (count: u32)
    ensures
        count == tiles(extent as int),
        8 * (count - 1) < extent <= 8 * count,
{
    let whole: u32 = extent / WORKGROUP_EDGE;
    if extent % WORKGROUP_EDGE == 0 {
        whole
    } else {
        whole + 1
    }
}

/// Index of the format to configure a surface with, given for each offered
/// format whether it is sRGB-encoded: the first that is, else the first.
pub open spec fn preferred(srgb: Seq<bool>) -> int {
    if exists|i: int| 0 <= i < srgb.len() && srgb[i] {
        choose|i: int| 0 <= i < srgb.len() && srgb[i] && forall|j: int| 0 <= j < i ==> !srgb[j]
    } else {
        0
    }
}

/// Index of the format to configure a surface with; `None` where no format
/// is offered.
pub fn preferred_index(srgb: &[bool]) -> (index: Option<usize>)
    ensures
        index is None <==> srgb@.len() == 0,
        index is Some ==> index->Some_0 == preferred(srgb@),
        index is Some ==> index->Some_0 < srgb@.len(),
        index is Some && srgb@[index->Some_0 as int] ==> forall|j: int|
            0 <= j < index->Some_0 ==> !srgb@[j],
        index is Some && !srgb@[index->Some_0 as int] ==> index->Some_0 == 0 && forall|j: int|
            0 <= j < srgb@.len() ==> !srgb@[j],
{
    if srgb.len() == 0 {
        return None;
    }
    let mut i: usize = 0;
    while i < srgb.len()
        invariant
            i <= srgb@.len(),
            forall|j: int| 0 <= j < i ==> !srgb@[j],
        decreases srgb@.len() - i,
    {
        if srgb[i] {
            proof {
                lemma_preferred_first(srgb@, i as int);
            }
            return Some(i);
        }
        i = i + 1;
    }
    Some(0)
}

/// The first sRGB-encoded format is the preferred one.
pub proof fn lemma_preferred_first(srgb: Seq<bool>, first: int)
    requires
        0 <= first < srgb.len(),
        srgb[first],
        forall|j: int| 0 <= j < first ==> !srgb[j],
    ensures
        preferred(srgb) == first,
{
    let chosen = preferred(srgb);
    assert(0 <= chosen < srgb.len() && srgb[chosen] && forall|j: int|
        0 <= j < chosen ==> !srgb[j]);
    if chosen < first {
        assert(!srgb[chosen]);
    } else if first < chosen {
        assert(!srgb[first]);
    }
}

/// Whether the backend counts a format as sRGB-encoded: what
/// `wgpu::TextureFormat::is_srgb` answers for it.
pub uninterp spec fn srgb_encoded(format: wgpu::TextureFormat) -> bool;

/// The library's name for a reason of the backend: `wgpu::SurfaceError`
/// variant for variant.
pub uninterp spec fn fault_named(error: wgpu::SurfaceError) -> SurfaceFault;

/// For each format offered, whether the backend counts it as sRGB-encoded.
pub open spec fn srgb_flags(formats: Seq<wgpu::TextureFormat>) -> Seq<bool> {
    Seq::new(formats.len(), |i: int| srgb_encoded(formats[i]))
}

/// Whether the backend counts `format` as sRGB-encoded.
///
/// Calls `wgpu::TextureFormat::is_srgb`, which compares the format with
/// what is left of it when an sRGB suffix is taken off. The answer depends
/// on the format alone and is given the name [`srgb_encoded`]; nothing else
/// is claimed of it.
#[verifier::external_body]
fn is_srgb(format: &wgpu::TextureFormat) -> (srgb: bool)
    ensures
        srgb == srgb_encoded(*format),
{
    format.is_srgb()
}

/// The library's name for the backend's reason.
///
/// Tells the variants of `wgpu::SurfaceError` apart, one for one. The
/// answer depends on the error alone and is given the name
/// [`fault_named`]; nothing else is claimed of it.
#[verifier::external_body]
fn fault_of(error: &wgpu::SurfaceError) -> (fault: SurfaceFault)
    ensures
        fault == fault_named(*error),
{
    match error {
        wgpu::SurfaceError::Timeout => SurfaceFault::Timeout,
        wgpu::SurfaceError::Outdated => SurfaceFault::Outdated,
        wgpu::SurfaceError::Lost => SurfaceFault::Lost,
        wgpu::SurfaceError::OutOfMemory => SurfaceFault::OutOfMemory,
        wgpu::SurfaceError::Other => SurfaceFault::Other,
    }
}

/// The format to configure a surface with, out of those it offers in the
/// backend's order: the first that the backend counts as sRGB-encoded, else
/// the first. `None` where nothing is offered.
pub fn choose_surface_format(formats: &[wgpu::TextureFormat]) -> (chosen: Option<
    wgpu::TextureFormat,
>)
    ensures
        chosen is None <==> formats@.len() == 0,
        chosen is Some ==> chosen->Some_0 == formats@[preferred(srgb_flags(formats@))],
        chosen is Some ==> 0 <= preferred(srgb_flags(formats@)) < formats@.len(),
{
    let mut srgb: Vec<bool> = Vec::new();
    let mut i: usize = 0;
    while i < formats.len()
        invariant
            i <= formats@.len(),
            srgb@.len() == i,
            forall|j: int| 0 <= j < i ==> srgb@[j] == srgb_encoded(formats@[j]),
        decreases formats@.len() - i,
    {
        srgb.push(is_srgb(&formats[i]));
        i = i + 1;
    }
    assert(srgb@ =~= srgb_flags(formats@));
    match preferred_index(srgb.as_slice()) {
        Some(index) => Some(formats[index]),
        None => None,
    }
}

/// `size` with every empty edge widened to one texel.
pub open spec fn at_least_one(size: SurfaceSize) -> SurfaceSize {
    SurfaceSize {
        width: if size.width == 0 {
            1
        } else {
            size.width
        },
        height: if size.height == 0 {
            1
        } else {
            size.height
        },
    }
}

/// The size to start with where the window's report may be a stub and the
/// enclosing window has been measured: the report with no edge empty, or,
/// where that has an edge under [`MIN_CANVAS_EDGE`], the measure with each
/// edge raised to that minimum.
pub open spec fn initial_size(reported: SurfaceSize, measured: SurfaceSize) -> SurfaceSize {
    let report = at_least_one(reported);
    if report.width < MIN_CANVAS_EDGE || report.height < MIN_CANVAS_EDGE {
        SurfaceSize {
            width: if measured.width < MIN_CANVAS_EDGE {
                MIN_CANVAS_EDGE
            } else {
                measured.width
            },
            height: if measured.height < MIN_CANVAS_EDGE {
                MIN_CANVAS_EDGE
            } else {
                measured.height
            },
        }
    } else {
        report
    }
}

/// The size that a resize request is taken to ask for where the request
/// may be a stub and the enclosing window has been measured: the request,
/// or, where that has an edge under [`MIN_CANVAS_EDGE`], the measure.
pub open spec fn believed_size(asked: SurfaceSize, measured: SurfaceSize) -> SurfaceSize {
    if asked.width < MIN_CANVAS_EDGE || asked.height < MIN_CANVAS_EDGE {
        measured
    } else {
        asked
    }
}

/// The size to start with on a platform whose window reports may be stubs.
pub fn settle_initial_size(reported: SurfaceSize, measured: SurfaceSize) -> (size: SurfaceSize)
    ensures
        size == initial_size(reported, measured),
        at_least_one(size) == size,
{
    let width: u32 = if reported.width == 0 {
        1
    } else {
        reported.width
    };
    let height: u32 = if reported.height == 0 {
        1
    } else {
        reported.height
    };
    if width < MIN_CANVAS_EDGE || height < MIN_CANVAS_EDGE {
        SurfaceSize {
            width: if measured.width < MIN_CANVAS_EDGE {
                MIN_CANVAS_EDGE
            } else {
                measured.width
            },
            height: if measured.height < MIN_CANVAS_EDGE {
                MIN_CANVAS_EDGE
            } else {
                measured.height
            },
        }
    } else {
        SurfaceSize { width, height }
    }
}

/// The size to hand to a resize on a platform whose requests may be stubs.
pub fn settle_resize(asked: SurfaceSize, measured: SurfaceSize) -> (size: SurfaceSize)
    ensures
        size == believed_size(asked, measured),
{
    if asked.width < MIN_CANVAS_EDGE || asked.height < MIN_CANVAS_EDGE {
        measured
    } else {
        asked
    }
}

/// The size a resize request settles on, or `None` where the request is to
/// be ignored: a size with an empty edge.
pub open spec fn resize_target(width: u32, height: u32) -> Option<SurfaceSize> {
    if width > 0 && height > 0 {
        Some(SurfaceSize { width, height })
    } else {
        None
    }
}

/// What follows a frame that ended with `fault`, on a surface of `size`.
pub open spec fn reaction(size: SurfaceSize, fault: Option<SurfaceFault>) -> FrameAction {
    match fault {
        None => FrameAction::Proceed,
        Some(SurfaceFault::Lost) => FrameAction::Reconfigure(size),
        Some(SurfaceFault::OutOfMemory) => FrameAction::Quit,
        Some(_) => FrameAction::Skip,
    }
}

/// The identity matrix, column by column.
pub open spec fn identity_matrix() -> Seq<Scalar> {
    Seq::new(
        16,
        |i: int|
            Scalar {
                bits: if i % 5 == 0 {
                    ONE_BITS
                } else {
                    ZERO_BITS
                },
            },
    )
}

/// Layout of the compute stage's first bind group: the two uniform records
/// and the two storage arrays of the world.
pub open spec fn compute_data_slots() -> Seq<BindingSlot> {
    seq![
        BindingSlot {
            binding: 0,
            stage: Stage::Compute,
            kind: BindingKind::Uniform(FRAME_UNIFORMS_BYTES),
        },
        BindingSlot {
            binding: 1,
            stage: Stage::Compute,
            kind: BindingKind::Uniform(RAYMARCH_PARAMS_BYTES),
        },
        BindingSlot {
            binding: 2,
            stage: Stage::Compute,
            kind: BindingKind::ReadOnlyStorage(PHASE_RECORD_BYTES),
        },
        BindingSlot {
            binding: 3,
            stage: Stage::Compute,
            kind: BindingKind::ReadOnlyStorage(CELL_RECORD_BYTES),
        },
    ]
}

/// Layout of the compute stage's second bind group: the image it writes.
pub open spec fn compute_image_slots() -> Seq<BindingSlot> {
    seq![BindingSlot { binding: 0, stage: Stage::Compute, kind: BindingKind::WriteOnlyImage }]
}

/// Layout of the display stage's bind group: the image it samples and the
/// sampler.
pub open spec fn display_slots() -> Seq<BindingSlot> {
    seq![
        BindingSlot { binding: 0, stage: Stage::Fragment, kind: BindingKind::SampledImage },
        BindingSlot { binding: 1, stage: Stage::Fragment, kind: BindingKind::Sampler },
    ]
}

/// Layout of the compute stage's first bind group.
pub fn compute_data_layout() -> (slots: Vec<BindingSlot>)
    ensures
        slots@ == compute_data_slots(),
{
    let mut slots: Vec<BindingSlot> = Vec::new();
    slots.push(
        BindingSlot {
            binding: 0,
            stage: Stage::Compute,
            kind: BindingKind::Uniform(FRAME_UNIFORMS_BYTES),
        },
    );
    slots.push(
        BindingSlot {
            binding: 1,
            stage: Stage::Compute,
            kind: BindingKind::Uniform(RAYMARCH_PARAMS_BYTES),
        },
    );
    slots.push(
        BindingSlot {
            binding: 2,
            stage: Stage::Compute,
            kind: BindingKind::ReadOnlyStorage(PHASE_RECORD_BYTES),
        },
    );
    slots.push(
        BindingSlot {
            binding: 3,
            stage: Stage::Compute,
            kind: BindingKind::ReadOnlyStorage(CELL_RECORD_BYTES),
        },
    );
    assert(slots@ =~= compute_data_slots());
    slots
}

/// Layout of the compute stage's second bind group.
pub fn compute_image_layout() -> (slots: Vec<BindingSlot>)
    ensures
        slots@ == compute_image_slots(),
{
    let mut slots: Vec<BindingSlot> = Vec::new();
    slots.push(BindingSlot { binding: 0, stage: Stage::Compute, kind: BindingKind::WriteOnlyImage });
    assert(slots@ =~= compute_image_slots());
    slots
}

/// Layout of the display stage's bind group.
pub fn display_layout() -> (slots: Vec<BindingSlot>)
    ensures
        slots@ == display_slots(),
{
    let mut slots: Vec<BindingSlot> = Vec::new();
    slots.push(BindingSlot { binding: 0, stage: Stage::Fragment, kind: BindingKind::SampledImage });
    slots.push(BindingSlot { binding: 1, stage: Stage::Fragment, kind: BindingKind::Sampler });
    assert(slots@ =~= display_slots());
    slots
}

/// Size and format of the surface that frames are presented on.
///
/// The intermediate image and the two bind groups that refer to it have the
/// size recorded here; they are rebuilt, all three together, whenever
/// [`GpuState::resize`] or [`GpuState::after_render`] says so.
#[derive(Clone, Copy, Debug)]
pub struct GpuState {
    size: SurfaceSize,
    format: wgpu::TextureFormat,
}

impl GpuState {
    /// Size of the surface and of the intermediate image.
    pub closed spec fn spec_size(self) -> SurfaceSize {
        self.size
    }

    /// Format the surface is configured with.
    pub closed spec fn spec_format(self) -> wgpu::TextureFormat {
        self.format
    }

    /// No edge of the surface is empty.
    pub open spec fn wf(self) -> bool {
        self.spec_size().width > 0 && self.spec_size().height > 0
    }

    /// The state after a resize request: the size the request settles on,
    /// or the state as it was where the request is ignored.
    pub closed spec fn resized(self, width: u32, height: u32) -> GpuState {
        match resize_target(width, height) {
            Some(size) => GpuState { size, format: self.format },
            None => self,
        }
    }

    /// Width and height of the surface as scalars.
    pub open spec fn resolution(self) -> [Scalar; 2] {
        [
            Scalar { bits: single_bits(self.spec_size().width as nat) as u32 },
            Scalar { bits: single_bits(self.spec_size().height as nat) as u32 },
        ]
    }

    /// The plan of a frame seen through `camera` at `time` with the tunables
    /// `params`: both records in full, as many workgroups of eight by eight
    /// texels as cover the image, one layer deep, and the three vertices of
    /// the covering triangle.
    pub open spec fn frame(self, camera: CameraFrame, time: Scalar, params: RuntimeParams) -> FramePlan {
        FramePlan {
            frame_uniforms: FrameUniforms {
                view_proj: camera.view_proj,
                inv_view_proj: camera.inv_view_proj,
                camera_position: camera.position,
                time,
                resolution: self.resolution(),
                near: camera.near,
                far: camera.far,
            },
            raymarch_params: params.record(),
            workgroups: [
                tiles(self.spec_size().width as int) as u32,
                tiles(self.spec_size().height as int) as u32,
                1u32,
            ],
            vertices: FULLSCREEN_VERTICES,
        }
    }

    /// The state to set a pipeline up with: the window's size with no edge
    /// empty, and of the formats that the surface offers the first that the
    /// backend counts as sRGB-encoded, else the first. `None` where the
    /// surface offers no format.
    pub fn new(reported: SurfaceSize, formats: &[wgpu::TextureFormat]) -> (state: Option<GpuState>)
        ensures
            state is None <==> formats@.len() == 0,
            state is Some ==> {
                let s = state->Some_0;
                &&& s.wf()
                &&& s.spec_size() == at_least_one(reported)
                &&& 0 <= preferred(srgb_flags(formats@)) < formats@.len()
                &&& s.spec_format() == formats@[preferred(srgb_flags(formats@))]
            },
    {
        let format = match choose_surface_format(formats) {
            Some(format) => format,
            None => {
                return None;
            },
        };
        let width: u32 = if reported.width == 0 {
            1
        } else {
            reported.width
        };
        let height: u32 = if reported.height == 0 {
            1
        } else {
            reported.height
        };
        Some(GpuState { size: SurfaceSize { width, height }, format })
    }

    /// Size of the surface and of the intermediate image.
    pub fn size(&self) -> (size: SurfaceSize)
        ensures
            size == self.spec_size(),
    {
        self.size
    }

    /// Format the surface is configured with.
    pub fn format(&self) -> (format: wgpu::TextureFormat)
        ensures
            format == self.spec_format(),
    {
        self.format
    }

    /// Width and height of the surface as scalars.
    pub fn resolution_scalars(&self) -> (resolution: [Scalar; 2])
        ensures
            resolution@ == self.resolution()@,
    {
        let resolution = [Scalar::from_u32(self.size.width), Scalar::from_u32(self.size.height)];
        assert(resolution@ =~= self.resolution()@);
        resolution
    }

    /// The record that the frame uniform buffer is created with: identity
    /// matrices, the eye at the origin, time zero, the surface's resolution,
    /// and the initial planes.
    pub fn initial_frame_uniforms(&self) -> (record: FrameUniforms)
        ensures
            record.view_proj@ == identity_matrix(),
            record.inv_view_proj@ == identity_matrix(),
            forall|k: int| 0 <= k < 3 ==> record.camera_position@[k].bits == ZERO_BITS,
            record.time.bits == ZERO_BITS,
            record.resolution@ == self.resolution()@,
            record.near.bits == INITIAL_NEAR_BITS,
            record.far.bits == INITIAL_FAR_BITS,
    {
        let one = Scalar::one();
        let zero = Scalar::zero();
        let identity = [
            one,
            zero,
            zero,
            zero,
            zero,
            one,
            zero,
            zero,
            zero,
            zero,
            one,
            zero,
            zero,
            zero,
            zero,
            one,
        ];
        assert(identity@ =~= identity_matrix());
        FrameUniforms {
            view_proj: identity,
            inv_view_proj: identity,
            camera_position: [zero, zero, zero],
            time: zero,
            resolution: self.resolution_scalars(),
            near: Scalar::from_bits(INITIAL_NEAR_BITS),
            far: Scalar::from_bits(INITIAL_FAR_BITS),
        }
    }

    /// Takes a resize request. Where no edge asked for is empty, the size is
    /// recorded and returned: the surface is then to be configured again and
    /// the intermediate image rebuilt with both bind groups that refer to
    /// it. Where one is, nothing changes and nothing is to be done.
    pub fn resize(&mut self, width: u32, height: u32) -> (rebuilt: Option<SurfaceSize>)
        requires
            old(self).wf(),
        ensures
            final(self).wf(),
            rebuilt == resize_target(width, height),
            *final(self) == old(self).resized(width, height),
            final(self).spec_format() == old(self).spec_format(),
            final(self).spec_size() == match rebuilt {
                Some(size) => size,
                None => old(self).spec_size(),
            },
    {
        if width > 0 && height > 0 {
            let size = SurfaceSize { width, height };
            self.size = size;
            Some(size)
        } else {
            None
        }
    }

    /// Plans one frame: the frame record made of the camera's matrices, eye
    /// and planes, the time and the surface's resolution; the parameter
    /// record made of the tunables; one layer of workgroups that covers the
    /// image; and the covering triangle's vertices.
    pub fn render(&self, camera: &CameraFrame, time: Scalar, params: &RuntimeParams) -> (plan:
        FramePlan)
        ensures
            plan.frame_uniforms.layout() == self.frame(*camera, time, *params).frame_uniforms.layout(),
            plan.raymarch_params == params.record(),
            plan.workgroups@ == self.frame(*camera, time, *params).workgroups@,
            plan.vertices == FULLSCREEN_VERTICES,
            plan.workgroups@.len() == 3,
            8 * (plan.workgroups@[0] - 1) < self.spec_size().width <= 8 * plan.workgroups@[0],
            8 * (plan.workgroups@[1] - 1) < self.spec_size().height <= 8 * plan.workgroups@[1],
            plan.workgroups@[2] == 1,
    {
        let frame_uniforms = FrameUniforms {
            view_proj: camera.view_proj,
            inv_view_proj: camera.inv_view_proj,
            camera_position: camera.position,
            time,
            resolution: self.resolution_scalars(),
            near: camera.near,
            far: camera.far,
        };
        let workgroups = [workgroup_count(self.size.width), workgroup_count(self.size.height), 1];
        let plan = FramePlan {
            frame_uniforms,
            raymarch_params: params.to_raymarch_params(),
            workgroups,
            vertices: FULLSCREEN_VERTICES,
        };
        assert(plan.workgroups@ =~= self.frame(*camera, time, *params).workgroups@);
        plan
    }

    /// What follows a frame that ended with `fault`, or without one.
    pub fn react(&self, fault: Option<SurfaceFault>) -> (action: FrameAction)
        ensures
            action == reaction(self.spec_size(), fault),
    {
        match fault {
            None => FrameAction::Proceed,
            Some(SurfaceFault::Lost) => FrameAction::Reconfigure(self.size),
            Some(SurfaceFault::OutOfMemory) => FrameAction::Quit,
            Some(_) => FrameAction::Skip,
        }
    }

    /// What follows a frame, given how the backend's attempt to acquire the
    /// surface image ended.
    pub fn after_render(&self, outcome: &Result<(), wgpu::SurfaceError>) -> (action: FrameAction)
        ensures
            outcome is Ok ==> action == FrameAction::Proceed,
            outcome is Err ==> action == reaction(
                self.spec_size(),
                Some(fault_named(outcome->Err_0)),
            ),
    {
        match outcome {
            Ok(_) => self.react(None),
            Err(error) => self.react(Some(fault_of(error))),
        }
    }
}

/// A resize to the size a surface already has leaves the state as it is, so
/// that every frame planned afterwards is the frame planned before; and it
/// still asks for the surface to be configured and for the image and its
/// bind groups to be rebuilt, at that same size.
pub proof fn lemma_resize_to_current_size(state: GpuState)
    requires
        state.wf(),
    ensures
        resize_target(state.spec_size().width, state.spec_size().height) == Some(state.spec_size()),
        state.resized(state.spec_size().width, state.spec_size().height) == state,
        forall|camera: CameraFrame, time: Scalar, params: RuntimeParams|
            #![auto]
            state.resized(state.spec_size().width, state.spec_size().height).frame(
                camera,
                time,
                params,
            ) == state.frame(camera, time, params),
{
}

/// A resize changes nothing but the size, and nothing at all where it is
/// ignored: an empty edge.
pub proof fn lemma_resize_keeps_format(state: GpuState, width: u32, height: u32)
    ensures
        state.resized(width, height).spec_format() == state.spec_format(),
        state.resized(width, height).spec_size() == match resize_target(width, height) {
            Some(size) => size,
            None => state.spec_size(),
        },
        width == 0 || height == 0 ==> state.resized(width, height) == state,
{
}

/// A lost surface is answered by a resize to the size it has, which the
/// resize accepts.
pub proof fn lemma_lost_surface_recovers(state: GpuState)
    requires
        state.wf(),
    ensures
        reaction(state.spec_size(), Some(SurfaceFault::Lost)) == FrameAction::Reconfigure(
            state.spec_size(),
        ),
        resize_target(state.spec_size().width, state.spec_size().height) is Some,
{
}

/// Within each layout the bindings are numbered from zero without a gap;
/// the compute stage alone sees its two groups, the fragment stage alone the
/// display group.
pub proof fn lemma_layouts_dense()
    ensures
        forall|i: int|
            0 <= i < compute_data_slots().len() ==> (#[trigger] compute_data_slots()[i]).binding == i
                && compute_data_slots()[i].stage == Stage::Compute,
        forall|i: int|
            0 <= i < compute_image_slots().len() ==> (#[trigger] compute_image_slots()[i]).binding
                == i && compute_image_slots()[i].stage == Stage::Compute,
        forall|i: int|
            0 <= i < display_slots().len() ==> (#[trigger] display_slots()[i]).binding == i
                && display_slots()[i].stage == Stage::Fragment,
{
}

} // verus!
