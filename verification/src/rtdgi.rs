//! The diffuse global-illumination renderer: a ray-traced estimate at half
//! resolution, accumulated over time, filtered in space and brought up to
//! full resolution. Each frame the renderer declares four passes:
//! trace, temporal filter, spatial filter, upsample.

use vstd::prelude::*;
use crate::graph::pair_absent;
use crate::graph::readable;
use crate::graph::lemma_handles_extend;
use crate::graph::AccelerationHandle;
use crate::graph::AccessType;
use crate::graph::Binding;
use crate::graph::Constants;
use crate::graph::ConstantsView;
use crate::graph::Dispatch;
use crate::graph::ImageHandle;
use crate::graph::KernelOffset;
use crate::graph::PassView;
use crate::graph::RawDescriptorSet;
use crate::graph::ReadOnlyImageHandle;
use crate::graph::RenderGraph;
use crate::graph::ResourceView;
use crate::graph::ShadersView;
use crate::graph::TemporalRole;
use crate::image::Extent2;
use crate::image::half_of;
use crate::image::ImageDesc;
use crate::image::FORMAT_R16G16B16A16_SFLOAT;
use crate::image::IMAGE_ASPECT_DEPTH;
use crate::image::IMAGE_USAGE_EMPTY;
use crate::image::IMAGE_USAGE_SAMPLED_STORAGE;
use crate::lut::LutBuffer;
use crate::lut::SamplingLuts;
use crate::pass::SimpleRenderPass;
use crate::temporal::PingPongTemporalResource;
use crate::temporal::PingPongView;

verus! {

/// Name of the temporal pair of the filtered radiance.
pub const TEMPORAL_NAME: &'static str = "rtdgi.final";

/// Name of the temporal pair of the control variate.
pub const CV_TEMPORAL_NAME: &'static str = "rtdgi.cv";

/// The geometry images of the frame: the geometry buffer and the depth
/// buffer, and the normals and the depth derived from them at full and at
/// half resolution. The part of the renderer that fills them owns them.
#[derive(Debug)]
pub struct GbufferDepth {
    pub gbuffer: ImageHandle,
    pub depth: ImageHandle,
    pub full_view_normal: ImageHandle,
    pub full_depth: ImageHandle,
    pub half_view_normal: ImageHandle,
    pub half_depth: ImageHandle,
}

/// The images of a frame's geometry are of the sizes that belong together:
/// the depth buffer and the full-resolution normals and depth are as large
/// as the geometry buffer, and the half-resolution normals and depth are
/// half as large in every dimension, rounded up.
pub open spec fn extents_agree(
    gbuffer: ImageDesc,
    depth: ImageDesc,
    full_view_normal: ImageDesc,
    full_depth: ImageDesc,
    half_view_normal: ImageDesc,
    half_depth: ImageDesc,
) -> bool {
    &&& depth.extent == gbuffer.extent
    &&& full_view_normal.extent == gbuffer.extent
    &&& full_depth.extent == gbuffer.extent
    &&& half_view_normal.extent == gbuffer.spec_half_res().extent
    &&& half_depth.extent == gbuffer.spec_half_res().extent
}

/// Tells whether the images of a frame's geometry are of the sizes that
/// belong together.
pub fn check_extents(
    gbuffer: ImageDesc,
    depth: ImageDesc,
    full_view_normal: ImageDesc,
    full_depth: ImageDesc,
    half_view_normal: ImageDesc,
    half_depth: ImageDesc,
) -> (r: bool)
    ensures
        r == extents_agree(
            gbuffer,
            depth,
            full_view_normal,
            full_depth,
            half_view_normal,
            half_depth,
        ),
{
    let full = gbuffer.extent;
    let half = gbuffer.half_res().extent;
    depth.extent == full && full_view_normal.extent == full && full_depth.extent == full
        && half_view_normal.extent == half && half_depth.extent == half
}

impl GbufferDepth {
    /// The images are of the sizes that belong together: full resolution is
    /// the size of the geometry buffer, half resolution is half of it.
    pub open spec fn spec_resolutions_agree(&self) -> bool {
        extents_agree(
            self.gbuffer.spec_desc(),
            self.depth.spec_desc(),
            self.full_view_normal.spec_desc(),
            self.full_depth.spec_desc(),
            self.half_view_normal.spec_desc(),
            self.half_depth.spec_desc(),
        )
    }

    /// The images are of the sizes that belong together: full resolution is
    /// the size of the geometry buffer, half resolution is half of it.
    #[verifier::when_used_as_spec(spec_resolutions_agree)]
    pub fn resolutions_agree(&self) -> (r: bool)
        ensures
            r == self.spec_resolutions_agree(),
    {
        check_extents(
            self.gbuffer.desc(),
            self.depth.desc(),
            self.full_view_normal.desc(),
            self.full_depth.desc(),
            self.half_view_normal.desc(),
            self.half_depth.desc(),
        )
    }
}

/// The first cascade of the volumetric global illumination: direct and
/// indirect radiance.
#[derive(Debug)]
pub struct Csgi2Volume {
    pub direct_cascade0: ImageHandle,
    pub indirect_cascade0: ImageHandle,
}

/// The descriptor of the images that carry filtered radiance at half
/// resolution: two-dimensional, four 16-bit float channels, sampled and
/// stored to.
pub open spec fn spec_temporal_tex_desc(extent: Extent2) -> ImageDesc {
    ImageDesc::spec_new_2d(FORMAT_R16G16B16A16_SFLOAT, extent).spec_usage(
        IMAGE_USAGE_SAMPLED_STORAGE,
    )
}

/// The descriptor of a half-resolution working image: the geometry buffer's
/// own, halved, in four 16-bit float channels, with no usage bit set.
pub open spec fn half_res_desc(gbuffer: ImageDesc) -> ImageDesc {
    gbuffer.spec_half_res().spec_usage(IMAGE_USAGE_EMPTY).spec_format(FORMAT_R16G16B16A16_SFLOAT)
}

/// The descriptor of the full-resolution result: the geometry buffer's own,
/// in four 16-bit float channels.
pub open spec fn upsampled_desc(gbuffer: ImageDesc) -> ImageDesc {
    gbuffer.spec_format(FORMAT_R16G16B16A16_SFLOAT)
}

/// A constants block of extents alone.
pub open spec fn extents_only(extents: Seq<Extent2>) -> ConstantsView {
    ConstantsView { extents, kernel_offsets: None }
}

/// A constants block of one extent and the kernel.
pub open spec fn extent_and_kernel(extent: Extent2, kernel: Seq<KernelOffset>) -> ConstantsView {
    ConstantsView { extents: seq![extent], kernel_offsets: Some(kernel) }
}

/// The paths of the two miss programs of the trace: for primary rays and
/// for shadow rays.
pub open spec fn trace_miss_shaders() -> Seq<Seq<char>> {
    seq!["/assets/shaders/rt/triangle.rmiss.hlsl"@, "/assets/shaders/rt/shadow.rmiss.hlsl"@]
}

/// The path of the closest-hit program of the trace.
pub open spec fn trace_hit_shaders() -> Seq<Seq<char>> {
    seq!["/assets/shaders/rt/triangle.rchit.hlsl"@]
}

/// The trace pass: one ray-generation thread per half-resolution texel. It
/// reads the geometry, the three sampler buffers, the two cascades and the
/// sky, and writes the two raw radiance images `first` and `first + 1`. The
/// sampler buffers are the resources `first + 2` to `first + 4`.
pub open spec fn trace_pass(
    gbuffer_depth: GbufferDepth,
    sky_cube: int,
    bindless_descriptor_set: u64,
    tlas: int,
    csgi_volume: Csgi2Volume,
    first: int,
) -> PassView {
    PassView {
        name: "rtdgi trace"@,
        shaders: ShadersView::RayTracing {
            rgen: "/assets/shaders/rtdgi/trace_diffuse.rgen.hlsl"@,
            miss: trace_miss_shaders(),
            hit: trace_hit_shaders(),
        },
        bindings: seq![
            Binding::read(gbuffer_depth.gbuffer.spec_id() as int),
            Binding::read_aspect(gbuffer_depth.depth.spec_id() as int, IMAGE_ASPECT_DEPTH),
            Binding::read(first + 2),
            Binding::read(first + 3),
            Binding::read(first + 4),
            Binding::write(first),
            Binding::write(first + 1),
            Binding::read(csgi_volume.direct_cascade0.spec_id() as int),
            Binding::read(csgi_volume.indirect_cascade0.spec_id() as int),
            Binding::read(sky_cube),
        ],
        constants: extents_only(seq![gbuffer_depth.gbuffer.spec_desc().spec_extent_2d()]),
        raw_descriptor_set: Some(RawDescriptorSet { index: 1, set: bindless_descriptor_set }),
        dispatch: Dispatch::TraceRays {
            tlas: tlas as usize,
            extent: half_res_desc(gbuffer_depth.gbuffer.spec_desc()).extent,
        },
    }
}

/// The resources that the trace adds to a frame: the two raw radiance
/// images, then the three sampler buffers.
pub open spec fn trace_resources(luts: SamplingLuts, gbuffer_depth: GbufferDepth) -> Seq<
    ResourceView,
> {
    seq![
        ResourceView::Created { desc: half_res_desc(gbuffer_depth.gbuffer.spec_desc()) },
        ResourceView::Created { desc: half_res_desc(gbuffer_depth.gbuffer.spec_desc()) },
        lut_resource(luts.spec_ranking_tile_buf()),
        lut_resource(luts.spec_scrambling_tile_buf()),
        lut_resource(luts.spec_sobol_buf()),
    ]
}

/// A sampler buffer as a resource of a frame: compute shaders read it.
pub open spec fn lut_resource(buffer: LutBuffer) -> ResourceView {
    ResourceView::Buffer {
        kind: buffer.spec_kind(),
        buffer: buffer.spec_desc(),
        access: AccessType::ComputeShaderReadSampledImageOrUniformTexelBuffer,
    }
}

/// The temporal filter pass. It reads the raw radiance `input`, the two
/// histories, the reprojection map, the half-resolution normals and depth
/// and the two cascades. It writes the two temporal outputs and the
/// filtered image. The resources from `first` on are: output and history of
/// the radiance pair, output and history of the control-variate pair, and
/// the filtered image.
pub open spec fn temporal_pass(
    input: int,
    gbuffer_depth: GbufferDepth,
    reprojection_map: int,
    csgi_volume: Csgi2Volume,
    first: int,
) -> PassView {
    PassView {
        name: "rtdgi temporal"@,
        shaders: ShadersView::Compute { path: "/assets/shaders/rtdgi/temporal_filter.hlsl"@ },
        bindings: seq![
            Binding::read(input),
            Binding::read(first + 1),
            Binding::read(first + 3),
            Binding::read(reprojection_map),
            Binding::read(gbuffer_depth.half_view_normal.spec_id() as int),
            Binding::read(gbuffer_depth.half_depth.spec_id() as int),
            Binding::read(csgi_volume.direct_cascade0.spec_id() as int),
            Binding::read(csgi_volume.indirect_cascade0.spec_id() as int),
            Binding::write(first),
            Binding::write(first + 2),
            Binding::write(first + 4),
        ],
        constants: extents_only(
            seq![
                gbuffer_depth.half_view_normal.spec_desc().spec_extent_2d(),
                gbuffer_depth.gbuffer.spec_desc().spec_extent_2d(),
            ],
        ),
        raw_descriptor_set: None,
        dispatch: Dispatch::Compute {
            extent: temporal_desc(gbuffer_depth).extent,
        },
    }
}

/// The descriptor of the temporal images of a frame: as wide and as high as
/// the half-resolution normals.
pub open spec fn temporal_desc(gbuffer_depth: GbufferDepth) -> ImageDesc {
    spec_temporal_tex_desc(gbuffer_depth.half_view_normal.spec_desc().spec_extent_2d())
}

/// The resources that the temporal filter adds to a frame: output and
/// history of the radiance pair, output and history of the control-variate
/// pair, and the filtered image.
pub open spec fn temporal_resources(r: RtdgiView, gbuffer_depth: GbufferDepth) -> Seq<
    ResourceView,
> {
    seq![
        r.temporal_tex.output(temporal_desc(gbuffer_depth)),
        r.temporal_tex.history(temporal_desc(gbuffer_depth)),
        r.cv_temporal_tex.output(temporal_desc(gbuffer_depth)),
        r.cv_temporal_tex.history(temporal_desc(gbuffer_depth)),
        ResourceView::Created { desc: half_res_desc(gbuffer_depth.gbuffer.spec_desc()) },
    ]
}

/// The upsample pass: it rebuilds the full-resolution image `output` from
/// the half-resolution image `input`, guided by the depth buffer, the
/// geometry buffer, the full-resolution normals and depth and the ambient
/// occlusion, with the kernel of the spatial filter. It binds neither the
/// half-resolution normals nor the half-resolution depth.
pub open spec fn upsample_pass(
    input: int,
    gbuffer_depth: GbufferDepth,
    ssao: int,
    output: int,
    kernel: Seq<KernelOffset>,
) -> PassView {
    PassView {
        name: "rtdgi upsample"@,
        shaders: ShadersView::Compute { path: "/assets/shaders/rtdgi/upsample.hlsl"@ },
        bindings: seq![
            Binding::read(input),
            Binding::read_aspect(gbuffer_depth.depth.spec_id() as int, IMAGE_ASPECT_DEPTH),
            Binding::read(gbuffer_depth.gbuffer.spec_id() as int),
            Binding::read(gbuffer_depth.full_view_normal.spec_id() as int),
            Binding::read(gbuffer_depth.full_depth.spec_id() as int),
            Binding::read(ssao),
            Binding::write(output),
        ],
        constants: extent_and_kernel(
            upsampled_desc(gbuffer_depth.gbuffer.spec_desc()).spec_extent_2d(),
            kernel,
        ),
        raw_descriptor_set: None,
        dispatch: Dispatch::Compute {
            extent: upsampled_desc(gbuffer_depth.gbuffer.spec_desc()).extent,
        },
    }
}

/// The spatial filter pass: it gathers over the kernel around each texel of
/// `input`, guided by the half-resolution normals and depth and by the
/// ambient occlusion, and writes `output`.
pub open spec fn spatial_pass(
    input: int,
    gbuffer_depth: GbufferDepth,
    ssao: int,
    output: int,
    output_desc: ImageDesc,
    kernel: Seq<KernelOffset>,
) -> PassView {
    PassView {
        name: "rtdgi spatial"@,
        shaders: ShadersView::Compute { path: "/assets/shaders/rtdgi/spatial_filter.hlsl"@ },
        bindings: seq![
            Binding::read(input),
            Binding::read(gbuffer_depth.half_view_normal.spec_id() as int),
            Binding::read(gbuffer_depth.half_depth.spec_id() as int),
            Binding::read(ssao),
            Binding::write(output),
        ],
        constants: extent_and_kernel(output_desc.spec_extent_2d(), kernel),
        raw_descriptor_set: None,
        dispatch: Dispatch::Compute { extent: output_desc.extent },
    }
}

/// The resources that one frame of the renderer adds, in order: those of
/// the trace, those of the temporal filter, the spatially filtered image
/// and the full-resolution result.
pub open spec fn frame_resources(r: RtdgiView, gbuffer_depth: GbufferDepth) -> Seq<ResourceView> {
    trace_resources(r.luts, gbuffer_depth) + temporal_resources(r, gbuffer_depth) + seq![
        ResourceView::Created { desc: temporal_desc(gbuffer_depth) },
        ResourceView::Created { desc: upsampled_desc(gbuffer_depth.gbuffer.spec_desc()) },
    ]
}

/// The passes that one frame of the renderer adds, in order: trace,
/// temporal filter, spatial filter, upsample. Each reads what the one
/// before it wrote. `first` is the index of the first resource that the
/// frame adds.
pub open spec fn frame_passes(
    r: RtdgiView,
    gbuffer_depth: GbufferDepth,
    reprojection_map: int,
    sky_cube: int,
    bindless_descriptor_set: u64,
    tlas: int,
    csgi_volume: Csgi2Volume,
    ssao: int,
    first: int,
) -> Seq<PassView> {
    seq![
        trace_pass(gbuffer_depth, sky_cube, bindless_descriptor_set, tlas, csgi_volume, first),
        temporal_pass(first, gbuffer_depth, reprojection_map, csgi_volume, first + 5),
        spatial_pass(
            first + 9,
            gbuffer_depth,
            ssao,
            first + 10,
            temporal_desc(gbuffer_depth),
            r.spatial_resolve_offsets,
        ),
        upsample_pass(first + 10, gbuffer_depth, ssao, first + 11, r.spatial_resolve_offsets),
    ]
}

/// The renderer: its two temporal pairs, the sampler's buffers, and the
/// kernel that the spatial filter and the upsampler share.
#[derive(Debug)]
pub struct RtdgiRenderer {
    temporal_tex: PingPongTemporalResource,
    cv_temporal_tex: PingPongTemporalResource,
    luts: SamplingLuts,
    spatial_resolve_offsets: &'static [KernelOffset],
}

/// The state of an [`RtdgiRenderer`].
pub struct RtdgiView {
    pub temporal_tex: PingPongView,
    pub cv_temporal_tex: PingPongView,
    pub luts: SamplingLuts,
    pub spatial_resolve_offsets: Seq<KernelOffset>,
}

impl View for RtdgiRenderer {
    type V = RtdgiView;

    closed spec fn view(&self) -> RtdgiView {
        RtdgiView {
            temporal_tex: self.temporal_tex@,
            cv_temporal_tex: self.cv_temporal_tex@,
            luts: self.luts,
            spatial_resolve_offsets: self.spatial_resolve_offsets@,
        }
    }
}

impl RtdgiView {
    /// The two pairs have two slots each and their own names, and the
    /// buffers hold the sampler's tables.
    pub open spec fn wf(self) -> bool {
        &&& self.temporal_tex.wf()
        &&& self.cv_temporal_tex.wf()
        &&& self.temporal_tex.name == TEMPORAL_NAME@
        &&& self.cv_temporal_tex.name == CV_TEMPORAL_NAME@
        &&& self.luts.wf()
    }
}

/// The two temporal pairs of a renderer, as they were at some moment.
#[derive(Debug)]
pub struct PairsCheckpoint {
    temporal_tex: PingPongTemporalResource,
    cv_temporal_tex: PingPongTemporalResource,
}

/// What a [`PairsCheckpoint`] holds.
pub struct PairsView {
    pub temporal_tex: PingPongView,
    pub cv_temporal_tex: PingPongView,
}

impl View for PairsCheckpoint {
    type V = PairsView;

    closed spec fn view(&self) -> PairsView {
        PairsView { temporal_tex: self.temporal_tex@, cv_temporal_tex: self.cv_temporal_tex@ }
    }
}

impl PairsCheckpoint {
    /// The pairs are those of a renderer: two slots each, each under its
    /// own name. This holds of every checkpoint.
    #[verifier::type_invariant]
    pub open spec fn wf(&self) -> bool {
        &&& self@.temporal_tex.wf()
        &&& self@.cv_temporal_tex.wf()
        &&& self@.temporal_tex.name == TEMPORAL_NAME@
        &&& self@.cv_temporal_tex.name == CV_TEMPORAL_NAME@
    }
}

impl RtdgiView {
    /// The two temporal pairs.
    pub open spec fn pairs(self) -> PairsView {
        PairsView { temporal_tex: self.temporal_tex, cv_temporal_tex: self.cv_temporal_tex }
    }

    /// The same state with the temporal pairs replaced.
    pub open spec fn with_pairs(self, pairs: PairsView) -> RtdgiView {
        RtdgiView {
            temporal_tex: pairs.temporal_tex,
            cv_temporal_tex: pairs.cv_temporal_tex,
            ..self
        }
    }
}

/// A frame that is given up leaves no trace: with the pairs put back as
/// they were before it, the renderer is as it was, so the frame after reads
/// the history that the frame given up would have read.
pub proof fn given_up_frame_leaves_no_trace(r: RtdgiView, desc: ImageDesc)
    ensures
        r.after_frame(desc).with_pairs(r.pairs()) == r,
{
}

impl RtdgiView {
    /// The state after a frame whose temporal images have descriptor
    /// `desc`: both pairs have swapped their images, and nothing else has
    /// changed.
    pub open spec fn after_frame(self, desc: ImageDesc) -> RtdgiView {
        RtdgiView {
            temporal_tex: self.temporal_tex.next(desc),
            cv_temporal_tex: self.cv_temporal_tex.next(desc),
            ..self
        }
    }
}

/// The two temporal pairs have different names, so no image of one is an
/// image of the other.
pub proof fn pair_names_differ()
    ensures
        TEMPORAL_NAME@ != CV_TEMPORAL_NAME@,
        forall|r: ResourceView| !(r.belongs_to(TEMPORAL_NAME@) && r.belongs_to(CV_TEMPORAL_NAME@)),
{
    reveal_strlit("rtdgi.final");
    reveal_strlit("rtdgi.cv");
    assert(TEMPORAL_NAME@.len() != CV_TEMPORAL_NAME@.len());
}

/// The spatial filter and the upsampler work with one kernel: in every
/// frame both passes carry the renderer's table, entry for entry, and the
/// trace and the temporal filter carry none.
pub proof fn kernel_is_shared(
    r: RtdgiView,
    gbuffer_depth: GbufferDepth,
    reprojection_map: int,
    sky_cube: int,
    bindless_descriptor_set: u64,
    tlas: int,
    csgi_volume: Csgi2Volume,
    ssao: int,
    first: int,
)
    ensures
        ({
            let passes = frame_passes(
                r,
                gbuffer_depth,
                reprojection_map,
                sky_cube,
                bindless_descriptor_set,
                tlas,
                csgi_volume,
                ssao,
                first,
            );
            &&& passes.len() == 4
            &&& passes[2].name == "rtdgi spatial"@
            &&& passes[3].name == "rtdgi upsample"@
            &&& passes[2].constants.kernel_offsets == Some(r.spatial_resolve_offsets)
            &&& passes[3].constants.kernel_offsets == passes[2].constants.kernel_offsets
            &&& passes[0].constants.kernel_offsets is None
            &&& passes[1].constants.kernel_offsets is None
        }),
{
}

/// The resources that a frame reads from outside come before the resources
/// that the frame adds, which start at `first`, and the indices of those
/// fit the machine.
pub open spec fn inputs_precede(
    gbuffer_depth: GbufferDepth,
    reprojection_map: int,
    sky_cube: int,
    tlas: int,
    csgi_volume: Csgi2Volume,
    ssao: int,
    first: int,
) -> bool {
    &&& 0 <= first
    &&& first + 11 <= usize::MAX
    &&& gbuffer_depth.gbuffer.spec_id() < first
    &&& gbuffer_depth.depth.spec_id() < first
    &&& gbuffer_depth.full_view_normal.spec_id() < first
    &&& gbuffer_depth.full_depth.spec_id() < first
    &&& gbuffer_depth.half_view_normal.spec_id() < first
    &&& gbuffer_depth.half_depth.spec_id() < first
    &&& csgi_volume.direct_cascade0.spec_id() < first
    &&& csgi_volume.indirect_cascade0.spec_id() < first
    &&& 0 <= reprojection_map < first
    &&& 0 <= sky_cube < first
    &&& 0 <= tlas < first
    &&& 0 <= ssao < first
}

/// The sampler's three buffers, which are the resources `first + 2` to
/// `first + 4` of a frame, feed the trace alone: the trace reads each of
/// them, no other pass of the frame reads any of them, and no pass writes
/// one.
pub proof fn sampler_buffers_feed_the_trace_alone(
    r: RtdgiView,
    gbuffer_depth: GbufferDepth,
    reprojection_map: int,
    sky_cube: int,
    bindless_descriptor_set: u64,
    tlas: int,
    csgi_volume: Csgi2Volume,
    ssao: int,
    first: int,
    id: int,
)
    requires
        inputs_precede(gbuffer_depth, reprojection_map, sky_cube, tlas, csgi_volume, ssao, first),
        first + 2 <= id <= first + 4,
    ensures
        ({
            let passes = frame_passes(
                r,
                gbuffer_depth,
                reprojection_map,
                sky_cube,
                bindless_descriptor_set,
                tlas,
                csgi_volume,
                ssao,
                first,
            );
            &&& frame_resources(r, gbuffer_depth)[id - first] is Buffer
            &&& passes[0].reads(id)
            &&& !passes[1].reads(id)
            &&& !passes[2].reads(id)
            &&& !passes[3].reads(id)
            &&& forall|k: int| 0 <= k < 4 ==> !(#[trigger] passes[k]).writes(id)
        }),
{
    let passes = frame_passes(
        r,
        gbuffer_depth,
        reprojection_map,
        sky_cube,
        bindless_descriptor_set,
        tlas,
        csgi_volume,
        ssao,
        first,
    );
    let trace = passes[0];
    assert(trace.bindings[2].is_read() && trace.bindings[3].is_read()
        && trace.bindings[4].is_read());
    assert(trace.bindings[id - first].resource == id);
    assert(trace.reads(id));
}

/// Each pass of a frame reads what the pass before it wrote: the temporal
/// filter reads the first image of the trace, the spatial filter reads the
/// filtered image of the temporal filter, and the upsampler reads the image
/// of the spatial filter. The temporal filter reads the history image of
/// each pair and writes the output image of each, and these are four
/// different resources.
pub proof fn passes_are_chained(
    r: RtdgiView,
    gbuffer_depth: GbufferDepth,
    reprojection_map: int,
    sky_cube: int,
    bindless_descriptor_set: u64,
    tlas: int,
    csgi_volume: Csgi2Volume,
    ssao: int,
    first: int,
)
    requires
        inputs_precede(gbuffer_depth, reprojection_map, sky_cube, tlas, csgi_volume, ssao, first),
    ensures
        ({
            let passes = frame_passes(
                r,
                gbuffer_depth,
                reprojection_map,
                sky_cube,
                bindless_descriptor_set,
                tlas,
                csgi_volume,
                ssao,
                first,
            );
            &&& passes[0].writes(first) && passes[1].reads(first)
            &&& passes[1].writes(first + 9) && passes[2].reads(first + 9)
            &&& passes[2].writes(first + 10) && passes[3].reads(first + 10)
            &&& passes[3].writes(first + 11)
            &&& passes[1].writes(first + 5) && !passes[1].reads(first + 5)
            &&& passes[1].reads(first + 6) && !passes[1].writes(first + 6)
            &&& passes[1].writes(first + 7) && !passes[1].reads(first + 7)
            &&& passes[1].reads(first + 8) && !passes[1].writes(first + 8)
        }),
{
    let passes = frame_passes(
        r,
        gbuffer_depth,
        reprojection_map,
        sky_cube,
        bindless_descriptor_set,
        tlas,
        csgi_volume,
        ssao,
        first,
    );
    assert(passes[0].bindings[5].is_write());
    assert(passes[1].bindings[0].is_read());
    assert(passes[1].bindings[1].is_read());
    assert(passes[1].bindings[2].is_read());
    assert(passes[1].bindings[8].is_write());
    assert(passes[1].bindings[9].is_write());
    assert(passes[1].bindings[10].is_write());
    assert(passes[2].bindings[0].is_read());
    assert(passes[2].bindings[4].is_write());
    assert(passes[3].bindings[0].is_read());
    assert(passes[3].bindings[6].is_write());
}

impl GbufferDepth {
    /// The half-resolution normals and depth are resources of their own:
    /// neither is the geometry buffer, the depth buffer or one of the
    /// full-resolution images.
    pub open spec fn half_resolution_apart(&self) -> bool {
        &&& self.half_view_normal.spec_id() != self.gbuffer.spec_id()
        &&& self.half_view_normal.spec_id() != self.depth.spec_id()
        &&& self.half_view_normal.spec_id() != self.full_view_normal.spec_id()
        &&& self.half_view_normal.spec_id() != self.full_depth.spec_id()
        &&& self.half_depth.spec_id() != self.gbuffer.spec_id()
        &&& self.half_depth.spec_id() != self.depth.spec_id()
        &&& self.half_depth.spec_id() != self.full_view_normal.spec_id()
        &&& self.half_depth.spec_id() != self.full_depth.spec_id()
    }
}

/// The upsampler is guided by full-resolution geometry. Its reads are, in
/// order: the spatially filtered image, the depth aspect of the depth
/// buffer, the geometry buffer, the full-resolution normals, the
/// full-resolution depth and the ambient occlusion. The depth buffer, the
/// geometry buffer and the full-resolution normals and depth are as large
/// as the image that the pass writes, which is the only resource it writes,
/// and the pass binds neither the half-resolution normals nor the
/// half-resolution depth.
pub proof fn upsampler_reads_full_resolution(
    r: RtdgiView,
    gbuffer_depth: GbufferDepth,
    reprojection_map: int,
    sky_cube: int,
    bindless_descriptor_set: u64,
    tlas: int,
    csgi_volume: Csgi2Volume,
    ssao: int,
    first: int,
)
    requires
        inputs_precede(gbuffer_depth, reprojection_map, sky_cube, tlas, csgi_volume, ssao, first),
        gbuffer_depth.resolutions_agree(),
        gbuffer_depth.half_resolution_apart(),
        gbuffer_depth.half_view_normal.spec_id() != ssao,
        gbuffer_depth.half_depth.spec_id() != ssao,
    ensures
        ({
            let upsample = frame_passes(
                r,
                gbuffer_depth,
                reprojection_map,
                sky_cube,
                bindless_descriptor_set,
                tlas,
                csgi_volume,
                ssao,
                first,
            )[3];
            let output = upsampled_desc(gbuffer_depth.gbuffer.spec_desc());
            &&& upsample.bindings == seq![
                Binding::read(first + 10),
                Binding::read_aspect(gbuffer_depth.depth.spec_id() as int, IMAGE_ASPECT_DEPTH),
                Binding::read(gbuffer_depth.gbuffer.spec_id() as int),
                Binding::read(gbuffer_depth.full_view_normal.spec_id() as int),
                Binding::read(gbuffer_depth.full_depth.spec_id() as int),
                Binding::read(ssao),
                Binding::write(first + 11),
            ]
            &&& gbuffer_depth.full_view_normal.spec_desc().extent == output.extent
            &&& gbuffer_depth.full_depth.spec_desc().extent == output.extent
            &&& gbuffer_depth.gbuffer.spec_desc().extent == output.extent
            &&& gbuffer_depth.depth.spec_desc().extent == output.extent
            &&& !upsample.reads(gbuffer_depth.half_view_normal.spec_id() as int)
            &&& !upsample.reads(gbuffer_depth.half_depth.spec_id() as int)
            &&& !upsample.writes(gbuffer_depth.half_view_normal.spec_id() as int)
            &&& !upsample.writes(gbuffer_depth.half_depth.spec_id() as int)
            &&& forall|id: int| upsample.writes(id) ==> id == first + 11
        }),
{
    let upsample = frame_passes(
        r,
        gbuffer_depth,
        reprojection_map,
        sky_cube,
        bindless_descriptor_set,
        tlas,
        csgi_volume,
        ssao,
        first,
    )[3];
    assert(upsample.bindings.len() == 7);
}

/// Everything between the trace and the upsampler is of half resolution:
/// the two raw radiance images, the images of both temporal pairs, the
/// filtered image of the temporal filter and the image of the spatial
/// filter all have half the width and half the height of the geometry
/// buffer, rounded up, as the half-resolution normals and depth have; and
/// the three passes that fill them are launched over that width and height.
pub proof fn working_images_are_half_resolution(
    r: RtdgiView,
    gbuffer_depth: GbufferDepth,
    reprojection_map: int,
    sky_cube: int,
    bindless_descriptor_set: u64,
    tlas: int,
    csgi_volume: Csgi2Volume,
    ssao: int,
    first: int,
)
    requires
        gbuffer_depth.resolutions_agree(),
    ensures
        ({
            let half = gbuffer_depth.gbuffer.spec_desc().spec_half_res().spec_extent_2d();
            let full = gbuffer_depth.gbuffer.spec_desc().extent;
            let resources = frame_resources(r, gbuffer_depth);
            let passes = frame_passes(
                r,
                gbuffer_depth,
                reprojection_map,
                sky_cube,
                bindless_descriptor_set,
                tlas,
                csgi_volume,
                ssao,
                first,
            );
            &&& half.width == half_of(full.width as int)
            &&& half.height == half_of(full.height as int)
            &&& gbuffer_depth.half_view_normal.spec_desc().spec_extent_2d() == half
            &&& gbuffer_depth.half_depth.spec_desc().spec_extent_2d() == half
            &&& forall|i: int|
                (0 <= i < 2 || 5 <= i < 11) ==> (#[trigger] resources[i]).image_desc().unwrap()
                    .spec_extent_2d() == half
            &&& resources[11].image_desc().unwrap().extent == full
            &&& passes[0].dispatch matches Dispatch::TraceRays { extent, .. }
                && extent.spec_extent_2d() == half
            &&& passes[1].dispatch matches Dispatch::Compute { extent }
                && extent.spec_extent_2d() == half
            &&& passes[2].dispatch matches Dispatch::Compute { extent }
                && extent.spec_extent_2d() == half
            &&& passes[3].dispatch == (Dispatch::Compute { extent: full })
        }),
{
}

/// From one frame to the next, with temporal images of the same
/// descriptor, each pair hands its image on: what the second frame reads as
/// history is the slot that the first frame wrote, and it is not allocated
/// anew in between.
pub proof fn frames_hand_history_on(r: RtdgiView, earlier: GbufferDepth, later: GbufferDepth)
    requires
        r.wf(),
        temporal_desc(earlier) == temporal_desc(later),
    ensures
        ({
            let desc = temporal_desc(earlier);
            let written = temporal_resources(r, earlier);
            let read = temporal_resources(r.after_frame(desc), later);
            &&& written[0].is_temporal(TEMPORAL_NAME@, r.temporal_tex.output_slot)
            &&& written[0].writable()
            &&& read[1] == (ResourceView::Temporal {
                name: TEMPORAL_NAME@,
                slot: r.temporal_tex.output_slot,
                desc,
                role: TemporalRole::History,
                fresh: false,
            })
            &&& written[2].is_temporal(CV_TEMPORAL_NAME@, r.cv_temporal_tex.output_slot)
            &&& written[2].writable()
            &&& read[3] == (ResourceView::Temporal {
                name: CV_TEMPORAL_NAME@,
                slot: r.cv_temporal_tex.output_slot,
                desc,
                role: TemporalRole::History,
                fresh: false,
            })
            &&& r.after_frame(desc).wf()
        }),
{
}

/// A frame whose temporal images have another descriptor than the one a
/// pair was allocated with, or the first frame of all, starts that pair
/// over: both of its images are fresh and have the descriptor of this
/// frame, so nothing of another size is read.
pub proof fn resized_frame_starts_over(r: RtdgiView, gbuffer_depth: GbufferDepth)
    requires
        r.wf(),
    ensures
        ({
            let desc = temporal_desc(gbuffer_depth);
            let images = temporal_resources(r, gbuffer_depth);
            &&& forall|i: int| 0 <= i < 4 ==> (#[trigger] images[i]).image_desc() == Some(desc)
            &&& r.temporal_tex.desc != Some(desc) ==> images[0].is_fresh() && images[1].is_fresh()
            &&& r.cv_temporal_tex.desc != Some(desc) ==> images[2].is_fresh()
                && images[3].is_fresh()
            &&& r.temporal_tex.desc == Some(desc) ==> !images[0].is_fresh()
                && !images[1].is_fresh()
            &&& r.cv_temporal_tex.desc == Some(desc) ==> !images[2].is_fresh()
                && !images[3].is_fresh()
            &&& r.after_frame(desc).temporal_tex.desc == Some(desc)
            &&& r.after_frame(desc).cv_temporal_tex.desc == Some(desc)
        }),
{
}

impl RtdgiRenderer {
    /// The renderer is in a state that its own functions leave it in. This
    /// holds of every renderer.
    #[verifier::type_invariant]
    pub open spec fn wf(&self) -> bool {
        self@.wf()
    }

    /// A renderer before its first frame: no temporal image is allocated,
    /// the sampler's buffers are built, and `spatial_resolve_offsets` is the
    /// kernel that the spatial filter and the upsampler will share.
    pub fn new(spatial_resolve_offsets: &'static [KernelOffset]) -> (r: RtdgiRenderer)
        ensures
            r.wf(),
            r@.temporal_tex == (PingPongView { name: TEMPORAL_NAME@, desc: None, output_slot: 0 }),
            r@.cv_temporal_tex == (PingPongView {
                name: CV_TEMPORAL_NAME@,
                desc: None,
                output_slot: 0,
            }),
            r@.spatial_resolve_offsets == spatial_resolve_offsets@,
    {
        RtdgiRenderer {
            temporal_tex: PingPongTemporalResource::new(TEMPORAL_NAME),
            cv_temporal_tex: PingPongTemporalResource::new(CV_TEMPORAL_NAME),
            luts: SamplingLuts::new(),
            spatial_resolve_offsets,
        }
    }

    /// The temporal pair of the filtered radiance.
    pub fn temporal_tex(&self) -> (r: &PingPongTemporalResource)
        ensures
            r@ == self@.temporal_tex,
    {
        &self.temporal_tex
    }

    /// The temporal pair of the control variate.
    pub fn cv_temporal_tex(&self) -> (r: &PingPongTemporalResource)
        ensures
            r@ == self@.cv_temporal_tex,
    {
        &self.cv_temporal_tex
    }

    /// The two temporal pairs as they are now. Taken before a frame, it
    /// lets [`RtdgiRenderer::roll_back`] undo the swap of that frame.
    pub fn checkpoint(&self) -> (r: PairsCheckpoint)
        ensures
            r@ == self@.pairs(),
    {
        proof {
            use_type_invariant(self);
        }
        PairsCheckpoint {
            temporal_tex: self.temporal_tex.duplicate(),
            cv_temporal_tex: self.cv_temporal_tex.duplicate(),
        }
    }

    /// Puts the two temporal pairs back as they were at `checkpoint`. After
    /// a frame that the back end gave up, this undoes the swap: the next
    /// frame writes and reads the images that the frame given up would have
    /// written and read.
    pub fn roll_back(&mut self, checkpoint: PairsCheckpoint)
        ensures
            final(self)@ == old(self)@.with_pairs(checkpoint@),
            final(self).wf(),
    {
        proof {
            use_type_invariant(&*self);
            use_type_invariant(&checkpoint);
        }
        let PairsCheckpoint { temporal_tex, cv_temporal_tex } = checkpoint;
        let mut temporal_tex = temporal_tex;
        let mut cv_temporal_tex = cv_temporal_tex;
        core::mem::swap(&mut self.temporal_tex, &mut temporal_tex);
        core::mem::swap(&mut self.cv_temporal_tex, &mut cv_temporal_tex);
    }

    /// The sampler's buffers.
    pub fn luts(&self) -> (r: &SamplingLuts)
        ensures
            *r == self@.luts,
    {
        &self.luts
    }

    /// The kernel that the spatial filter and the upsampler share.
    pub fn spatial_resolve_offsets(&self) -> (r: &'static [KernelOffset])
        ensures
            r@ == self@.spatial_resolve_offsets,
    {
        self.spatial_resolve_offsets
    }

    /// Declares the trace: two new half-resolution images for the raw
    /// radiance, the three sampler buffers, and the ray-tracing pass that
    /// fills the two images. Returns the two images.
    pub fn trace(
        &self,
        rg: &mut RenderGraph,
        gbuffer_depth: &GbufferDepth,
        sky_cube: &ImageHandle,
        bindless_descriptor_set: u64,
        tlas: &AccelerationHandle,
        csgi_volume: &Csgi2Volume,
    ) -> (r: (ImageHandle, ImageHandle))
        requires
            old(rg).can_read(&gbuffer_depth.gbuffer),
            old(rg).can_read(&gbuffer_depth.depth),
            old(rg).can_read(&csgi_volume.direct_cascade0),
            old(rg).can_read(&csgi_volume.indirect_cascade0),
            old(rg).can_read(sky_cube),
            old(rg).holds_acceleration(tlas),
        ensures
            final(rg)@.resources == old(rg)@.resources + trace_resources(
                self@.luts,
                *gbuffer_depth,
            ),
            final(rg)@.passes == old(rg)@.passes.push(
                trace_pass(
                    *gbuffer_depth,
                    sky_cube.spec_id() as int,
                    bindless_descriptor_set,
                    tlas.spec_id() as int,
                    *csgi_volume,
                    old(rg)@.resources.len() as int,
                ),
            ),
            r.0.spec_id() == old(rg)@.resources.len(),
            r.1.spec_id() == old(rg)@.resources.len() + 1,
            r.0.spec_desc() == half_res_desc(gbuffer_depth.gbuffer.spec_desc()),
            r.1.spec_desc() == half_res_desc(gbuffer_depth.gbuffer.spec_desc()),
            final(rg).can_read(&r.0),
            final(rg).can_read(&r.1),
            final(rg)@.extends(old(rg)@),
            final(rg).wf(),
    {
        let gbuffer_desc = gbuffer_depth.gbuffer.desc();
        let ghost first = rg@.resources.len() as int;

        let mut hit0_tex = rg.create(
            gbuffer_desc.usage(IMAGE_USAGE_EMPTY).half_res().format(FORMAT_R16G16B16A16_SFLOAT),
        );
        let mut hit1_tex = rg.create(
            gbuffer_desc.usage(IMAGE_USAGE_EMPTY).half_res().format(FORMAT_R16G16B16A16_SFLOAT),
        );

        let ranking_tile_buf = rg.import(
            self.luts.ranking_tile_buf(),
            AccessType::ComputeShaderReadSampledImageOrUniformTexelBuffer,
        );
        let scambling_tile_buf = rg.import(
            self.luts.scrambling_tile_buf(),
            AccessType::ComputeShaderReadSampledImageOrUniformTexelBuffer,
        );
        let sobol_buf = rg.import(
            self.luts.sobol_buf(),
            AccessType::ComputeShaderReadSampledImageOrUniformTexelBuffer,
        );
        proof {
            assert(rg@.resources =~= old(rg)@.resources + trace_resources(
                self@.luts,
                *gbuffer_depth,
            ));
            lemma_handles_extend(old(rg)@, rg@);
        }

        let mut miss: Vec<&'static str> = Vec::new();
        miss.push("/assets/shaders/rt/triangle.rmiss.hlsl");
        miss.push("/assets/shaders/rt/shadow.rmiss.hlsl");
        let mut hit: Vec<&'static str> = Vec::new();
        hit.push("/assets/shaders/rt/triangle.rchit.hlsl");
        let mut extents: Vec<Extent2> = Vec::new();
        extents.push(gbuffer_desc.extent_2d());
        proof {
            assert(miss@.map_values(|s: &'static str| s@) =~= trace_miss_shaders());
            assert(hit@.map_values(|s: &'static str| s@) =~= trace_hit_shaders());
        }
        let pass = SimpleRenderPass::new_rt(
            "rtdgi trace",
            "/assets/shaders/rtdgi/trace_diffuse.rgen.hlsl",
            miss,
            hit,
        ).read(&gbuffer_depth.gbuffer).read_aspect(&gbuffer_depth.depth, IMAGE_ASPECT_DEPTH)
            .read_buffer(&ranking_tile_buf).read_buffer(&scambling_tile_buf).read_buffer(
            &sobol_buf,
        ).write(&mut hit0_tex).write(&mut hit1_tex).read(&csgi_volume.direct_cascade0).read(
            &csgi_volume.indirect_cascade0,
        ).read(sky_cube).constants(Constants { extents, kernel_offsets: None })
            .raw_descriptor_set(1, bindless_descriptor_set);
        let extent = hit0_tex.desc().extent;
        proof {
            let p = pass@.launched(Dispatch::TraceRays { tlas: tlas.spec_id(), extent });
            let q = trace_pass(
                *gbuffer_depth,
                sky_cube.spec_id() as int,
                bindless_descriptor_set,
                tlas.spec_id() as int,
                *csgi_volume,
                first,
            );
            assert(p.bindings =~= q.bindings);
            assert(p.constants.extents =~= q.constants.extents);
            assert(p == q);
        }
        pass.trace_rays(rg, tlas, extent);
        proof {
            let last = rg@.passes[rg@.passes.len() - 1];
            assert(last.bindings[5].is_write());
            assert(last.writes(first));
            assert(last.bindings[6].is_write());
            assert(last.writes(first + 1));
        }
        (hit0_tex, hit1_tex)
    }

    /// The descriptor of the images that carry filtered radiance at half
    /// resolution.
    pub fn temporal_tex_desc(extent: Extent2) -> (r: ImageDesc)
        ensures
            r == spec_temporal_tex_desc(extent),
    {
        ImageDesc::new_2d(FORMAT_R16G16B16A16_SFLOAT, extent).usage(IMAGE_USAGE_SAMPLED_STORAGE)
    }

    /// Declares the temporal filter: the two images of each temporal pair,
    /// a new half-resolution image for the filtered radiance, and the pass
    /// that blends `input_color` with the two histories. Both pairs swap
    /// their images for the frame after.
    ///
    /// The pass reads one reprojection map for both channels, reads each
    /// history from one image and writes each output to the other.
    ///
    /// The frame must hold every input, filled by then, and must not yet
    /// hold an image of the renderer's two temporal pairs. The geometry
    /// images must be of the sizes that belong together.
    pub fn temporal(
        &mut self,
        rg: &mut RenderGraph,
        input_color: &ImageHandle,
        gbuffer_depth: &GbufferDepth,
        reprojection_map: &ImageHandle,
        csgi_volume: &Csgi2Volume,
    ) -> (r: ImageHandle)
        requires
            old(rg).can_read(input_color),
            old(rg).can_read(reprojection_map),
            old(rg).can_read(&gbuffer_depth.half_view_normal),
            old(rg).can_read(&gbuffer_depth.half_depth),
            old(rg).can_read(&csgi_volume.direct_cascade0),
            old(rg).can_read(&csgi_volume.indirect_cascade0),
            gbuffer_depth.resolutions_agree(),
            pair_absent(old(rg)@.resources, TEMPORAL_NAME@),
            pair_absent(old(rg)@.resources, CV_TEMPORAL_NAME@),
        ensures
            final(self)@ == old(self)@.after_frame(temporal_desc(*gbuffer_depth)),
            final(self).wf(),
            final(rg)@.resources == old(rg)@.resources + temporal_resources(
                old(self)@,
                *gbuffer_depth,
            ),
            final(rg)@.passes == old(rg)@.passes.push(
                temporal_pass(
                    input_color.spec_id() as int,
                    *gbuffer_depth,
                    reprojection_map.spec_id() as int,
                    *csgi_volume,
                    old(rg)@.resources.len() as int,
                ),
            ),
            r.spec_id() == old(rg)@.resources.len() + 4,
            r.spec_desc() == half_res_desc(gbuffer_depth.gbuffer.spec_desc()),
            final(rg).can_read(&r),
            final(rg)@.extends(old(rg)@),
            final(rg).wf(),
    {
        let half_view_normal_tex = &gbuffer_depth.half_view_normal;
        let half_depth_tex = &gbuffer_depth.half_depth;
        let ghost first = rg@.resources.len() as int;

        proof {
            use_type_invariant(&*self);
        }
        let mut temporal_tex = PingPongTemporalResource::new(TEMPORAL_NAME);
        core::mem::swap(&mut self.temporal_tex, &mut temporal_tex);
        let (mut temporal_output_tex, history_tex) = temporal_tex.get_output_and_history(
            rg,
            Self::temporal_tex_desc(half_view_normal_tex.desc().extent_2d()),
        );
        core::mem::swap(&mut self.temporal_tex, &mut temporal_tex);
        proof {
            pair_names_differ();
            assert forall|i: int| 0 <= i < rg@.resources.len() implies !(
            #[trigger] rg@.resources[i]).belongs_to(CV_TEMPORAL_NAME@) by {
                if i < first {
                    assert(rg@.resources[i] == old(rg)@.resources[i]);
                }
            }
        }

        let mut cv_temporal_tex = PingPongTemporalResource::new(CV_TEMPORAL_NAME);
        core::mem::swap(&mut self.cv_temporal_tex, &mut cv_temporal_tex);
        let (mut cv_temporal_output_tex, cv_history_tex) =
            cv_temporal_tex.get_output_and_history(
            rg,
            Self::temporal_tex_desc(half_view_normal_tex.desc().extent_2d()),
        );
        core::mem::swap(&mut self.cv_temporal_tex, &mut cv_temporal_tex);

        let mut temporal_filtered_tex = rg.create(
            gbuffer_depth.gbuffer.desc().half_res().usage(IMAGE_USAGE_EMPTY).format(
                FORMAT_R16G16B16A16_SFLOAT,
            ),
        );
        proof {
            assert(rg@.resources =~= old(rg)@.resources + temporal_resources(
                old(self)@,
                *gbuffer_depth,
            ));
            lemma_handles_extend(old(rg)@, rg@);
        }

        let mut extents: Vec<Extent2> = Vec::new();
        extents.push(temporal_output_tex.desc().extent_2d());
        extents.push(gbuffer_depth.gbuffer.desc().extent_2d());
        let pass = SimpleRenderPass::new_compute(
            "rtdgi temporal",
            "/assets/shaders/rtdgi/temporal_filter.hlsl",
        ).read(input_color).read(&history_tex).read(&cv_history_tex).read(reprojection_map).read(
            half_view_normal_tex,
        ).read(half_depth_tex).read(&csgi_volume.direct_cascade0).read(
            &csgi_volume.indirect_cascade0,
        ).write(&mut temporal_output_tex).write(&mut cv_temporal_output_tex).write(
            &mut temporal_filtered_tex,
        ).constants(Constants { extents, kernel_offsets: None });
        let extent = temporal_output_tex.desc().extent;
        proof {
            let p = pass@.launched(Dispatch::Compute { extent });
            let q = temporal_pass(
                input_color.spec_id() as int,
                *gbuffer_depth,
                reprojection_map.spec_id() as int,
                *csgi_volume,
                first,
            );
            assert(p.bindings =~= q.bindings);
            assert(p.constants.extents =~= q.constants.extents);
            assert(p == q);
        }
        pass.dispatch(rg, extent);
        proof {
            let last = rg@.passes[rg@.passes.len() - 1];
            assert(last.bindings[10].is_write());
            assert(last.writes(first + 4));
        }
        temporal_filtered_tex
    }

    /// Declares the spatial filter: a new half-resolution image and the pass
    /// that fills it from `input_color`, with the renderer's kernel.
    pub fn spatial(
        &self,
        rg: &mut RenderGraph,
        input_color: &ImageHandle,
        gbuffer_depth: &GbufferDepth,
        ssao_img: &ImageHandle,
    ) -> (r: ImageHandle)
        requires
            old(rg).can_read(input_color),
            old(rg).can_read(&gbuffer_depth.half_view_normal),
            old(rg).can_read(&gbuffer_depth.half_depth),
            old(rg).can_read(ssao_img),
            gbuffer_depth.resolutions_agree(),
        ensures
            r.spec_id() == old(rg)@.resources.len(),
            r.spec_desc() == spec_temporal_tex_desc(
                gbuffer_depth.half_view_normal.spec_desc().spec_extent_2d(),
            ),
            final(rg)@.resources == old(rg)@.resources.push(
                ResourceView::Created { desc: r.spec_desc() },
            ),
            final(rg)@.passes == old(rg)@.passes.push(
                spatial_pass(
                    input_color.spec_id() as int,
                    *gbuffer_depth,
                    ssao_img.spec_id() as int,
                    r.spec_id() as int,
                    r.spec_desc(),
                    self@.spatial_resolve_offsets,
                ),
            ),
            final(rg).can_read(&r),
            final(rg)@.extends(old(rg)@),
            final(rg).wf(),
    {
        let half_view_normal_tex = &gbuffer_depth.half_view_normal;
        let half_depth_tex = &gbuffer_depth.half_depth;

        let mut spatial_filtered_tex = rg.create(
            Self::temporal_tex_desc(half_view_normal_tex.desc().extent_2d()),
        );
        proof {
            lemma_handles_extend(old(rg)@, rg@);
        }

        let mut extents: Vec<Extent2> = Vec::new();
        extents.push(spatial_filtered_tex.desc().extent_2d());
        let pass = SimpleRenderPass::new_compute(
            "rtdgi spatial",
            "/assets/shaders/rtdgi/spatial_filter.hlsl",
        ).read(input_color).read(half_view_normal_tex).read(half_depth_tex).read(ssao_img).write(
            &mut spatial_filtered_tex,
        ).constants(Constants { extents, kernel_offsets: Some(self.spatial_resolve_offsets) });
        let extent = spatial_filtered_tex.desc().extent;
        proof {
            let p = pass@.launched(Dispatch::Compute { extent });
            assert(p.constants.extents =~= seq![spatial_filtered_tex.spec_desc().spec_extent_2d()]);
            let q = spatial_pass(
                input_color.spec_id() as int,
                *gbuffer_depth,
                ssao_img.spec_id() as int,
                spatial_filtered_tex.spec_id() as int,
                spatial_filtered_tex.spec_desc(),
                self@.spatial_resolve_offsets,
            );
            assert(p.bindings =~= q.bindings);
        }
        pass.dispatch(rg, extent);
        proof {
            let id = spatial_filtered_tex.spec_id() as int;
            assert(rg@.passes[rg@.passes.len() - 1].bindings[4].is_write());
            assert(rg@.passes[rg@.passes.len() - 1].writes(id));
        }
        spatial_filtered_tex
    }

    /// Declares the upsampler: a new full-resolution image and the pass that
    /// rebuilds it from the half-resolution `input_color`, with the
    /// renderer's kernel. The pass is guided by full-resolution geometry:
    /// the depth buffer, the geometry buffer and the full-resolution normals
    /// and depth, all as large as the image it writes; it also reads the
    /// ambient occlusion. The image comes back read-only: passes declared
    /// later can read it and cannot write it.
    ///
    /// The frame must hold every input, filled by then, and the geometry
    /// images must be of the sizes that belong together.
    pub fn upsample(
        &self,
        rg: &mut RenderGraph,
        input_color: &ImageHandle,
        gbuffer_depth: &GbufferDepth,
        ssao_img: &ImageHandle,
    ) -> (r: ReadOnlyImageHandle)
        requires
            old(rg).can_read(input_color),
            old(rg).can_read(&gbuffer_depth.gbuffer),
            old(rg).can_read(&gbuffer_depth.depth),
            old(rg).can_read(&gbuffer_depth.full_view_normal),
            old(rg).can_read(&gbuffer_depth.full_depth),
            old(rg).can_read(ssao_img),
            gbuffer_depth.resolutions_agree(),
        ensures
            r.spec_id() == old(rg)@.resources.len(),
            r.spec_desc() == upsampled_desc(gbuffer_depth.gbuffer.spec_desc()),
            final(rg)@.resources == old(rg)@.resources.push(
                ResourceView::Created { desc: r.spec_desc() },
            ),
            final(rg)@.passes == old(rg)@.passes.push(
                upsample_pass(
                    input_color.spec_id() as int,
                    *gbuffer_depth,
                    ssao_img.spec_id() as int,
                    r.spec_id() as int,
                    self@.spatial_resolve_offsets,
                ),
            ),
            final(rg)@.resources[gbuffer_depth.full_view_normal.spec_id() as int].image_desc()
                == Some(gbuffer_depth.full_view_normal.spec_desc()),
            final(rg)@.resources[gbuffer_depth.full_depth.spec_id() as int].image_desc() == Some(
                gbuffer_depth.full_depth.spec_desc(),
            ),
            gbuffer_depth.full_view_normal.spec_desc().extent == r.spec_desc().extent,
            gbuffer_depth.full_depth.spec_desc().extent == r.spec_desc().extent,
            readable(final(rg)@.resources, final(rg)@.passes, r.spec_id() as int),
            final(rg)@.extends(old(rg)@),
            final(rg).wf(),
    {
        let mut upsampled_tex = rg.create(
            gbuffer_depth.gbuffer.desc().format(FORMAT_R16G16B16A16_SFLOAT),
        );
        proof {
            lemma_handles_extend(old(rg)@, rg@);
        }

        let mut extents: Vec<Extent2> = Vec::new();
        extents.push(upsampled_tex.desc().extent_2d());
        let pass = SimpleRenderPass::new_compute(
            "rtdgi upsample",
            "/assets/shaders/rtdgi/upsample.hlsl",
        ).read(input_color).read_aspect(&gbuffer_depth.depth, IMAGE_ASPECT_DEPTH).read(
            &gbuffer_depth.gbuffer,
        ).read(&gbuffer_depth.full_view_normal).read(&gbuffer_depth.full_depth).read(
            ssao_img,
        ).write(&mut upsampled_tex).constants(
            Constants { extents, kernel_offsets: Some(self.spatial_resolve_offsets) },
        );
        let extent = upsampled_tex.desc().extent;
        proof {
            let p = pass@.launched(Dispatch::Compute { extent });
            let q = upsample_pass(
                input_color.spec_id() as int,
                *gbuffer_depth,
                ssao_img.spec_id() as int,
                upsampled_tex.spec_id() as int,
                self@.spatial_resolve_offsets,
            );
            assert(p.bindings =~= q.bindings);
            assert(p.constants.extents =~= q.constants.extents);
            assert(p == q);
        }
        pass.dispatch(rg, extent);
        proof {
            let last = rg@.passes[rg@.passes.len() - 1];
            assert(last.bindings[6].is_write());
            assert(last.writes(upsampled_tex.spec_id() as int));
        }
        upsampled_tex.into_read_only()
    }

    /// Declares one frame of diffuse global illumination: trace, temporal
    /// filter, spatial filter, upsample, in this order, each pass reading
    /// what the one before it wrote. Returns the full-resolution result,
    /// read-only. Both temporal pairs swap their images for the frame after;
    /// the sampler's buffers and the kernel stay as they are.
    ///
    /// The frame must hold every input, filled by then, and the
    /// acceleration structure, and must not yet hold an image of the
    /// renderer's two temporal pairs: a renderer declares one frame in one
    /// graph. The geometry images must be of the sizes that belong
    /// together: full resolution is the size of the geometry buffer, half
    /// resolution is half of it.
    pub fn render(
        &mut self,
        rg: &mut RenderGraph,
        gbuffer_depth: &GbufferDepth,
        reprojection_map: &ImageHandle,
        sky_cube: &ImageHandle,
        bindless_descriptor_set: u64,
        tlas: &AccelerationHandle,
        csgi_volume: &Csgi2Volume,
        ssao_img: &ImageHandle,
    ) -> (r: ReadOnlyImageHandle)
        requires
            old(rg).can_read(&gbuffer_depth.gbuffer),
            old(rg).can_read(&gbuffer_depth.depth),
            old(rg).can_read(&gbuffer_depth.full_view_normal),
            old(rg).can_read(&gbuffer_depth.full_depth),
            old(rg).can_read(&gbuffer_depth.half_view_normal),
            old(rg).can_read(&gbuffer_depth.half_depth),
            gbuffer_depth.resolutions_agree(),
            old(rg).can_read(reprojection_map),
            old(rg).can_read(sky_cube),
            old(rg).can_read(&csgi_volume.direct_cascade0),
            old(rg).can_read(&csgi_volume.indirect_cascade0),
            old(rg).can_read(ssao_img),
            old(rg).holds_acceleration(tlas),
            pair_absent(old(rg)@.resources, TEMPORAL_NAME@),
            pair_absent(old(rg)@.resources, CV_TEMPORAL_NAME@),
        ensures
            final(self)@ == old(self)@.after_frame(temporal_desc(*gbuffer_depth)),
            final(self).wf(),
            final(rg)@.resources == old(rg)@.resources + frame_resources(
                old(self)@,
                *gbuffer_depth,
            ),
            final(rg)@.passes == old(rg)@.passes + frame_passes(
                old(self)@,
                *gbuffer_depth,
                reprojection_map.spec_id() as int,
                sky_cube.spec_id() as int,
                bindless_descriptor_set,
                tlas.spec_id() as int,
                *csgi_volume,
                ssao_img.spec_id() as int,
                old(rg)@.resources.len() as int,
            ),
            r.spec_id() == old(rg)@.resources.len() + 11,
            r.spec_desc() == upsampled_desc(gbuffer_depth.gbuffer.spec_desc()),
            readable(final(rg)@.resources, final(rg)@.passes, r.spec_id() as int),
            final(rg)@.extends(old(rg)@),
            final(rg).wf(),
    {
        let ghost first = rg@.resources.len() as int;
        let (hit0_tex, _hit1_tex) = self.trace(
            rg,
            gbuffer_depth,
            sky_cube,
            bindless_descriptor_set,
            tlas,
            csgi_volume,
        );
        let ghost traced = rg@;
        proof {
            lemma_handles_extend(old(rg)@, traced);
            assert forall|i: int| 0 <= i < traced.resources.len() implies !(
            #[trigger] traced.resources[i]).belongs_to(TEMPORAL_NAME@) && !traced.resources[i]
                .belongs_to(CV_TEMPORAL_NAME@) by {
                if i < first {
                    assert(traced.resources[i] == old(rg)@.resources[i]);
                }
            }
        }

        let filtered_tex = self.temporal(
            rg,
            &hit0_tex,
            gbuffer_depth,
            reprojection_map,
            csgi_volume,
        );
        let ghost accumulated = rg@;
        proof {
            lemma_handles_extend(traced, accumulated);
        }
        let filtered_tex = self.spatial(rg, &filtered_tex, gbuffer_depth, ssao_img);
        let ghost filtered = rg@;
        proof {
            lemma_handles_extend(accumulated, filtered);
        }

        let upsampled_tex = self.upsample(rg, &filtered_tex, gbuffer_depth, ssao_img);
        proof {
            assert(rg@.resources =~= old(rg)@.resources + frame_resources(
                old(self)@,
                *gbuffer_depth,
            ));
            assert(rg@.passes =~= old(rg)@.passes + frame_passes(
                old(self)@,
                *gbuffer_depth,
                reprojection_map.spec_id() as int,
                sky_cube.spec_id() as int,
                bindless_descriptor_set,
                tlas.spec_id() as int,
                *csgi_volume,
                ssao_img.spec_id() as int,
                first,
            ));
        }
        upsampled_tex
    }
}

} // verus!
