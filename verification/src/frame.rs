//! One whole frame of the renderer on a graph of its own: the images that
//! the rest of the renderer provides come in by their descriptors, and the
//! frame graph comes out, ready for a back end.

use vstd::prelude::*;
use crate::graph::AccelerationHandle;
use crate::graph::ImageHandle;
use crate::graph::PassView;
use crate::graph::ReadOnlyImageHandle;
use crate::graph::RenderGraph;
use crate::graph::ResourceView;
use crate::image::ImageDesc;
use crate::rtdgi::check_extents;
use crate::rtdgi::extents_agree;
use crate::rtdgi::frame_passes;
use crate::rtdgi::frame_resources;
use crate::rtdgi::temporal_desc;
use crate::rtdgi::upsampled_desc;
use crate::rtdgi::Csgi2Volume;
use crate::rtdgi::GbufferDepth;
use crate::rtdgi::RtdgiRenderer;
use crate::rtdgi::RtdgiView;

verus! {

/// Number of resources that come into a frame from outside.
pub const INPUT_COUNT: usize = 12;

/// What the rest of the renderer provides for a frame: the descriptor of
/// each image that the passes read, and the bindless descriptor set.
#[derive(Clone, Copy, Debug, PartialEq, Eq, Structural)]
pub struct FrameInputs {
    pub gbuffer: ImageDesc,
    pub depth: ImageDesc,
    pub full_view_normal: ImageDesc,
    pub full_depth: ImageDesc,
    pub half_view_normal: ImageDesc,
    pub half_depth: ImageDesc,
    pub reprojection_map: ImageDesc,
    pub sky_cube: ImageDesc,
    pub direct_cascade0: ImageDesc,
    pub indirect_cascade0: ImageDesc,
    pub ssao: ImageDesc,
    pub bindless_descriptor_set: u64,
}

/// A planned frame: the graph, the handles of what came in from outside,
/// and the handle of the result.
#[derive(Debug)]
pub struct Frame {
    pub graph: RenderGraph,
    pub gbuffer_depth: GbufferDepth,
    pub reprojection_map: ImageHandle,
    pub sky_cube: ImageHandle,
    pub tlas: AccelerationHandle,
    pub csgi_volume: Csgi2Volume,
    pub ssao_img: ImageHandle,
    pub output: ReadOnlyImageHandle,
}

impl FrameInputs {
    /// The images are of the sizes that belong together: the depth buffer
    /// and the full-resolution normals and depth are as large as the
    /// geometry buffer, and the half-resolution normals and depth are half
    /// as large in every dimension, rounded up.
    pub open spec fn spec_resolutions_agree(&self) -> bool {
        extents_agree(
            self.gbuffer,
            self.depth,
            self.full_view_normal,
            self.full_depth,
            self.half_view_normal,
            self.half_depth,
        )
    }

    /// The images are of the sizes that belong together.
    #[verifier::when_used_as_spec(spec_resolutions_agree)]
    pub fn resolutions_agree(&self) -> (r: bool)
        ensures
            r == self.spec_resolutions_agree(),
    {
        check_extents(
            self.gbuffer,
            self.depth,
            self.full_view_normal,
            self.full_depth,
            self.half_view_normal,
            self.half_depth,
        )
    }
}

/// The resources that come into a frame from outside, in the order of
/// their indices: geometry buffer, depth buffer, full-resolution normals,
/// full-resolution depth, half-resolution normals, half-resolution depth,
/// reprojection map, sky, acceleration structure, direct and indirect
/// cascade, ambient occlusion.
pub open spec fn input_resources(inputs: FrameInputs) -> Seq<ResourceView> {
    seq![
        ResourceView::Imported { desc: inputs.gbuffer },
        ResourceView::Imported { desc: inputs.depth },
        ResourceView::Imported { desc: inputs.full_view_normal },
        ResourceView::Imported { desc: inputs.full_depth },
        ResourceView::Imported { desc: inputs.half_view_normal },
        ResourceView::Imported { desc: inputs.half_depth },
        ResourceView::Imported { desc: inputs.reprojection_map },
        ResourceView::Imported { desc: inputs.sky_cube },
        ResourceView::Acceleration,
        ResourceView::Imported { desc: inputs.direct_cascade0 },
        ResourceView::Imported { desc: inputs.indirect_cascade0 },
        ResourceView::Imported { desc: inputs.ssao },
    ]
}

impl Frame {
    /// The handles of the frame stand for the inputs, in the order of
    /// [`input_resources`], each with its descriptor.
    pub open spec fn handles_match(self, inputs: FrameInputs) -> bool {
        &&& self.gbuffer_depth.gbuffer.spec_id() == 0
        &&& self.gbuffer_depth.gbuffer.spec_desc() == inputs.gbuffer
        &&& self.gbuffer_depth.depth.spec_id() == 1
        &&& self.gbuffer_depth.depth.spec_desc() == inputs.depth
        &&& self.gbuffer_depth.full_view_normal.spec_id() == 2
        &&& self.gbuffer_depth.full_view_normal.spec_desc() == inputs.full_view_normal
        &&& self.gbuffer_depth.full_depth.spec_id() == 3
        &&& self.gbuffer_depth.full_depth.spec_desc() == inputs.full_depth
        &&& self.gbuffer_depth.half_view_normal.spec_id() == 4
        &&& self.gbuffer_depth.half_view_normal.spec_desc() == inputs.half_view_normal
        &&& self.gbuffer_depth.half_depth.spec_id() == 5
        &&& self.gbuffer_depth.half_depth.spec_desc() == inputs.half_depth
        &&& self.reprojection_map.spec_id() == 6
        &&& self.reprojection_map.spec_desc() == inputs.reprojection_map
        &&& self.sky_cube.spec_id() == 7
        &&& self.sky_cube.spec_desc() == inputs.sky_cube
        &&& self.tlas.spec_id() == 8
        &&& self.csgi_volume.direct_cascade0.spec_id() == 9
        &&& self.csgi_volume.direct_cascade0.spec_desc() == inputs.direct_cascade0
        &&& self.csgi_volume.indirect_cascade0.spec_id() == 10
        &&& self.csgi_volume.indirect_cascade0.spec_desc() == inputs.indirect_cascade0
        &&& self.ssao_img.spec_id() == 11
        &&& self.ssao_img.spec_desc() == inputs.ssao
    }

    /// The passes of the frame: those of the renderer in state `r`, over
    /// the handles of the frame.
    pub open spec fn expected_passes(self, r: RtdgiView, inputs: FrameInputs) -> Seq<PassView> {
        frame_passes(
            r,
            self.gbuffer_depth,
            self.reprojection_map.spec_id() as int,
            self.sky_cube.spec_id() as int,
            inputs.bindless_descriptor_set,
            self.tlas.spec_id() as int,
            self.csgi_volume,
            self.ssao_img.spec_id() as int,
            INPUT_COUNT as int,
        )
    }
}

/// Plans one frame on a graph of its own: brings in the inputs, then lets
/// the renderer declare its resources and its four passes. The renderer's
/// temporal pairs swap their images for the frame after.
///
/// The graph holds the twelve inputs, then the twelve resources of the
/// renderer, and the four passes of the renderer; the result is the last
/// resource.
///
/// A frame is planned exactly when the images of the geometry are of the
/// sizes that belong together: full resolution is the size of the geometry
/// buffer, half resolution is half of it. Otherwise there is no frame, and
/// the renderer stays as it was.
pub fn plan_frame(renderer: &mut RtdgiRenderer, inputs: &FrameInputs) -> (r: Option<Frame>)
    ensures
        r is Some <==> inputs.resolutions_agree(),
        r is None ==> final(renderer)@ == old(renderer)@,
        r matches Some(frame) ==> {
            &&& frame.handles_match(*inputs)
            &&& frame.gbuffer_depth.resolutions_agree()
            &&& frame.graph@.resources == input_resources(*inputs) + frame_resources(
                old(renderer)@,
                frame.gbuffer_depth,
            )
            &&& frame.graph@.passes == frame.expected_passes(old(renderer)@, *inputs)
            &&& frame.output.spec_id() == INPUT_COUNT + 11
            &&& frame.output.spec_desc() == upsampled_desc(inputs.gbuffer)
            &&& frame.graph.wf()
            &&& final(renderer)@ == old(renderer)@.after_frame(temporal_desc(frame.gbuffer_depth))
        },
        final(renderer).wf(),
{
    if !inputs.resolutions_agree() {
        proof {
            use_type_invariant(&*renderer);
        }
        return None;
    }
    let mut graph = RenderGraph::new();
    let gbuffer = graph.import_image(inputs.gbuffer);
    let depth = graph.import_image(inputs.depth);
    let full_view_normal = graph.import_image(inputs.full_view_normal);
    let full_depth = graph.import_image(inputs.full_depth);
    let half_view_normal = graph.import_image(inputs.half_view_normal);
    let half_depth = graph.import_image(inputs.half_depth);
    let reprojection_map = graph.import_image(inputs.reprojection_map);
    let sky_cube = graph.import_image(inputs.sky_cube);
    let tlas = graph.import_acceleration();
    let direct_cascade0 = graph.import_image(inputs.direct_cascade0);
    let indirect_cascade0 = graph.import_image(inputs.indirect_cascade0);
    let ssao_img = graph.import_image(inputs.ssao);
    assert(graph@.resources =~= input_resources(*inputs));
    assert(graph@.passes =~= Seq::<PassView>::empty());

    let gbuffer_depth = GbufferDepth {
        gbuffer,
        depth,
        full_view_normal,
        full_depth,
        half_view_normal,
        half_depth,
    };
    let csgi_volume = Csgi2Volume { direct_cascade0, indirect_cascade0 };
    let output = renderer.render(
        &mut graph,
        &gbuffer_depth,
        &reprojection_map,
        &sky_cube,
        inputs.bindless_descriptor_set,
        &tlas,
        &csgi_volume,
        &ssao_img,
    );
    let frame = Frame {
        graph,
        gbuffer_depth,
        reprojection_map,
        sky_cube,
        tlas,
        csgi_volume,
        ssao_img,
        output,
    };
    assert(frame.graph@.passes =~= frame.expected_passes(old(renderer)@, *inputs));
    Some(frame)
}

} // verus!
