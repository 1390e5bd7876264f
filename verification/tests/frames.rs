use rtdgi::frame::plan_frame;
use rtdgi::frame::Frame;
use rtdgi::frame::FrameInputs;
use rtdgi::frame::INPUT_COUNT;
use rtdgi::graph::AccessType;
use rtdgi::graph::Binding;
use rtdgi::graph::BindingKind;
use rtdgi::graph::Constants;
use rtdgi::graph::Dispatch;
use rtdgi::graph::KernelOffset;
use rtdgi::graph::Pass;
use rtdgi::graph::RawDescriptorSet;
use rtdgi::graph::RenderGraph;
use rtdgi::graph::Resource;
use rtdgi::graph::Shaders;
use rtdgi::graph::TemporalRole;
use rtdgi::image::BufferDesc;
use rtdgi::image::Extent2;
use rtdgi::image::Extent3;
use rtdgi::image::ImageDesc;
use rtdgi::image::ImageType;
use rtdgi::image::IMAGE_ASPECT_DEPTH;
use rtdgi::lut::LutKind;
use rtdgi::rtdgi::check_extents;
use rtdgi::rtdgi::Csgi2Volume;
use rtdgi::rtdgi::GbufferDepth;
use rtdgi::rtdgi::RtdgiRenderer;
use rtdgi::rtdgi::CV_TEMPORAL_NAME;
use rtdgi::rtdgi::TEMPORAL_NAME;

static KERNEL: [KernelOffset; 3] = [
    KernelOffset { x: 0, y: 0, z: 0, w: 0 },
    KernelOffset { x: -1, y: -1, z: 0, w: 0 },
    KernelOffset { x: 2, y: -1, z: 0, w: 0 },
];

fn image(format: i32, usage: u32, width: u32, height: u32) -> ImageDesc {
    ImageDesc::new_2d(format, Extent2 { width, height }).usage(usage)
}

fn inputs(width: u32, height: u32) -> FrameInputs {
    let half = image(0, 0, width, height).half_res().extent_2d();
    FrameInputs {
        gbuffer: image(107, 0x1c, width, height),
        depth: image(126, 0x24, width, height),
        full_view_normal: image(37, 0xc, width, height),
        full_depth: image(100, 0xc, width, height),
        half_view_normal: image(37, 0xc, half.width, half.height),
        half_depth: image(100, 0xc, half.width, half.height),
        reprojection_map: image(97, 0xc, width, height),
        sky_cube: ImageDesc { image_type: ImageType::Cube, ..image(97, 0xc, 64, 64) },
        direct_cascade0: ImageDesc {
            image_type: ImageType::Tex3d,
            extent: Extent3 { width: 32, height: 32, depth: 32 },
            ..image(122, 0xc, 32, 32)
        },
        indirect_cascade0: ImageDesc {
            image_type: ImageType::Tex3d,
            extent: Extent3 { width: 32, height: 32, depth: 32 },
            ..image(122, 0xc, 32, 32)
        },
        ssao: image(9, 0xc, width, height),
        bindless_descriptor_set: 0xabcd,
    }
}

fn temporal(
    name: &'static str,
    slot: u8,
    desc: ImageDesc,
    role: TemporalRole,
    fresh: bool,
) -> Option<Resource> {
    Some(Resource::Temporal { name, slot, desc, role, fresh })
}

fn read(resource: usize) -> Binding {
    Binding { resource, kind: BindingKind::Read }
}

fn write(resource: usize) -> Binding {
    Binding { resource, kind: BindingKind::Write }
}

fn depth_of(resource: usize) -> Binding {
    Binding { resource, kind: BindingKind::ReadAspect { aspect: IMAGE_ASPECT_DEPTH } }
}

fn lut(kind: LutKind, entries: usize) -> Option<Resource> {
    Some(Resource::Buffer {
        kind,
        buffer: BufferDesc { size: entries * 4, usage: 0x20 },
        access: AccessType::ComputeShaderReadSampledImageOrUniformTexelBuffer,
    })
}

fn first_frame() -> (RtdgiRenderer, Frame) {
    let mut renderer = RtdgiRenderer::new(&KERNEL);
    let frame = plan_frame(&mut renderer, &inputs(1921, 1080)).expect("frame");
    (renderer, frame)
}

#[test]
fn new_renderer_has_nothing_allocated() {
    let renderer = RtdgiRenderer::new(&KERNEL);
    assert_eq!(renderer.temporal_tex().name(), "rtdgi.final");
    assert_eq!(renderer.cv_temporal_tex().name(), "rtdgi.cv");
    assert_eq!(TEMPORAL_NAME, "rtdgi.final");
    assert_eq!(CV_TEMPORAL_NAME, "rtdgi.cv");
    assert_eq!(renderer.temporal_tex().desc(), None);
    assert_eq!(renderer.cv_temporal_tex().desc(), None);
    assert_eq!(renderer.temporal_tex().output_slot(), 0);
    assert_eq!(renderer.cv_temporal_tex().output_slot(), 0);
    assert_eq!(renderer.spatial_resolve_offsets(), &KERNEL[..]);
    assert_eq!(renderer.luts().sobol_buf().desc().size, 262144);
}

#[test]
fn temporal_tex_desc_is_sampled_and_stored() {
    assert_eq!(
        RtdgiRenderer::temporal_tex_desc(Extent2 { width: 961, height: 540 }),
        ImageDesc {
            image_type: ImageType::Tex2d,
            usage: 0xc,
            flags: 0,
            format: 97,
            extent: Extent3 { width: 961, height: 540, depth: 1 },
            tiling: 0,
            mip_levels: 1,
            array_elements: 1,
        }
    );
}

#[test]
fn frame_brings_in_the_inputs_first() {
    let (_renderer, frame) = first_frame();
    let i = inputs(1921, 1080);
    assert_eq!(INPUT_COUNT, 12);
    let rg = &frame.graph;
    assert_eq!(rg.resource(0), Some(Resource::Imported { desc: i.gbuffer }));
    assert_eq!(rg.resource(1), Some(Resource::Imported { desc: i.depth }));
    assert_eq!(rg.resource(2), Some(Resource::Imported { desc: i.full_view_normal }));
    assert_eq!(rg.resource(3), Some(Resource::Imported { desc: i.full_depth }));
    assert_eq!(rg.resource(4), Some(Resource::Imported { desc: i.half_view_normal }));
    assert_eq!(rg.resource(5), Some(Resource::Imported { desc: i.half_depth }));
    assert_eq!(rg.resource(6), Some(Resource::Imported { desc: i.reprojection_map }));
    assert_eq!(rg.resource(7), Some(Resource::Imported { desc: i.sky_cube }));
    assert_eq!(rg.resource(8), Some(Resource::Acceleration));
    assert_eq!(rg.resource(9), Some(Resource::Imported { desc: i.direct_cascade0 }));
    assert_eq!(rg.resource(10), Some(Resource::Imported { desc: i.indirect_cascade0 }));
    assert_eq!(rg.resource(11), Some(Resource::Imported { desc: i.ssao }));
    assert_eq!(frame.gbuffer_depth.gbuffer.id(), 0);
    assert_eq!(frame.gbuffer_depth.depth.id(), 1);
    assert_eq!(frame.gbuffer_depth.full_view_normal.id(), 2);
    assert_eq!(frame.gbuffer_depth.full_depth.id(), 3);
    assert_eq!(frame.gbuffer_depth.half_view_normal.id(), 4);
    assert_eq!(frame.gbuffer_depth.half_depth.id(), 5);
    assert_eq!(frame.reprojection_map.id(), 6);
    assert_eq!(frame.sky_cube.id(), 7);
    assert_eq!(frame.tlas.id(), 8);
    assert_eq!(frame.csgi_volume.direct_cascade0.id(), 9);
    assert_eq!(frame.csgi_volume.indirect_cascade0.id(), 10);
    assert_eq!(frame.ssao_img.id(), 11);
    assert_eq!(frame.gbuffer_depth.gbuffer.desc(), i.gbuffer);
    assert_eq!(frame.gbuffer_depth.full_view_normal.desc(), i.full_view_normal);
    assert_eq!(frame.gbuffer_depth.full_depth.desc(), i.full_depth);
    assert_eq!(frame.ssao_img.desc(), i.ssao);
    assert!(frame.gbuffer_depth.resolutions_agree());
}

#[test]
fn frame_adds_twelve_resources() {
    let (_renderer, frame) = first_frame();
    let rg = &frame.graph;
    let hit = image(97, 0, 961, 540);
    let temporal_desc = image(97, 0xc, 961, 540);
    let upsampled = image(97, 0x1c, 1921, 1080);
    assert_eq!(rg.resource_count(), 24);
    assert_eq!(rg.resource(12), Some(Resource::Created { desc: hit }));
    assert_eq!(rg.resource(13), Some(Resource::Created { desc: hit }));
    assert_eq!(rg.resource(14), lut(LutKind::RankingTile, 131072));
    assert_eq!(rg.resource(15), lut(LutKind::ScramblingTile, 131072));
    assert_eq!(rg.resource(16), lut(LutKind::Sobol, 65536));
    assert_eq!(
        rg.resource(17),
        temporal("rtdgi.final", 0, temporal_desc, TemporalRole::Output, true)
    );
    assert_eq!(
        rg.resource(18),
        temporal("rtdgi.final", 1, temporal_desc, TemporalRole::History, true)
    );
    assert_eq!(rg.resource(19), temporal("rtdgi.cv", 0, temporal_desc, TemporalRole::Output, true));
    assert_eq!(rg.resource(20), temporal("rtdgi.cv", 1, temporal_desc, TemporalRole::History, true));
    assert_eq!(rg.resource(21), Some(Resource::Created { desc: hit }));
    assert_eq!(rg.resource(22), Some(Resource::Created { desc: temporal_desc }));
    assert_eq!(rg.resource(23), Some(Resource::Created { desc: upsampled }));
    assert_eq!(rg.resource(24), None);
}

#[test]
fn frame_result_is_the_full_resolution_image() {
    let (_renderer, frame) = first_frame();
    assert_eq!(frame.output.id(), 23);
    assert_eq!(frame.output.desc(), image(97, 0x1c, 1921, 1080));
    assert_eq!(frame.output.desc().extent, inputs(1921, 1080).gbuffer.extent);
}

#[test]
fn trace_pass_is_declared_first() {
    let (_renderer, frame) = first_frame();
    assert_eq!(frame.graph.pass_count(), 4);
    assert_eq!(
        frame.graph.pass(0),
        Some(&Pass {
            name: "rtdgi trace",
            shaders: Shaders::RayTracing {
                rgen: "/assets/shaders/rtdgi/trace_diffuse.rgen.hlsl",
                miss: vec![
                    "/assets/shaders/rt/triangle.rmiss.hlsl",
                    "/assets/shaders/rt/shadow.rmiss.hlsl",
                ],
                hit: vec!["/assets/shaders/rt/triangle.rchit.hlsl"],
            },
            bindings: vec![
                read(0),
                depth_of(1),
                read(14),
                read(15),
                read(16),
                write(12),
                write(13),
                read(9),
                read(10),
                read(7),
            ],
            constants: Constants {
                extents: vec![Extent2 { width: 1921, height: 1080 }],
                kernel_offsets: None,
            },
            raw_descriptor_set: Some(RawDescriptorSet { index: 1, set: 0xabcd }),
            dispatch: Dispatch::TraceRays {
                tlas: 8,
                extent: Extent3 { width: 961, height: 540, depth: 1 },
            },
        })
    );
}

#[test]
fn temporal_pass_is_declared_second() {
    let (_renderer, frame) = first_frame();
    assert_eq!(
        frame.graph.pass(1),
        Some(&Pass {
            name: "rtdgi temporal",
            shaders: Shaders::Compute { path: "/assets/shaders/rtdgi/temporal_filter.hlsl" },
            bindings: vec![
                read(12),
                read(18),
                read(20),
                read(6),
                read(4),
                read(5),
                read(9),
                read(10),
                write(17),
                write(19),
                write(21),
            ],
            constants: Constants {
                extents: vec![
                    Extent2 { width: 961, height: 540 },
                    Extent2 { width: 1921, height: 1080 },
                ],
                kernel_offsets: None,
            },
            raw_descriptor_set: None,
            dispatch: Dispatch::Compute { extent: Extent3 { width: 961, height: 540, depth: 1 } },
        })
    );
}

#[test]
fn spatial_pass_is_declared_third() {
    let (_renderer, frame) = first_frame();
    assert_eq!(
        frame.graph.pass(2),
        Some(&Pass {
            name: "rtdgi spatial",
            shaders: Shaders::Compute { path: "/assets/shaders/rtdgi/spatial_filter.hlsl" },
            bindings: vec![read(21), read(4), read(5), read(11), write(22)],
            constants: Constants {
                extents: vec![Extent2 { width: 961, height: 540 }],
                kernel_offsets: Some(&KERNEL),
            },
            raw_descriptor_set: None,
            dispatch: Dispatch::Compute { extent: Extent3 { width: 961, height: 540, depth: 1 } },
        })
    );
}

#[test]
fn upsample_pass_is_declared_last() {
    let (_renderer, frame) = first_frame();
    assert_eq!(
        frame.graph.pass(3),
        Some(&Pass {
            name: "rtdgi upsample",
            shaders: Shaders::Compute { path: "/assets/shaders/rtdgi/upsample.hlsl" },
            bindings: vec![read(22), depth_of(1), read(0), read(2), read(3), read(11), write(23)],
            constants: Constants {
                extents: vec![Extent2 { width: 1921, height: 1080 }],
                kernel_offsets: Some(&KERNEL),
            },
            raw_descriptor_set: None,
            dispatch: Dispatch::Compute {
                extent: Extent3 { width: 1921, height: 1080, depth: 1 },
            },
        })
    );
    assert!(frame.graph.pass(4).is_none());
}

#[test]
fn spatial_filter_and_upsampler_share_the_kernel() {
    let (renderer, frame) = first_frame();
    let spatial = frame.graph.pass(2).map(|p| p.constants.kernel_offsets);
    let upsample = frame.graph.pass(3).map(|p| p.constants.kernel_offsets);
    assert_eq!(spatial, upsample);
    assert_eq!(spatial, Some(Some(renderer.spatial_resolve_offsets())));
    assert_eq!(spatial, Some(Some(&KERNEL[..])));
    assert_eq!(frame.graph.pass(0).map(|p| p.constants.kernel_offsets), Some(None));
    assert_eq!(frame.graph.pass(1).map(|p| p.constants.kernel_offsets), Some(None));
}

#[test]
fn every_read_of_a_frame_image_follows_a_write() {
    let (_renderer, frame) = first_frame();
    let rg = &frame.graph;
    let mut written = vec![false; rg.resource_count()];
    for k in 0..rg.pass_count() {
        let pass = rg.pass(k).expect("pass");
        for binding in &pass.bindings {
            let writable = matches!(
                rg.resource(binding.resource),
                Some(Resource::Created { .. })
                    | Some(Resource::Temporal { role: TemporalRole::Output, .. })
            );
            match binding.kind {
                BindingKind::Write => assert!(writable),
                _ => assert!(!writable || written[binding.resource]),
            }
        }
        for binding in &pass.bindings {
            if binding.kind == BindingKind::Write {
                assert!(pass
                    .bindings
                    .iter()
                    .all(|b| b.kind == BindingKind::Write || b.resource != binding.resource));
                written[binding.resource] = true;
            }
        }
    }
}

#[test]
fn sampler_buffers_are_read_by_the_trace_alone() {
    let (_renderer, frame) = first_frame();
    for id in 14..17 {
        for k in 0..4 {
            let pass = frame.graph.pass(k).expect("pass");
            let reads = pass.bindings.iter().any(|b| *b == read(id));
            let writes = pass.bindings.iter().any(|b| *b == write(id));
            assert_eq!(reads, k == 0);
            assert!(!writes);
        }
    }
}

#[test]
fn frame_leaves_buffers_and_kernel_alone() {
    let fresh = RtdgiRenderer::new(&KERNEL);
    let (renderer, _frame) = first_frame();
    assert_eq!(renderer.luts(), fresh.luts());
    assert_eq!(renderer.spatial_resolve_offsets(), fresh.spatial_resolve_offsets());
}

#[test]
fn frame_swaps_both_pairs() {
    let (renderer, _frame) = first_frame();
    let desc = image(97, 0xc, 961, 540);
    assert_eq!(renderer.temporal_tex().desc(), Some(desc));
    assert_eq!(renderer.cv_temporal_tex().desc(), Some(desc));
    assert_eq!(renderer.temporal_tex().output_slot(), 1);
    assert_eq!(renderer.cv_temporal_tex().output_slot(), 1);
}

#[test]
fn second_frame_reads_the_history_of_the_first() {
    let (mut renderer, _first) = first_frame();
    let second = plan_frame(&mut renderer, &inputs(1921, 1080)).expect("frame");
    let desc = image(97, 0xc, 961, 540);
    let rg = &second.graph;
    assert_eq!(rg.resource(17), temporal("rtdgi.final", 1, desc, TemporalRole::Output, false));
    assert_eq!(rg.resource(18), temporal("rtdgi.final", 0, desc, TemporalRole::History, false));
    assert_eq!(rg.resource(19), temporal("rtdgi.cv", 1, desc, TemporalRole::Output, false));
    assert_eq!(rg.resource(20), temporal("rtdgi.cv", 0, desc, TemporalRole::History, false));
    assert_eq!(renderer.temporal_tex().output_slot(), 0);
}

#[test]
fn passes_are_the_same_in_every_frame() {
    let (mut renderer, first) = first_frame();
    for _ in 0..8 {
        let next = plan_frame(&mut renderer, &inputs(1921, 1080)).expect("frame");
        assert_eq!(next.graph.pass_count(), 4);
        for k in 0..4 {
            assert_eq!(next.graph.pass(k), first.graph.pass(k));
        }
        assert_eq!(next.output, first.output);
    }
}

#[test]
fn resized_frame_starts_the_history_over() {
    let (mut renderer, _first) = first_frame();
    plan_frame(&mut renderer, &inputs(1921, 1080)).expect("frame");
    let resized = plan_frame(&mut renderer, &inputs(1280, 720)).expect("frame");
    let desc = image(97, 0xc, 640, 360);
    let rg = &resized.graph;
    assert_eq!(rg.resource(17), temporal("rtdgi.final", 0, desc, TemporalRole::Output, true));
    assert_eq!(rg.resource(18), temporal("rtdgi.final", 1, desc, TemporalRole::History, true));
    assert_eq!(rg.resource(19), temporal("rtdgi.cv", 0, desc, TemporalRole::Output, true));
    assert_eq!(rg.resource(20), temporal("rtdgi.cv", 1, desc, TemporalRole::History, true));
    assert_eq!(renderer.temporal_tex().desc(), Some(desc));
    assert_eq!(resized.output.desc().extent, Extent3 { width: 1280, height: 720, depth: 1 });
    let after = plan_frame(&mut renderer, &inputs(1280, 720)).expect("frame");
    assert_eq!(
        after.graph.resource(18),
        temporal("rtdgi.final", 0, desc, TemporalRole::History, false)
    );
}

#[test]
fn zero_extent_frame_is_planned_like_any_other() {
    let mut renderer = RtdgiRenderer::new(&KERNEL);
    let frame = plan_frame(&mut renderer, &inputs(0, 0)).expect("frame");
    assert_eq!(frame.graph.resource_count(), 24);
    assert_eq!(frame.graph.pass_count(), 4);
    assert_eq!(frame.output.desc().extent, Extent3 { width: 0, height: 0, depth: 1 });
    assert_eq!(
        frame.graph.pass(0).map(|p| p.dispatch),
        Some(Dispatch::TraceRays { tlas: 8, extent: Extent3 { width: 1, height: 1, depth: 1 } })
    );
    assert_eq!(
        frame.graph.pass(3).map(|p| p.dispatch),
        Some(Dispatch::Compute { extent: Extent3 { width: 0, height: 0, depth: 1 } })
    );
}

#[test]
fn upsampler_reads_full_resolution_images_only() {
    let (_renderer, frame) = first_frame();
    let rg = &frame.graph;
    let pass = rg.pass(3).expect("pass");
    assert_eq!(pass.name, "rtdgi upsample");
    let full = frame.output.desc().extent;
    assert_eq!(full, Extent3 { width: 1921, height: 1080, depth: 1 });
    let extent_of = |id: usize| match rg.resource(id) {
        Some(Resource::Imported { desc }) | Some(Resource::Created { desc }) => desc.extent,
        other => panic!("not an image: {:?}", other),
    };
    assert_eq!(pass.bindings[3], read(frame.gbuffer_depth.full_view_normal.id()));
    assert_eq!(pass.bindings[4], read(frame.gbuffer_depth.full_depth.id()));
    for binding in &pass.bindings[1..] {
        assert_eq!(extent_of(binding.resource), full);
    }
    assert_eq!(extent_of(pass.bindings[0].resource), Extent3 { width: 961, height: 540, depth: 1 });
    let half_normal = frame.gbuffer_depth.half_view_normal.id();
    let half_depth = frame.gbuffer_depth.half_depth.id();
    assert!(pass.bindings.iter().all(|b| b.resource != half_normal && b.resource != half_depth));
    let writes: Vec<usize> = pass
        .bindings
        .iter()
        .filter(|b| b.kind == BindingKind::Write)
        .map(|b| b.resource)
        .collect();
    assert_eq!(writes, vec![frame.output.id()]);
    for k in 0..3 {
        let earlier = rg.pass(k).expect("pass");
        assert!(earlier.bindings.iter().all(|b| *b != write(frame.output.id())));
    }
}

#[test]
fn spatial_filter_reads_the_half_resolution_images() {
    let (_renderer, frame) = first_frame();
    let pass = frame.graph.pass(2).expect("pass");
    assert_eq!(pass.bindings[1], read(frame.gbuffer_depth.half_view_normal.id()));
    assert_eq!(pass.bindings[2], read(frame.gbuffer_depth.half_depth.id()));
}

#[test]
fn no_frame_where_full_resolution_normals_are_of_another_size() {
    let (mut renderer, _first) = first_frame();
    let mut bad = inputs(1921, 1080);
    bad.full_view_normal = image(37, 0xc, 961, 540);
    assert!(!bad.resolutions_agree());
    assert!(plan_frame(&mut renderer, &bad).is_none());
    assert_eq!(renderer.temporal_tex().output_slot(), 1);
    assert_eq!(renderer.cv_temporal_tex().output_slot(), 1);
    assert_eq!(renderer.temporal_tex().desc(), Some(image(97, 0xc, 961, 540)));
    let next = plan_frame(&mut renderer, &inputs(1921, 1080)).expect("frame");
    assert_eq!(
        next.graph.resource(18),
        temporal("rtdgi.final", 0, image(97, 0xc, 961, 540), TemporalRole::History, false)
    );
}

#[test]
fn no_frame_where_half_resolution_images_are_not_half() {
    let mut renderer = RtdgiRenderer::new(&KERNEL);
    let mut bad = inputs(1921, 1080);
    bad.half_view_normal = image(37, 0xc, 960, 540);
    assert!(!bad.resolutions_agree());
    assert!(plan_frame(&mut renderer, &bad).is_none());
    let mut bad = inputs(1921, 1080);
    bad.half_depth = image(100, 0xc, 1921, 1080);
    assert!(plan_frame(&mut renderer, &bad).is_none());
    let mut bad = inputs(1921, 1080);
    bad.depth = image(126, 0x24, 1920, 1080);
    assert!(plan_frame(&mut renderer, &bad).is_none());
    assert_eq!(renderer.temporal_tex().desc(), None);
    assert_eq!(renderer.cv_temporal_tex().output_slot(), 0);
}

#[test]
fn extents_of_the_geometry_are_checked_one_by_one() {
    let i = inputs(7, 5);
    assert_eq!(i.half_view_normal.extent, Extent3 { width: 4, height: 3, depth: 1 });
    assert!(check_extents(
        i.gbuffer,
        i.depth,
        i.full_view_normal,
        i.full_depth,
        i.half_view_normal,
        i.half_depth
    ));
    let floor = image(37, 0xc, 3, 2);
    assert!(!check_extents(i.gbuffer, i.depth, i.full_view_normal, i.full_depth, floor, i.half_depth));
    assert!(!check_extents(
        i.gbuffer,
        i.depth,
        i.full_view_normal,
        i.full_depth,
        i.half_view_normal,
        floor
    ));
    assert!(!check_extents(
        i.gbuffer,
        i.depth,
        i.half_view_normal,
        i.full_depth,
        i.half_view_normal,
        i.half_depth
    ));
    assert!(!check_extents(
        i.gbuffer,
        i.depth,
        i.full_view_normal,
        i.half_depth,
        i.half_view_normal,
        i.half_depth
    ));
    assert!(!check_extents(
        i.gbuffer,
        i.half_depth,
        i.full_view_normal,
        i.full_depth,
        i.half_view_normal,
        i.half_depth
    ));
}

#[test]
fn working_images_are_of_half_resolution() {
    let (_renderer, frame) = first_frame();
    let rg = &frame.graph;
    let half = Extent3 { width: 961, height: 540, depth: 1 };
    for id in [12usize, 13, 17, 18, 19, 20, 21, 22] {
        let extent = match rg.resource(id) {
            Some(Resource::Created { desc }) | Some(Resource::Temporal { desc, .. }) => desc.extent,
            other => panic!("not an image of the frame: {:?}", other),
        };
        assert_eq!(extent, half);
    }
    assert_eq!(frame.gbuffer_depth.half_view_normal.desc().extent, half);
    assert_eq!(frame.gbuffer_depth.half_depth.desc().extent, half);
}

#[test]
fn no_frame_where_full_resolution_depth_is_of_another_size() {
    let mut renderer = RtdgiRenderer::new(&KERNEL);
    let mut bad = inputs(64, 32);
    bad.full_depth = image(100, 0xc, 64, 31);
    assert!(plan_frame(&mut renderer, &bad).is_none());
    assert_eq!(renderer.temporal_tex().desc(), None);
    assert_eq!(renderer.temporal_tex().output_slot(), 0);
    assert!(inputs(64, 32).resolutions_agree());
    assert!(plan_frame(&mut renderer, &inputs(64, 32)).is_some());
}

#[test]
fn render_adds_to_a_graph_that_holds_other_work() {
    let mut rg = RenderGraph::new();
    let i = inputs(64, 32);
    let unrelated = rg.create(image(97, 0xc, 4, 4));
    let tlas = rg.import_acceleration();
    let gbuffer_depth = GbufferDepth {
        gbuffer: rg.import_image(i.gbuffer),
        depth: rg.import_image(i.depth),
        full_view_normal: rg.import_image(i.full_view_normal),
        full_depth: rg.import_image(i.full_depth),
        half_view_normal: rg.import_image(i.half_view_normal),
        half_depth: rg.import_image(i.half_depth),
    };
    let reprojection_map = rg.import_image(i.reprojection_map);
    let sky_cube = rg.import_image(i.sky_cube);
    let csgi_volume = Csgi2Volume {
        direct_cascade0: rg.import_image(i.direct_cascade0),
        indirect_cascade0: rg.import_image(i.indirect_cascade0),
    };
    let ssao_img = rg.import_image(i.ssao);
    assert_eq!(unrelated.id(), 0);
    let mut renderer = RtdgiRenderer::new(&KERNEL);
    let output = renderer.render(
        &mut rg,
        &gbuffer_depth,
        &reprojection_map,
        &sky_cube,
        5,
        &tlas,
        &csgi_volume,
        &ssao_img,
    );
    assert_eq!(rg.resource_count(), 13 + 12);
    assert_eq!(output.id(), 24);
    assert_eq!(output.desc(), image(97, 0x1c, 64, 32));
    assert_eq!(
        rg.pass(0).map(|p| p.dispatch),
        Some(Dispatch::TraceRays { tlas: 1, extent: Extent3 { width: 32, height: 16, depth: 1 } })
    );
    assert_eq!(
        rg.pass(1).map(|p| p.bindings.clone()),
        Some(vec![
            read(13),
            read(19),
            read(21),
            read(8),
            read(6),
            read(7),
            read(10),
            read(11),
            write(18),
            write(20),
            write(22),
        ])
    );
    assert_eq!(
        rg.pass(3).map(|p| p.bindings.clone()),
        Some(vec![read(23), depth_of(3), read(2), read(4), read(5), read(12), write(24)])
    );
}

#[test]
fn stages_can_be_declared_one_by_one() {
    let mut rg = RenderGraph::new();
    let i = inputs(64, 32);
    let gbuffer_depth = GbufferDepth {
        gbuffer: rg.import_image(i.gbuffer),
        depth: rg.import_image(i.depth),
        full_view_normal: rg.import_image(i.full_view_normal),
        full_depth: rg.import_image(i.full_depth),
        half_view_normal: rg.import_image(i.half_view_normal),
        half_depth: rg.import_image(i.half_depth),
    };
    let reprojection_map = rg.import_image(i.reprojection_map);
    let sky_cube = rg.import_image(i.sky_cube);
    let tlas = rg.import_acceleration();
    let csgi_volume = Csgi2Volume {
        direct_cascade0: rg.import_image(i.direct_cascade0),
        indirect_cascade0: rg.import_image(i.indirect_cascade0),
    };
    let ssao_img = rg.import_image(i.ssao);
    let mut renderer = RtdgiRenderer::new(&KERNEL);
    let (hit0, hit1) = renderer.trace(&mut rg, &gbuffer_depth, &sky_cube, 9, &tlas, &csgi_volume);
    assert_eq!((hit0.id(), hit1.id()), (12, 13));
    assert_eq!(hit0.desc(), image(97, 0, 32, 16));
    let accumulated =
        renderer.temporal(&mut rg, &hit0, &gbuffer_depth, &reprojection_map, &csgi_volume);
    assert_eq!(accumulated.id(), 21);
    assert_eq!(accumulated.desc(), image(97, 0, 32, 16));
    let filtered = renderer.spatial(&mut rg, &accumulated, &gbuffer_depth, &ssao_img);
    assert_eq!(filtered.id(), 22);
    assert_eq!(filtered.desc(), image(97, 0xc, 32, 16));
    let output = renderer.upsample(&mut rg, &filtered, &gbuffer_depth, &ssao_img);
    assert_eq!(output.id(), 23);
    assert_eq!(output.desc(), image(97, 0x1c, 64, 32));
    assert_eq!(rg.pass_count(), 4);
    let spatial = rg.pass(2).map(|p| p.constants.kernel_offsets);
    let upsample = rg.pass(3).map(|p| p.constants.kernel_offsets);
    assert_eq!(spatial, Some(Some(&KERNEL[..])));
    assert_eq!(upsample, spatial);
}

#[test]
fn given_up_frame_is_planned_again_as_it_was() {
    let (mut renderer, _first) = first_frame();
    let before = renderer.checkpoint();
    let given_up = plan_frame(&mut renderer, &inputs(1921, 1080)).expect("frame");
    assert_eq!(renderer.temporal_tex().output_slot(), 0);
    renderer.roll_back(before);
    assert_eq!(renderer.temporal_tex().output_slot(), 1);
    assert_eq!(renderer.cv_temporal_tex().output_slot(), 1);
    let retried = plan_frame(&mut renderer, &inputs(1921, 1080)).expect("frame");
    assert_eq!(retried.graph, given_up.graph);
    assert_eq!(retried.output, given_up.output);
    assert_eq!(
        retried.graph.resource(18),
        temporal("rtdgi.final", 0, image(97, 0xc, 961, 540), TemporalRole::History, false)
    );
}

#[test]
fn given_up_first_frame_leaves_nothing_allocated() {
    let mut renderer = RtdgiRenderer::new(&KERNEL);
    let before = renderer.checkpoint();
    plan_frame(&mut renderer, &inputs(64, 64)).expect("frame");
    renderer.roll_back(before);
    assert_eq!(renderer.temporal_tex().desc(), None);
    assert_eq!(renderer.cv_temporal_tex().desc(), None);
    let frame = plan_frame(&mut renderer, &inputs(64, 64)).expect("frame");
    assert_eq!(
        frame.graph.resource(18),
        temporal("rtdgi.final", 1, image(97, 0xc, 32, 32), TemporalRole::History, true)
    );
}
