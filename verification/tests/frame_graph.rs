use rtdgi::graph::AccessType;
use rtdgi::graph::Binding;
use rtdgi::graph::BindingKind;
use rtdgi::graph::Constants;
use rtdgi::graph::Dispatch;
use rtdgi::graph::KernelOffset;
use rtdgi::graph::Pass;
use rtdgi::graph::RawDescriptorSet;
use rtdgi::graph::RenderGraph;
use rtdgi::graph::Resource;
use rtdgi::graph::Shaders;
use rtdgi::graph::TemporalRole;
use rtdgi::image::BufferDesc;
use rtdgi::image::Extent2;
use rtdgi::image::Extent3;
use rtdgi::image::ImageDesc;
use rtdgi::lut::make_lut_buffer;
use rtdgi::lut::LutKind;
use rtdgi::pass::SimpleRenderPass;

static KERNEL: [KernelOffset; 2] =
    [KernelOffset { x: 0, y: 0, z: 0, w: 0 }, KernelOffset { x: -1, y: 2, z: 0, w: 0 }];

fn desc(width: u32, height: u32) -> ImageDesc {
    ImageDesc::new_2d(97, Extent2 { width, height })
}

#[test]
fn empty_graph_holds_nothing() {
    let rg = RenderGraph::new();
    assert_eq!(rg.resource_count(), 0);
    assert_eq!(rg.pass_count(), 0);
    assert_eq!(rg.resource(0), None);
    assert!(rg.pass(0).is_none());
}

#[test]
fn resources_get_indices_in_order() {
    let mut rg = RenderGraph::new();
    let a = rg.create(desc(4, 4));
    let b = rg.import_image(desc(8, 8));
    let c = rg.import_acceleration();
    let lut = make_lut_buffer(LutKind::Sobol, &[1, 2]);
    let d = rg.import(&lut, AccessType::ComputeShaderReadSampledImageOrUniformTexelBuffer);
    let e = rg.import_temporal("t", 1, desc(2, 2), TemporalRole::History, true);
    assert_eq!((a.id(), b.id(), c.id(), d.id(), e.id()), (0, 1, 2, 3, 4));
    assert_eq!(a.desc(), desc(4, 4));
    assert_eq!(b.desc(), desc(8, 8));
    assert_eq!(d.desc(), BufferDesc { size: 8, usage: 0x20 });
    assert_eq!(e.desc(), desc(2, 2));
    assert_eq!(rg.resource_count(), 5);
    assert_eq!(rg.resource(0), Some(Resource::Created { desc: desc(4, 4) }));
    assert_eq!(rg.resource(1), Some(Resource::Imported { desc: desc(8, 8) }));
    assert_eq!(rg.resource(2), Some(Resource::Acceleration));
    assert_eq!(
        rg.resource(3),
        Some(Resource::Buffer {
            kind: LutKind::Sobol,
            buffer: BufferDesc { size: 8, usage: 0x20 },
            access: AccessType::ComputeShaderReadSampledImageOrUniformTexelBuffer,
        })
    );
    assert_eq!(
        rg.resource(4),
        Some(Resource::Temporal {
            name: "t",
            slot: 1,
            desc: desc(2, 2),
            role: TemporalRole::History,
            fresh: true,
        })
    );
    assert_eq!(rg.resource(5), None);
}

#[test]
fn read_only_handle_keeps_index_and_descriptor() {
    let mut rg = RenderGraph::new();
    rg.import_acceleration();
    let image = rg.create(desc(4, 6));
    let read_only = image.into_read_only();
    assert_eq!(read_only.id(), 1);
    assert_eq!(read_only.desc(), desc(4, 6));
}

#[test]
fn compute_pass_records_bindings_in_order() {
    let mut rg = RenderGraph::new();
    let input = rg.import_image(desc(8, 8));
    let depth = rg.import_image(desc(8, 8));
    let mut output = rg.create(desc(4, 4));
    SimpleRenderPass::new_compute("blur", "/shaders/blur.hlsl")
        .read(&input)
        .read_aspect(&depth, 2)
        .write(&mut output)
        .constants(Constants {
            extents: vec![Extent2 { width: 4, height: 4 }],
            kernel_offsets: Some(&KERNEL),
        })
        .dispatch(&mut rg, Extent3 { width: 4, height: 4, depth: 1 });
    assert_eq!(rg.pass_count(), 1);
    assert_eq!(
        rg.pass(0),
        Some(&Pass {
            name: "blur",
            shaders: Shaders::Compute { path: "/shaders/blur.hlsl" },
            bindings: vec![
                Binding { resource: 0, kind: BindingKind::Read },
                Binding { resource: 1, kind: BindingKind::ReadAspect { aspect: 2 } },
                Binding { resource: 2, kind: BindingKind::Write },
            ],
            constants: Constants {
                extents: vec![Extent2 { width: 4, height: 4 }],
                kernel_offsets: Some(&KERNEL),
            },
            raw_descriptor_set: None,
            dispatch: Dispatch::Compute { extent: Extent3 { width: 4, height: 4, depth: 1 } },
        })
    );
    assert!(rg.pass(1).is_none());
    assert_eq!(output.id(), 2);
}

#[test]
fn ray_tracing_pass_records_programs_and_set() {
    let mut rg = RenderGraph::new();
    let tlas = rg.import_acceleration();
    let lut = make_lut_buffer(LutKind::RankingTile, &[3]);
    let buffer = rg.import(&lut, AccessType::ComputeShaderReadSampledImageOrUniformTexelBuffer);
    let mut output = rg.create(desc(2, 2));
    SimpleRenderPass::new_rt("trace", "/rgen", vec!["/miss0", "/miss1"], vec!["/hit"])
        .read_buffer(&buffer)
        .write(&mut output)
        .raw_descriptor_set(1, 77)
        .trace_rays(&mut rg, &tlas, Extent3 { width: 2, height: 2, depth: 1 });
    assert_eq!(
        rg.pass(0),
        Some(&Pass {
            name: "trace",
            shaders: Shaders::RayTracing {
                rgen: "/rgen",
                miss: vec!["/miss0", "/miss1"],
                hit: vec!["/hit"],
            },
            bindings: vec![
                Binding { resource: 1, kind: BindingKind::Read },
                Binding { resource: 2, kind: BindingKind::Write },
            ],
            constants: Constants { extents: vec![], kernel_offsets: None },
            raw_descriptor_set: Some(RawDescriptorSet { index: 1, set: 77 }),
            dispatch: Dispatch::TraceRays {
                tlas: 0,
                extent: Extent3 { width: 2, height: 2, depth: 1 },
            },
        })
    );
}

#[test]
fn passes_keep_their_order() {
    let mut rg = RenderGraph::new();
    let input = rg.import_image(desc(8, 8));
    let mut a = rg.create(desc(8, 8));
    let mut b = rg.create(desc(8, 8));
    SimpleRenderPass::new_compute("first", "/a")
        .read(&input)
        .write(&mut a)
        .dispatch(&mut rg, Extent3 { width: 8, height: 8, depth: 1 });
    SimpleRenderPass::new_compute("second", "/b")
        .read(&a)
        .write(&mut b)
        .dispatch(&mut rg, Extent3 { width: 8, height: 8, depth: 1 });
    assert_eq!(rg.pass_count(), 2);
    assert_eq!(rg.pass(0).map(|p| p.name), Some("first"));
    assert_eq!(rg.pass(1).map(|p| p.name), Some("second"));
    assert_eq!(rg.resource_count(), 3);
}
