//! The frame graph: the resources of one frame and the passes that read and
//! write them, in the order in which they were declared.
//!
//! The graph only records. A back end walks it, creates or looks up each
//! resource, and submits each pass with barriers between a writer and the
//! readers that follow it. What the graph guarantees is that the record is
//! one a back end can carry out: see [`graph_wf`].

use vstd::prelude::*;
use crate::image::BufferDesc;
use crate::image::Extent2;
use crate::image::Extent3;
use crate::image::ImageDesc;
use crate::lut::LutBuffer;
use crate::lut::LutKind;

verus! {

/// How a resource was last used before it entered the graph.
#[derive(Clone, Copy, Debug, PartialEq, Eq, Structural)]
pub enum AccessType {
    Nothing,
    ComputeShaderReadSampledImageOrUniformTexelBuffer,
    AnyShaderReadSampledImageOrUniformTexelBuffer,
    AnyShaderReadOther,
    AnyShaderWrite,
}

/// The part that one image of a temporal pair plays in a frame.
#[derive(Clone, Copy, Debug, PartialEq, Eq, Structural)]
pub enum TemporalRole {
    /// Written this frame.
    Output,
    /// Holds what the previous frame wrote; only read this frame.
    History,
}

/// One resource of a frame.
#[derive(Clone, Copy, Debug, PartialEq, Eq)]
pub enum Resource {
    /// An image that lives for this frame only.
    Created { desc: ImageDesc },
    /// An image that another part of the renderer owns; only read here.
    Imported { desc: ImageDesc },
    /// A ray-tracing acceleration structure; only read here.
    Acceleration,
    /// A lookup-table buffer; only read here.
    Buffer { kind: LutKind, buffer: BufferDesc, access: AccessType },
    /// One image of the temporal pair called `name`. `slot` tells the two
    /// images of the pair apart. `fresh` says that the pair was allocated for
    /// this frame, so that the image holds nothing yet.
    Temporal { name: &'static str, slot: u8, desc: ImageDesc, role: TemporalRole, fresh: bool },
}

/// What a [`Resource`] is, with the name as a sequence of characters.
pub enum ResourceView {
    Created { desc: ImageDesc },
    Imported { desc: ImageDesc },
    Acceleration,
    Buffer { kind: LutKind, buffer: BufferDesc, access: AccessType },
    Temporal { name: Seq<char>, slot: u8, desc: ImageDesc, role: TemporalRole, fresh: bool },
}

impl View for Resource {
    type V = ResourceView;

    open spec fn view(&self) -> ResourceView {
        match *self {
            Resource::Created { desc } => ResourceView::Created { desc },
            Resource::Imported { desc } => ResourceView::Imported { desc },
            Resource::Acceleration => ResourceView::Acceleration,
            Resource::Buffer { kind, buffer, access } => ResourceView::Buffer { kind, buffer, access },
            Resource::Temporal { name, slot, desc, role, fresh } => ResourceView::Temporal {
                name: name@,
                slot,
                desc,
                role,
                fresh,
            },
        }
    }
}

impl ResourceView {
    /// Passes may write this resource: an image of this frame, or the output
    /// image of a temporal pair.
    pub open spec fn writable(self) -> bool {
        match self {
            ResourceView::Created { .. } => true,
            ResourceView::Temporal { role, .. } => role == TemporalRole::Output,
            _ => false,
        }
    }

    /// The image descriptor, for the resources that are images.
    pub open spec fn image_desc(self) -> Option<ImageDesc> {
        match self {
            ResourceView::Created { desc } => Some(desc),
            ResourceView::Imported { desc } => Some(desc),
            ResourceView::Temporal { desc, .. } => Some(desc),
            _ => None,
        }
    }

    /// This is the image `slot` of the temporal pair `name`.
    pub open spec fn is_temporal(self, name: Seq<char>, slot: u8) -> bool {
        self matches ResourceView::Temporal { name: n, slot: s, .. } && n == name && s == slot
    }

    /// This is an image of a temporal pair that was allocated for this
    /// frame and holds nothing yet.
    pub open spec fn is_fresh(self) -> bool {
        self matches ResourceView::Temporal { fresh, .. } && fresh
    }

    /// This is an image of the temporal pair `name`.
    pub open spec fn belongs_to(self, name: Seq<char>) -> bool {
        self matches ResourceView::Temporal { name: n, .. } && n == name
    }
}

/// How a pass uses a resource that is bound to it.
#[derive(Clone, Copy, Debug, PartialEq, Eq, Structural)]
pub enum BindingKind {
    /// The whole resource is read.
    Read,
    /// One aspect of an image is read; the bits are Vulkan's.
    ReadAspect { aspect: u32 },
    /// The resource is written.
    Write,
}

/// One resource bound to a pass. The position in the pass's list is the
/// binding slot that the shader sees.
#[derive(Clone, Copy, Debug, PartialEq, Eq, Structural)]
pub struct Binding {
    pub resource: usize,
    pub kind: BindingKind,
}

impl Binding {
    /// A binding that reads `resource`.
    pub open spec fn read(resource: int) -> Binding {
        Binding { resource: resource as usize, kind: BindingKind::Read }
    }

    /// A binding that reads the aspect `aspect` of the image `resource`.
    pub open spec fn read_aspect(resource: int, aspect: u32) -> Binding {
        Binding { resource: resource as usize, kind: BindingKind::ReadAspect { aspect } }
    }

    /// A binding that writes `resource`.
    pub open spec fn write(resource: int) -> Binding {
        Binding { resource: resource as usize, kind: BindingKind::Write }
    }

    /// The binding reads its resource.
    pub open spec fn is_read(self) -> bool {
        self.kind != BindingKind::Write
    }

    /// The binding writes its resource.
    pub open spec fn is_write(self) -> bool {
        self.kind == BindingKind::Write
    }
}

/// One entry of the shared kernel of the spatial filter and the upsampler.
#[derive(Clone, Copy, Debug, PartialEq, Eq, Structural)]
pub struct KernelOffset {
    pub x: i32,
    pub y: i32,
    pub z: i32,
    pub w: i32,
}

/// The constants block of a pass: extents, each of which the back end hands
/// to the shader as width, height and their inverses, and then the kernel
/// offsets, where the pass has any.
#[derive(Clone, Debug, PartialEq, Eq)]
pub struct Constants {
    pub extents: Vec<Extent2>,
    pub kernel_offsets: Option<&'static [KernelOffset]>,
}

/// What a [`Constants`] holds.
pub struct ConstantsView {
    pub extents: Seq<Extent2>,
    pub kernel_offsets: Option<Seq<KernelOffset>>,
}

impl View for Constants {
    type V = ConstantsView;

    open spec fn view(&self) -> ConstantsView {
        ConstantsView {
            extents: self.extents@,
            kernel_offsets: match self.kernel_offsets {
                Some(k) => Some(k@),
                None => None,
            },
        }
    }
}

/// The programs of a pass.
#[derive(Clone, Debug, PartialEq, Eq)]
pub enum Shaders {
    /// One compute program.
    Compute { path: &'static str },
    /// A ray-generation program with its miss and closest-hit programs.
    RayTracing { rgen: &'static str, miss: Vec<&'static str>, hit: Vec<&'static str> },
}

/// What a [`Shaders`] holds, with paths as sequences of characters.
pub enum ShadersView {
    Compute { path: Seq<char> },
    RayTracing { rgen: Seq<char>, miss: Seq<Seq<char>>, hit: Seq<Seq<char>> },
}

impl View for Shaders {
    type V = ShadersView;

    open spec fn view(&self) -> ShadersView {
        match *self {
            Shaders::Compute { path } => ShadersView::Compute { path: path@ },
            Shaders::RayTracing { rgen, miss, hit } => ShadersView::RayTracing {
                rgen: rgen@,
                miss: miss@.map_values(|s: &'static str| s@),
                hit: hit@.map_values(|s: &'static str| s@),
            },
        }
    }
}

/// The shape in which a pass is launched.
#[derive(Clone, Copy, Debug, PartialEq, Eq, Structural)]
pub enum Dispatch {
    /// One compute thread per texel of `extent`.
    Compute { extent: Extent3 },
    /// One ray-generation thread per texel of `extent`, tracing against the
    /// acceleration structure `tlas`.
    TraceRays { tlas: usize, extent: Extent3 },
}

/// A descriptor set that the caller binds as it is, at a given index.
#[derive(Clone, Copy, Debug, PartialEq, Eq, Structural)]
pub struct RawDescriptorSet {
    pub index: u32,
    pub set: u64,
}

/// A pass declaration.
#[derive(Clone, Debug, PartialEq, Eq)]
pub struct Pass {
    pub name: &'static str,
    pub shaders: Shaders,
    pub bindings: Vec<Binding>,
    pub constants: Constants,
    pub raw_descriptor_set: Option<RawDescriptorSet>,
    pub dispatch: Dispatch,
}

/// What a [`Pass`] declares.
pub struct PassView {
    pub name: Seq<char>,
    pub shaders: ShadersView,
    pub bindings: Seq<Binding>,
    pub constants: ConstantsView,
    pub raw_descriptor_set: Option<RawDescriptorSet>,
    pub dispatch: Dispatch,
}

impl View for Pass {
    type V = PassView;

    open spec fn view(&self) -> PassView {
        PassView {
            name: self.name@,
            shaders: self.shaders@,
            bindings: self.bindings@,
            constants: self.constants@,
            raw_descriptor_set: self.raw_descriptor_set,
            dispatch: self.dispatch,
        }
    }
}

impl PassView {
    /// Some binding of the pass reads resource `id`, or the pass traces
    /// against it.
    pub open spec fn reads(self, id: int) -> bool {
        ||| exists|j: int|
            0 <= j < self.bindings.len() && self.bindings[j].resource == id
                && #[trigger] self.bindings[j].is_read()
        ||| self.dispatch matches Dispatch::TraceRays { tlas, .. } && tlas == id
    }

    /// Some binding of the pass writes resource `id`.
    pub open spec fn writes(self, id: int) -> bool {
        exists|j: int|
            0 <= j < self.bindings.len() && self.bindings[j].resource == id
                && #[trigger] self.bindings[j].is_write()
    }
}

/// Some pass among `passes` writes resource `id`.
pub open spec fn written(passes: Seq<PassView>, id: int) -> bool {
    exists|q: int| 0 <= q < passes.len() && #[trigger] passes[q].writes(id)
}

/// A pass that comes after `before` may read resource `id`: the resource
/// exists, and either it came into the frame with its contents or one of the
/// passes `before` writes it.
pub open spec fn readable(resources: Seq<ResourceView>, before: Seq<PassView>, id: int) -> bool {
    &&& 0 <= id < resources.len()
    &&& !resources[id].writable() || written(before, id)
}

/// The pass `p` may follow the passes `before` in a frame with these
/// resources:
/// every resource that it binds exists;
/// it writes only what may be written;
/// it reads only what holds something by then;
/// it reads no resource that it writes;
/// and it traces, if it does, against an acceleration structure.
pub open spec fn pass_ok(resources: Seq<ResourceView>, before: Seq<PassView>, p: PassView) -> bool {
    &&& forall|j: int|
        0 <= j < p.bindings.len() ==> (#[trigger] p.bindings[j]).resource < resources.len()
    &&& forall|j: int|
        0 <= j < p.bindings.len() && (#[trigger] p.bindings[j]).is_write()
            ==> resources[p.bindings[j].resource as int].writable()
    &&& forall|j: int|
        0 <= j < p.bindings.len() && (#[trigger] p.bindings[j]).is_read() ==> readable(
            resources,
            before,
            p.bindings[j].resource as int,
        )
    &&& forall|i: int, j: int|
        0 <= i < p.bindings.len() && 0 <= j < p.bindings.len() && (#[trigger] p.bindings[i]).is_write()
            && (#[trigger] p.bindings[j]).is_read() ==> p.bindings[i].resource
            != p.bindings[j].resource
    &&& p.dispatch matches Dispatch::TraceRays { tlas, .. } ==> tlas < resources.len()
        && resources[tlas as int] is Acceleration
}

/// The record of a frame.
pub struct GraphView {
    pub resources: Seq<ResourceView>,
    pub passes: Seq<PassView>,
}

/// A frame is well formed when each pass may follow the passes before it,
/// and no image of a temporal pair occurs twice.
#[verifier::opaque]
pub open spec fn graph_wf(g: GraphView) -> bool {
    &&& forall|k: int|
        0 <= k < g.passes.len() ==> pass_ok(g.resources, g.passes.take(k), #[trigger] g.passes[k])
    &&& forall|i: int, j: int|
        0 <= i < g.resources.len() && 0 <= j < g.resources.len() && i != j ==> !same_temporal(
            #[trigger] g.resources[i],
            #[trigger] g.resources[j],
        )
}

/// The two resources are the same image of the same temporal pair.
pub open spec fn same_temporal(a: ResourceView, b: ResourceView) -> bool {
    a matches ResourceView::Temporal { name, slot, .. } && b.is_temporal(name, slot)
}

/// No resource of the frame is an image of the temporal pair `name`.
pub open spec fn pair_absent(resources: Seq<ResourceView>, name: Seq<char>) -> bool {
    forall|i: int| 0 <= i < resources.len() ==> !(#[trigger] resources[i]).belongs_to(name)
}

/// Adding a resource to a frame leaves every pass as valid as it was.
pub proof fn lemma_pass_ok_more_resources(
    resources: Seq<ResourceView>,
    before: Seq<PassView>,
    p: PassView,
    r: ResourceView,
)
    requires
        pass_ok(resources, before, p),
    ensures
        pass_ok(resources.push(r), before, p),
{
    let more = resources.push(r);
    assert forall|j: int| 0 <= j < p.bindings.len() implies (#[trigger] p.bindings[j]).resource
        < more.len() by {}
    assert forall|j: int| 0 <= j < p.bindings.len() && (#[trigger] p.bindings[j]).is_write()
        implies more[p.bindings[j].resource as int].writable() by {
        assert(more[p.bindings[j].resource as int] == resources[p.bindings[j].resource as int]);
    }
    assert forall|j: int| 0 <= j < p.bindings.len() && (#[trigger] p.bindings[j]).is_read()
        implies readable(more, before, p.bindings[j].resource as int) by {
        assert(readable(resources, before, p.bindings[j].resource as int));
        assert(more[p.bindings[j].resource as int] == resources[p.bindings[j].resource as int]);
    }
}

/// A well-formed frame stays well formed when it gets a resource that is not
/// an image of a temporal pair already in it.
pub proof fn lemma_wf_push_resource(g: GraphView, r: ResourceView)
    requires
        graph_wf(g),
        forall|i: int|
            0 <= i < g.resources.len() ==> !same_temporal(#[trigger] g.resources[i], r),
    ensures
        graph_wf(GraphView { resources: g.resources.push(r), passes: g.passes }),
{
    reveal(graph_wf);
    let more = g.resources.push(r);
    assert forall|k: int| 0 <= k < g.passes.len() implies pass_ok(
        more,
        g.passes.take(k),
        #[trigger] g.passes[k],
    ) by {
        lemma_pass_ok_more_resources(g.resources, g.passes.take(k), g.passes[k], r);
    }
    assert forall|i: int, j: int|
        0 <= i < more.len() && 0 <= j < more.len() && i != j implies !same_temporal(
        #[trigger] more[i],
        #[trigger] more[j],
    ) by {
        if i < g.resources.len() && j < g.resources.len() {
            assert(more[i] == g.resources[i]);
            assert(more[j] == g.resources[j]);
        } else if i < g.resources.len() {
            assert(more[i] == g.resources[i]);
            assert(!same_temporal(g.resources[i], r));
        } else {
            assert(more[j] == g.resources[j]);
            assert(!same_temporal(g.resources[j], r));
        }
    }
}

/// A well-formed frame stays well formed when a pass that may follow its
/// passes is added at the end.
pub proof fn lemma_wf_push_pass(g: GraphView, p: PassView)
    requires
        graph_wf(g),
        pass_ok(g.resources, g.passes, p),
    ensures
        graph_wf(GraphView { resources: g.resources, passes: g.passes.push(p) }),
{
    reveal(graph_wf);
    let more = g.passes.push(p);
    assert forall|k: int| 0 <= k < more.len() implies pass_ok(
        g.resources,
        more.take(k),
        #[trigger] more[k],
    ) by {
        assert(more.take(k) =~= g.passes.take(k));
        if k < g.passes.len() {
            assert(more[k] == g.passes[k]);
        } else {
            assert(g.passes.take(k) =~= g.passes);
        }
    }
}

/// In a well-formed frame only what may be written is written: no pass
/// writes an imported image, a buffer, an acceleration structure or the
/// history image of a temporal pair.
pub proof fn only_writable_is_written(g: GraphView, k: int, id: int)
    requires
        graph_wf(g),
        0 <= k < g.passes.len(),
        g.passes[k].writes(id),
    ensures
        0 <= id < g.resources.len(),
        g.resources[id].writable(),
{
    reveal(graph_wf);
    let p = g.passes[k];
    assert(pass_ok(g.resources, g.passes.take(k), p));
    let j = choose|j: int|
        0 <= j < p.bindings.len() && p.bindings[j].resource == id
            && #[trigger] p.bindings[j].is_write();
    assert(p.bindings[j].resource < g.resources.len());
}

/// In a well-formed frame no pass reads a resource that it writes.
pub proof fn no_pass_reads_what_it_writes(g: GraphView, k: int, id: int)
    requires
        graph_wf(g),
        0 <= k < g.passes.len(),
    ensures
        !(g.passes[k].reads(id) && g.passes[k].writes(id)),
{
    reveal(graph_wf);
    let p = g.passes[k];
    assert(pass_ok(g.resources, g.passes.take(k), p));
    if p.reads(id) && p.writes(id) {
        only_writable_is_written(g, k, id);
        let i = choose|i: int|
            0 <= i < p.bindings.len() && p.bindings[i].resource == id
                && #[trigger] p.bindings[i].is_write();
        if exists|j: int|
            0 <= j < p.bindings.len() && p.bindings[j].resource == id
                && #[trigger] p.bindings[j].is_read() {
            let j = choose|j: int|
                0 <= j < p.bindings.len() && p.bindings[j].resource == id
                    && #[trigger] p.bindings[j].is_read();
            assert(p.bindings[i].resource != p.bindings[j].resource);
        } else {
            assert(g.resources[id] is Acceleration);
        }
    }
}

/// In a well-formed frame a pass that reads what passes may write comes
/// after a pass that writes it: the writer is declared first, so a back end
/// that orders passes by their declared reads and writes runs it first.
pub proof fn reads_follow_writes(g: GraphView, k: int, id: int)
    requires
        graph_wf(g),
        0 <= k < g.passes.len(),
        0 <= id < g.resources.len(),
        g.passes[k].reads(id),
        g.resources[id].writable(),
    ensures
        exists|q: int| 0 <= q < k && #[trigger] g.passes[q].writes(id),
{
    reveal(graph_wf);
    let p = g.passes[k];
    let before = g.passes.take(k);
    assert(pass_ok(g.resources, before, p));
    let j = choose|j: int|
        0 <= j < p.bindings.len() && p.bindings[j].resource == id
            && #[trigger] p.bindings[j].is_read();
    assert(readable(g.resources, before, p.bindings[j].resource as int));
    let q = choose|q: int| 0 <= q < before.len() && #[trigger] before[q].writes(id);
    assert(before[q] == g.passes[q]);
    assert(g.passes[q].writes(id));
}

/// In a well-formed frame each image of a temporal pair is one resource: two
/// handles to images of temporal pairs stand for the same image only if they
/// are the same resource.
pub proof fn temporal_images_are_distinct(g: GraphView, i: int, j: int)
    requires
        graph_wf(g),
        0 <= i < g.resources.len(),
        0 <= j < g.resources.len(),
        same_temporal(g.resources[i], g.resources[j]),
    ensures
        i == j,
{
    reveal(graph_wf);
}

/// An image of the frame, as the code that builds passes holds it.
#[derive(Debug, PartialEq, Eq)]
pub struct ImageHandle {
    id: usize,
    desc: ImageDesc,
}

/// A buffer of the frame.
#[derive(Debug, PartialEq, Eq)]
pub struct BufferHandle {
    id: usize,
    desc: BufferDesc,
}

/// An acceleration structure of the frame.
#[derive(Debug, PartialEq, Eq)]
pub struct AccelerationHandle {
    id: usize,
}

/// An image of the frame that can no longer be written: no pass takes it as
/// an output.
#[derive(Debug, PartialEq, Eq)]
pub struct ReadOnlyImageHandle {
    id: usize,
    desc: ImageDesc,
}

impl ImageHandle {
    /// The index of the image among the frame's resources.
    pub closed spec fn spec_id(&self) -> usize {
        self.id
    }

    /// The descriptor that the image was declared with.
    pub closed spec fn spec_desc(&self) -> ImageDesc {
        self.desc
    }

    /// The index of the image among the frame's resources.
    #[verifier::when_used_as_spec(spec_id)]
    pub fn id(&self) -> (r: usize)
        ensures
            r == self.spec_id(),
    {
        self.id
    }

    /// The descriptor that the image was declared with.
    #[verifier::when_used_as_spec(spec_desc)]
    pub fn desc(&self) -> (r: ImageDesc)
        ensures
            r == self.spec_desc(),
    {
        self.desc
    }

    /// Gives up the right to write the image.
    pub fn into_read_only(self) -> (r: ReadOnlyImageHandle)
        ensures
            r.spec_id() == self.spec_id(),
            r.spec_desc() == self.spec_desc(),
    {
        ReadOnlyImageHandle { id: self.id, desc: self.desc }
    }
}

impl ReadOnlyImageHandle {
    /// The index of the image among the frame's resources.
    pub closed spec fn spec_id(&self) -> usize {
        self.id
    }

    /// The descriptor that the image was declared with.
    pub closed spec fn spec_desc(&self) -> ImageDesc {
        self.desc
    }

    /// The index of the image among the frame's resources.
    #[verifier::when_used_as_spec(spec_id)]
    pub fn id(&self) -> (r: usize)
        ensures
            r == self.spec_id(),
    {
        self.id
    }

    /// The descriptor that the image was declared with.
    #[verifier::when_used_as_spec(spec_desc)]
    pub fn desc(&self) -> (r: ImageDesc)
        ensures
            r == self.spec_desc(),
    {
        self.desc
    }
}

impl BufferHandle {
    /// The index of the buffer among the frame's resources.
    pub closed spec fn spec_id(&self) -> usize {
        self.id
    }

    /// The descriptor of the buffer.
    pub closed spec fn spec_desc(&self) -> BufferDesc {
        self.desc
    }

    /// The index of the buffer among the frame's resources.
    #[verifier::when_used_as_spec(spec_id)]
    pub fn id(&self) -> (r: usize)
        ensures
            r == self.spec_id(),
    {
        self.id
    }

    /// The descriptor of the buffer.
    #[verifier::when_used_as_spec(spec_desc)]
    pub fn desc(&self) -> (r: BufferDesc)
        ensures
            r == self.spec_desc(),
    {
        self.desc
    }
}

impl AccelerationHandle {
    /// The index of the structure among the frame's resources.
    pub closed spec fn spec_id(&self) -> usize {
        self.id
    }

    /// The index of the structure among the frame's resources.
    #[verifier::when_used_as_spec(spec_id)]
    pub fn id(&self) -> (r: usize)
        ensures
            r == self.spec_id(),
    {
        self.id
    }
}

impl GraphView {
    /// The handle stands for an image of this frame, with its descriptor.
    pub open spec fn holds_image(self, h: &ImageHandle) -> bool {
        &&& h.spec_id() < self.resources.len()
        &&& self.resources[h.spec_id() as int].image_desc() == Some(h.spec_desc())
    }

    /// The handle stands for an image of this frame that a pass added now
    /// may read.
    pub open spec fn can_read(self, h: &ImageHandle) -> bool {
        &&& self.holds_image(h)
        &&& readable(self.resources, self.passes, h.spec_id() as int)
    }

    /// The handle stands for an image of this frame that passes may write.
    pub open spec fn can_write(self, h: &ImageHandle) -> bool {
        &&& self.holds_image(h)
        &&& self.resources[h.spec_id() as int].writable()
    }

    /// The handle stands for a buffer of this frame.
    pub open spec fn holds_buffer(self, h: &BufferHandle) -> bool {
        &&& h.spec_id() < self.resources.len()
        &&& self.resources[h.spec_id() as int] matches ResourceView::Buffer { buffer, .. }
        &&& buffer == h.spec_desc()
    }

    /// The handle stands for an acceleration structure of this frame.
    pub open spec fn holds_acceleration(self, h: &AccelerationHandle) -> bool {
        &&& h.spec_id() < self.resources.len()
        &&& self.resources[h.spec_id() as int] is Acceleration
    }

    /// This frame is `earlier` with resources and passes added at the end.
    pub open spec fn extends(self, earlier: GraphView) -> bool {
        &&& earlier.resources.len() <= self.resources.len()
        &&& earlier.passes.len() <= self.passes.len()
        &&& forall|i: int|
            0 <= i < earlier.resources.len() ==> #[trigger] self.resources[i]
                == earlier.resources[i]
        &&& forall|k: int|
            0 <= k < earlier.passes.len() ==> #[trigger] self.passes[k] == earlier.passes[k]
    }
}

/// What a pass may read, it may still read after resources and passes are
/// added to the frame.
pub proof fn lemma_readable_extends(earlier: GraphView, later: GraphView, id: int)
    requires
        later.extends(earlier),
        readable(earlier.resources, earlier.passes, id),
    ensures
        readable(later.resources, later.passes, id),
{
    assert(later.resources[id] == earlier.resources[id]);
    if written(earlier.passes, id) {
        let q = choose|q: int| 0 <= q < earlier.passes.len() && #[trigger] earlier.passes[q].writes(id);
        assert(later.passes[q] == earlier.passes[q]);
        assert(later.passes[q].writes(id));
    }
}

/// An image that a pass may read, it may still read after resources and
/// passes are added to the frame; the same holds of what may be written
/// and of every other kind of handle.
pub proof fn lemma_handles_extend(earlier: GraphView, later: GraphView)
    requires
        later.extends(earlier),
    ensures
        forall|h: &ImageHandle| earlier.can_read(h) ==> #[trigger] later.can_read(h),
        forall|h: &ImageHandle| earlier.holds_image(h) ==> #[trigger] later.holds_image(h),
        forall|h: &ImageHandle| earlier.can_write(h) ==> #[trigger] later.can_write(h),
        forall|h: &BufferHandle| earlier.holds_buffer(h) ==> #[trigger] later.holds_buffer(h),
        forall|h: &AccelerationHandle|
            earlier.holds_acceleration(h) ==> #[trigger] later.holds_acceleration(h),
{
    assert forall|h: &ImageHandle| earlier.can_read(h) implies #[trigger] later.can_read(h) by {
        lemma_readable_extends(earlier, later, h.spec_id() as int);
    }
}

/// The frame graph under construction.
#[derive(Debug, PartialEq, Eq)]
pub struct RenderGraph {
    resources: Vec<Resource>,
    passes: Vec<Pass>,
}

impl View for RenderGraph {
    type V = GraphView;

    closed spec fn view(&self) -> GraphView {
        GraphView {
            resources: self.resources@.map_values(|r: Resource| r@),
            passes: self.passes@.map_values(|p: Pass| p@),
        }
    }
}

impl RenderGraph {
    /// The record is one that a back end can carry out: each pass may
    /// follow the passes before it, and no image of a temporal pair occurs
    /// twice. This holds of every frame graph.
    #[verifier::type_invariant]
    pub open spec fn wf(&self) -> bool {
        graph_wf(self@)
    }

    /// The handle stands for an image of this frame, with its descriptor.
    pub open spec fn holds_image(&self, h: &ImageHandle) -> bool {
        self@.holds_image(h)
    }

    /// The handle stands for an image of this frame that a pass added now
    /// may read.
    pub open spec fn can_read(&self, h: &ImageHandle) -> bool {
        self@.can_read(h)
    }

    /// The handle stands for an image of this frame that passes may write.
    pub open spec fn can_write(&self, h: &ImageHandle) -> bool {
        self@.can_write(h)
    }

    /// The handle stands for a buffer of this frame.
    pub open spec fn holds_buffer(&self, h: &BufferHandle) -> bool {
        self@.holds_buffer(h)
    }

    /// The handle stands for an acceleration structure of this frame.
    pub open spec fn holds_acceleration(&self, h: &AccelerationHandle) -> bool {
        self@.holds_acceleration(h)
    }

    /// The empty frame.
    pub fn new() -> (r: RenderGraph)
        ensures
            r@.resources == Seq::<ResourceView>::empty(),
            r@.passes == Seq::<PassView>::empty(),
            r.wf(),
    {
        proof {
            reveal(graph_wf);
        }
        let r = RenderGraph { resources: Vec::new(), passes: Vec::new() };
        assert(r@.resources =~= Seq::<ResourceView>::empty());
        assert(r@.passes =~= Seq::<PassView>::empty());
        r
    }

    /// Adds a resource at the end and returns its index.
    fn push_resource(&mut self, r: Resource) -> (id: usize)
        requires
            graph_wf(
                GraphView {
                    resources: old(self)@.resources.push(r@),
                    passes: old(self)@.passes,
                },
            ),
        ensures
            id == old(self)@.resources.len(),
            final(self)@.resources == old(self)@.resources.push(r@),
            final(self)@.passes == old(self)@.passes,
    {
        proof {
            reveal(graph_wf);
        }
        let mut taken = RenderGraph { resources: Vec::new(), passes: Vec::new() };
        core::mem::swap(self, &mut taken);
        let RenderGraph { mut resources, passes } = taken;
        let id = resources.len();
        proof {
            assert(resources@.push(r).map_values(|r: Resource| r@) =~= old(self)@.resources.push(
                r@,
            ));
        }
        resources.push(r);
        *self = RenderGraph { resources, passes };
        id
    }

    /// Declares an image that lives for this frame only. Nothing can read it
    /// before a pass has written it.
    pub fn create(&mut self, desc: ImageDesc) -> (h: ImageHandle)
        ensures
            final(self)@.resources == old(self)@.resources.push(ResourceView::Created { desc }),
            final(self)@.passes == old(self)@.passes,
            h.spec_id() == old(self)@.resources.len(),
            h.spec_desc() == desc,
            final(self).wf(),
    {
        proof {
            use_type_invariant(&*self);
            lemma_wf_push_resource(self@, ResourceView::Created { desc });
        }
        let id = self.push_resource(Resource::Created { desc });
        ImageHandle { id, desc }
    }

    /// Brings in an image that another part of the renderer owns and has
    /// filled. Passes of this frame read it and never write it.
    pub fn import_image(&mut self, desc: ImageDesc) -> (h: ImageHandle)
        ensures
            final(self)@.resources == old(self)@.resources.push(ResourceView::Imported { desc }),
            final(self)@.passes == old(self)@.passes,
            h.spec_id() == old(self)@.resources.len(),
            h.spec_desc() == desc,
            final(self).wf(),
    {
        proof {
            use_type_invariant(&*self);
            lemma_wf_push_resource(self@, ResourceView::Imported { desc });
        }
        let id = self.push_resource(Resource::Imported { desc });
        ImageHandle { id, desc }
    }

    /// Brings in an acceleration structure to trace against.
    pub fn import_acceleration(&mut self) -> (h: AccelerationHandle)
        ensures
            final(self)@.resources == old(self)@.resources.push(ResourceView::Acceleration),
            final(self)@.passes == old(self)@.passes,
            h.spec_id() == old(self)@.resources.len(),
            final(self).wf(),
    {
        proof {
            use_type_invariant(&*self);
            lemma_wf_push_resource(self@, ResourceView::Acceleration);
        }
        let id = self.push_resource(Resource::Acceleration);
        AccelerationHandle { id }
    }

    /// Brings in a lookup-table buffer, saying how it was last used. Passes
    /// of this frame read it and never write it.
    pub fn import(&mut self, buffer: &LutBuffer, access: AccessType) -> (h: BufferHandle)
        ensures
            final(self)@.resources == old(self)@.resources.push(
                ResourceView::Buffer {
                    kind: buffer.spec_kind(),
                    buffer: buffer.spec_desc(),
                    access,
                },
            ),
            final(self)@.passes == old(self)@.passes,
            h.spec_id() == old(self)@.resources.len(),
            h.spec_desc() == buffer.spec_desc(),
            final(self).wf(),
    {
        let kind = buffer.kind();
        let desc = buffer.desc();
        proof {
            use_type_invariant(&*self);
            lemma_wf_push_resource(self@, ResourceView::Buffer { kind, buffer: desc, access });
        }
        let id = self.push_resource(Resource::Buffer { kind, buffer: desc, access });
        BufferHandle { id, desc }
    }

    /// Brings in image `slot` of the temporal pair `name` in the given role.
    /// The same image cannot come into one frame twice.
    pub fn import_temporal(
        &mut self,
        name: &'static str,
        slot: u8,
        desc: ImageDesc,
        role: TemporalRole,
        fresh: bool,
    ) -> (h: ImageHandle)
        requires
            forall|i: int|
                0 <= i < old(self)@.resources.len() ==> !(#[trigger] old(self)@.resources[i])
                    .is_temporal(name@, slot),
        ensures
            final(self)@.resources == old(self)@.resources.push(
                ResourceView::Temporal { name: name@, slot, desc, role, fresh },
            ),
            final(self)@.passes == old(self)@.passes,
            h.spec_id() == old(self)@.resources.len(),
            h.spec_desc() == desc,
            final(self).wf(),
    {
        proof {
            use_type_invariant(&*self);
            let r = ResourceView::Temporal { name: name@, slot, desc, role, fresh };
            assert forall|i: int| 0 <= i < self@.resources.len() implies !same_temporal(
                #[trigger] self@.resources[i],
                r,
            ) by {
                assert(!self@.resources[i].is_temporal(name@, slot));
            }
            lemma_wf_push_resource(self@, r);
        }
        let id = self.push_resource(Resource::Temporal { name, slot, desc, role, fresh });
        ImageHandle { id, desc }
    }

    /// Adds a pass after the passes declared so far.
    pub fn add_pass(&mut self, pass: Pass)
        requires
            pass_ok(old(self)@.resources, old(self)@.passes, pass@),
        ensures
            final(self)@.resources == old(self)@.resources,
            final(self)@.passes == old(self)@.passes.push(pass@),
            final(self).wf(),
    {
        proof {
            use_type_invariant(&*self);
            lemma_wf_push_pass(self@, pass@);
        }
        proof {
            reveal(graph_wf);
        }
        let mut taken = RenderGraph { resources: Vec::new(), passes: Vec::new() };
        core::mem::swap(self, &mut taken);
        let RenderGraph { resources, mut passes } = taken;
        proof {
            assert(passes@.push(pass).map_values(|p: Pass| p@) =~= old(self)@.passes.push(pass@));
        }
        passes.push(pass);
        *self = RenderGraph { resources, passes };
    }

    /// The number of resources declared so far.
    pub fn resource_count(&self) -> (n: usize)
        ensures
            n == self@.resources.len(),
    {
        self.resources.len()
    }

    /// The resource with index `id`.
    pub fn resource(&self, id: usize) -> (r: Option<Resource>)
        ensures
            id < self@.resources.len() ==> (r matches Some(x) && x@ == self@.resources[id as int]),
            id >= self@.resources.len() ==> r is None,
    {
        if id < self.resources.len() {
            Some(self.resources[id])
        } else {
            None
        }
    }

    /// The number of passes declared so far.
    pub fn pass_count(&self) -> (n: usize)
        ensures
            n == self@.passes.len(),
    {
        self.passes.len()
    }

    /// The pass declared at position `k`.
    pub fn pass(&self, k: usize) -> (r: Option<&Pass>)
        ensures
            k < self@.passes.len() ==> (r matches Some(p) && p@ == self@.passes[k as int]),
            k >= self@.passes.len() ==> r is None,
    {
        if k < self.passes.len() {
            Some(&self.passes[k])
        } else {
            None
        }
    }
}

} // verus!
