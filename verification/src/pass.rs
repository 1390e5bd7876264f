//! A builder for pass declarations: name and programs first, then the
//! resources in binding order, the constants, and last the launch, which
//! puts the pass into the frame graph.

use vstd::prelude::*;
use crate::graph::pass_ok;
use crate::graph::AccelerationHandle;
use crate::graph::Binding;
use crate::graph::BindingKind;
use crate::graph::BufferHandle;
use crate::graph::Constants;
use crate::graph::ConstantsView;
use crate::graph::Dispatch;
use crate::graph::ImageHandle;
use crate::graph::Pass;
use crate::graph::PassView;
use crate::graph::RawDescriptorSet;
use crate::graph::RenderGraph;
use crate::graph::Shaders;
use crate::graph::ShadersView;
use crate::image::Extent3;

verus! {

/// A pass declaration that has not been launched yet.
#[derive(Debug)]
pub struct SimpleRenderPass {
    pub name: &'static str,
    pub shaders: Shaders,
    pub bindings: Vec<Binding>,
    pub constants: Constants,
    pub raw_descriptor_set: Option<RawDescriptorSet>,
}

/// What a [`SimpleRenderPass`] declares so far.
pub struct SimpleRenderPassView {
    pub name: Seq<char>,
    pub shaders: ShadersView,
    pub bindings: Seq<Binding>,
    pub constants: ConstantsView,
    pub raw_descriptor_set: Option<RawDescriptorSet>,
}

impl View for SimpleRenderPass {
    type V = SimpleRenderPassView;

    open spec fn view(&self) -> SimpleRenderPassView {
        SimpleRenderPassView {
            name: self.name@,
            shaders: self.shaders@,
            bindings: self.bindings@,
            constants: self.constants@,
            raw_descriptor_set: self.raw_descriptor_set,
        }
    }
}

/// A constants block that holds nothing.
pub open spec fn no_constants() -> ConstantsView {
    ConstantsView { extents: Seq::empty(), kernel_offsets: None }
}

impl SimpleRenderPassView {
    /// A declaration with a name and programs and nothing else.
    pub open spec fn start(name: Seq<char>, shaders: ShadersView) -> SimpleRenderPassView {
        SimpleRenderPassView {
            name,
            shaders,
            bindings: Seq::empty(),
            constants: no_constants(),
            raw_descriptor_set: None,
        }
    }

    /// The declaration with one more binding.
    pub open spec fn bind(self, resource: usize, kind: BindingKind) -> SimpleRenderPassView {
        SimpleRenderPassView { bindings: self.bindings.push(Binding { resource, kind }), ..self }
    }

    /// The declaration with its constants block replaced.
    pub open spec fn with_constants(self, constants: ConstantsView) -> SimpleRenderPassView {
        SimpleRenderPassView { constants, ..self }
    }

    /// The declaration with a raw descriptor set.
    pub open spec fn with_raw_descriptor_set(self, index: u32, set: u64) -> SimpleRenderPassView {
        SimpleRenderPassView {
            raw_descriptor_set: Some(RawDescriptorSet { index, set }),
            ..self
        }
    }

    /// The pass that launching the declaration in shape `dispatch` adds.
    pub open spec fn launched(self, dispatch: Dispatch) -> PassView {
        PassView {
            name: self.name,
            shaders: self.shaders,
            bindings: self.bindings,
            constants: self.constants,
            raw_descriptor_set: self.raw_descriptor_set,
            dispatch,
        }
    }
}

impl SimpleRenderPass {
    /// Starts the declaration of a compute pass.
    pub fn new_compute(name: &'static str, path: &'static str) -> (r: SimpleRenderPass)
        ensures
            r@ == SimpleRenderPassView::start(name@, ShadersView::Compute { path: path@ }),
    {
        SimpleRenderPass {
            name,
            shaders: Shaders::Compute { path },
            bindings: Vec::new(),
            constants: Constants { extents: Vec::new(), kernel_offsets: None },
            raw_descriptor_set: None,
        }
    }

    /// Starts the declaration of a ray-tracing pass.
    pub fn new_rt(
        name: &'static str,
        rgen: &'static str,
        miss: Vec<&'static str>,
        hit: Vec<&'static str>,
    ) -> (r: SimpleRenderPass)
        ensures
            r@ == SimpleRenderPassView::start(
                name@,
                ShadersView::RayTracing {
                    rgen: rgen@,
                    miss: miss@.map_values(|s: &'static str| s@),
                    hit: hit@.map_values(|s: &'static str| s@),
                },
            ),
    {
        SimpleRenderPass {
            name,
            shaders: Shaders::RayTracing { rgen, miss, hit },
            bindings: Vec::new(),
            constants: Constants { extents: Vec::new(), kernel_offsets: None },
            raw_descriptor_set: None,
        }
    }

    /// Binds an image for reading.
    pub fn read(self, handle: &ImageHandle) -> (r: SimpleRenderPass)
        ensures
            r@ == self@.bind(handle.spec_id(), BindingKind::Read),
    {
        let mut r = self;
        r.bindings.push(Binding { resource: handle.id(), kind: BindingKind::Read });
        r
    }

    /// Binds one aspect of an image for reading.
    pub fn read_aspect(self, handle: &ImageHandle, aspect: u32) -> (r: SimpleRenderPass)
        ensures
            r@ == self@.bind(handle.spec_id(), BindingKind::ReadAspect { aspect }),
    {
        let mut r = self;
        r.bindings.push(Binding { resource: handle.id(), kind: BindingKind::ReadAspect { aspect } });
        r
    }

    /// Binds a buffer for reading.
    pub fn read_buffer(self, handle: &BufferHandle) -> (r: SimpleRenderPass)
        ensures
            r@ == self@.bind(handle.spec_id(), BindingKind::Read),
    {
        let mut r = self;
        r.bindings.push(Binding { resource: handle.id(), kind: BindingKind::Read });
        r
    }

    /// Binds an image for writing. The handle is borrowed for writing, so an
    /// image that was given out read-only cannot be bound here.
    pub fn write(self, handle: &mut ImageHandle) -> (r: SimpleRenderPass)
        ensures
            r@ == self@.bind(old(handle).spec_id(), BindingKind::Write),
            *final(handle) == *old(handle),
    {
        let mut r = self;
        r.bindings.push(Binding { resource: handle.id(), kind: BindingKind::Write });
        r
    }

    /// Sets the constants block.
    pub fn constants(self, constants: Constants) -> (r: SimpleRenderPass)
        ensures
            r@ == self@.with_constants(constants@),
    {
        let mut r = self;
        r.constants = constants;
        r
    }

    /// Binds a descriptor set of the caller's at `index`.
    pub fn raw_descriptor_set(self, index: u32, set: u64) -> (r: SimpleRenderPass)
        ensures
            r@ == self@.with_raw_descriptor_set(index, set),
    {
        let mut r = self;
        r.raw_descriptor_set = Some(RawDescriptorSet { index, set });
        r
    }

    /// Launches the pass as a compute dispatch over `extent` and puts it
    /// into the frame after the passes declared so far.
    pub fn dispatch(self, rg: &mut RenderGraph, extent: Extent3)
        requires
            pass_ok(
                old(rg)@.resources,
                old(rg)@.passes,
                self@.launched(Dispatch::Compute { extent }),
            ),
        ensures
            final(rg)@.resources == old(rg)@.resources,
            final(rg)@.passes == old(rg)@.passes.push(
                self@.launched(Dispatch::Compute { extent }),
            ),
            final(rg).wf(),
    {
        let pass = Pass {
            name: self.name,
            shaders: self.shaders,
            bindings: self.bindings,
            constants: self.constants,
            raw_descriptor_set: self.raw_descriptor_set,
            dispatch: Dispatch::Compute { extent },
        };
        rg.add_pass(pass);
    }

    /// Launches the pass as a ray dispatch over `extent` against the
    /// acceleration structure `tlas` and puts it into the frame after the
    /// passes declared so far.
    pub fn trace_rays(self, rg: &mut RenderGraph, tlas: &AccelerationHandle, extent: Extent3)
        requires
            pass_ok(
                old(rg)@.resources,
                old(rg)@.passes,
                self@.launched(Dispatch::TraceRays { tlas: tlas.spec_id(), extent }),
            ),
        ensures
            final(rg)@.resources == old(rg)@.resources,
            final(rg)@.passes == old(rg)@.passes.push(
                self@.launched(Dispatch::TraceRays { tlas: tlas.spec_id(), extent }),
            ),
            final(rg).wf(),
    {
        let pass = Pass {
            name: self.name,
            shaders: self.shaders,
            bindings: self.bindings,
            constants: self.constants,
            raw_descriptor_set: self.raw_descriptor_set,
            dispatch: Dispatch::TraceRays { tlas: tlas.id(), extent },
        };
        rg.add_pass(pass);
    }
}

} // verus!
