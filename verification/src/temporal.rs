//! The temporal history store: two images that take turns. Each frame one
//! is written and the other, which the frame before wrote, is read.

use vstd::prelude::*;
use crate::graph::pair_absent;
use crate::graph::ImageHandle;
use crate::graph::RenderGraph;
use crate::graph::ResourceView;
use crate::graph::TemporalRole;
use crate::image::ImageDesc;
use crate::image::IMAGE_USAGE_SAMPLED_STORAGE;

verus! {

/// A pair of images that persist from frame to frame.
#[derive(Debug, PartialEq, Eq)]
pub struct PingPongTemporalResource {
    name: &'static str,
    desc: Option<ImageDesc>,
    output_slot: u8,
}

/// The state of a [`PingPongTemporalResource`]: the name of the pair, the
/// descriptor that its images were allocated with, if they were, and the
/// slot that the next frame writes.
pub struct PingPongView {
    pub name: Seq<char>,
    pub desc: Option<ImageDesc>,
    pub output_slot: u8,
}

impl View for PingPongTemporalResource {
    type V = PingPongView;

    closed spec fn view(&self) -> PingPongView {
        PingPongView { name: self.name@, desc: self.desc, output_slot: self.output_slot }
    }
}

/// The descriptor that the images of a pair get in a frame that asks for
/// `desc`: the same, but sampled and stored to, which is how every frame
/// uses them.
pub open spec fn allocated_desc(desc: ImageDesc) -> ImageDesc {
    desc.spec_usage(IMAGE_USAGE_SAMPLED_STORAGE)
}

impl PingPongView {
    /// There are two slots, 0 and 1.
    pub open spec fn wf(self) -> bool {
        self.output_slot <= 1
    }

    /// The slot that the next frame reads.
    pub open spec fn history_slot(self) -> u8 {
        (1 - self.output_slot) as u8
    }

    /// A frame that asks for `desc` finds no images to reuse: none were
    /// allocated yet, or they were allocated with another descriptor.
    pub open spec fn allocates(self, desc: ImageDesc) -> bool {
        self.desc != Some(allocated_desc(desc))
    }

    /// The image that a frame asking for `desc` writes.
    pub open spec fn output(self, desc: ImageDesc) -> ResourceView {
        ResourceView::Temporal {
            name: self.name,
            slot: self.output_slot,
            desc: allocated_desc(desc),
            role: TemporalRole::Output,
            fresh: self.allocates(desc),
        }
    }

    /// The image that a frame asking for `desc` reads.
    pub open spec fn history(self, desc: ImageDesc) -> ResourceView {
        ResourceView::Temporal {
            name: self.name,
            slot: self.history_slot(),
            desc: allocated_desc(desc),
            role: TemporalRole::History,
            fresh: self.allocates(desc),
        }
    }

    /// The state after a frame that asked for `desc`.
    pub open spec fn next(self, desc: ImageDesc) -> PingPongView {
        PingPongView {
            name: self.name,
            desc: Some(allocated_desc(desc)),
            output_slot: self.history_slot(),
        }
    }

    /// The state after the first `k` frames of a run that asks for `descs`
    /// in turn.
    pub open spec fn after(self, descs: Seq<ImageDesc>, k: nat) -> PingPongView
        decreases k,
    {
        if k == 0 {
            self
        } else {
            self.after(descs, (k - 1) as nat).next(descs[k - 1])
        }
    }
}

impl PingPongTemporalResource {
    /// There are two slots, 0 and 1. This holds of every pair.
    #[verifier::type_invariant]
    pub open spec fn wf(&self) -> bool {
        self@.wf()
    }

    /// A pair called `name`, with no image allocated yet.
    pub fn new(name: &'static str) -> (r: PingPongTemporalResource)
        ensures
            r@ == (PingPongView { name: name@, desc: None, output_slot: 0 }),
            r.wf(),
    {
        PingPongTemporalResource { name, desc: None, output_slot: 0 }
    }

    /// A pair in the same state: same name, same descriptor, same slot to
    /// write next. To put a pair back as it was before a frame that the
    /// back end gave up, keep such a pair from before the frame.
    pub fn duplicate(&self) -> (r: PingPongTemporalResource)
        ensures
            r@ == self@,
    {
        proof {
            use_type_invariant(self);
        }
        PingPongTemporalResource {
            name: self.name,
            desc: self.desc,
            output_slot: self.output_slot,
        }
    }

    /// The name of the pair.
    pub fn name(&self) -> (r: &'static str)
        ensures
            r@ == self@.name,
    {
        self.name
    }

    /// The descriptor that the images were allocated with, if they were.
    pub fn desc(&self) -> (r: Option<ImageDesc>)
        ensures
            r == self@.desc,
    {
        self.desc
    }

    /// The slot that the next frame writes.
    pub fn output_slot(&self) -> (r: u8)
        ensures
            r == self@.output_slot,
    {
        self.output_slot
    }

    /// Brings the two images into the frame, first the one to write, then
    /// the one to read, and swaps their roles for the frame after.
    ///
    /// The images have the descriptor `desc`, sampled and stored to. Where
    /// the pair was not allocated with it, both images are marked fresh: the
    /// back end allocates them anew, and the history holds nothing that a
    /// pass may rely on.
    ///
    /// A pair enters a frame at most once, so the frame must not hold an
    /// image of it yet.
    pub fn get_output_and_history(&mut self, rg: &mut RenderGraph, desc: ImageDesc) -> (r: (
        ImageHandle,
        ImageHandle,
    ))
        requires
            pair_absent(old(rg)@.resources, old(self)@.name),
        ensures
            final(self)@ == old(self)@.next(desc),
            final(self).wf(),
            final(rg)@.resources == old(rg)@.resources.push(old(self)@.output(desc)).push(
                old(self)@.history(desc),
            ),
            final(rg)@.passes == old(rg)@.passes,
            final(rg).wf(),
            r.0.spec_id() == old(rg)@.resources.len(),
            r.1.spec_id() == old(rg)@.resources.len() + 1,
            r.0.spec_desc() == allocated_desc(desc),
            r.1.spec_desc() == allocated_desc(desc),
    {
        proof {
            use_type_invariant(&*self);
        }
        let desc = desc.usage(IMAGE_USAGE_SAMPLED_STORAGE);
        let fresh = match self.desc {
            Some(d) => !(d == desc),
            None => true,
        };
        let output_slot = self.output_slot;
        let history_slot = 1 - self.output_slot;
        assert forall|i: int| 0 <= i < rg@.resources.len() implies !(#[trigger] rg@.resources[i])
            .is_temporal(self@.name, output_slot) by {
            assert(!rg@.resources[i].belongs_to(self@.name));
        }
        let output_tex = rg.import_temporal(
            self.name,
            output_slot,
            desc,
            TemporalRole::Output,
            fresh,
        );
        assert forall|i: int| 0 <= i < rg@.resources.len() implies !(#[trigger] rg@.resources[i])
            .is_temporal(self@.name, history_slot) by {
            if i < old(rg)@.resources.len() {
                assert(rg@.resources[i] == old(rg)@.resources[i]);
                assert(!old(rg)@.resources[i].belongs_to(self@.name));
            }
        }
        let history_tex = rg.import_temporal(
            self.name,
            history_slot,
            desc,
            TemporalRole::History,
            fresh,
        );
        self.desc = Some(desc);
        self.output_slot = history_slot;
        (output_tex, history_tex)
    }
}

/// What a frame reads as history is the image that the frame before wrote,
/// as long as both frames ask for the same descriptor: the same slot of the
/// same pair, not allocated anew in between.
pub proof fn history_is_previous_output(s: PingPongView, descs: Seq<ImageDesc>, k: nat)
    requires
        s.wf(),
        1 <= k < descs.len(),
        descs[k as int] == descs[k - 1],
    ensures
        s.after(descs, k).history(descs[k as int]) == (ResourceView::Temporal {
            name: s.name,
            slot: s.after(descs, (k - 1) as nat).output_slot,
            desc: allocated_desc(descs[k - 1]),
            role: TemporalRole::History,
            fresh: false,
        }),
        s.after(descs, (k - 1) as nat).output(descs[k - 1]).is_temporal(
            s.name,
            s.after(descs, (k - 1) as nat).output_slot,
        ),
        s.after(descs, (k - 1) as nat).output(descs[k - 1]).image_desc() == Some(
            allocated_desc(descs[k - 1]),
        ),
{
    lemma_after_keeps(s, descs, (k - 1) as nat);
}

/// Frames change neither the name of a pair nor the number of its slots.
pub proof fn lemma_after_keeps(s: PingPongView, descs: Seq<ImageDesc>, k: nat)
    requires
        s.wf(),
    ensures
        s.after(descs, k).wf(),
        s.after(descs, k).name == s.name,
    decreases k,
{
    if k > 0 {
        lemma_after_keeps(s, descs, (k - 1) as nat);
    }
}

/// Whatever a frame stores in its output image, the frame after finds in its
/// history image, whatever the two images held before, as long as both
/// frames ask for the same descriptor. `images` maps each slot of the pair
/// to what its image holds.
pub proof fn history_holds_what_was_written<T>(
    s: PingPongView,
    desc: ImageDesc,
    images: Map<u8, T>,
    written: T,
)
    requires
        s.wf(),
    ensures
        images.insert(s.output_slot, written)[s.next(desc).history_slot()] == written,
        !s.next(desc).allocates(desc),
{
}

/// In every frame the image to write and the image to read are the two
/// different slots of the pair.
pub proof fn output_and_history_differ(s: PingPongView, desc: ImageDesc)
    requires
        s.wf(),
    ensures
        s.output_slot != s.history_slot(),
        s.output(desc).is_temporal(s.name, s.output_slot),
        s.history(desc).is_temporal(s.name, s.history_slot()),
        s.output(desc).writable(),
        !s.history(desc).writable(),
        s.next(desc).wf(),
        s.next(desc).next(desc).output_slot == s.output_slot,
{
}

/// A frame that asks for a descriptor other than the one the pair was
/// allocated with gets two fresh images of the new descriptor, and the pair
/// keeps the new descriptor: nothing of the old size can be read.
pub proof fn new_descriptor_invalidates(s: PingPongView, desc: ImageDesc)
    requires
        s.wf(),
        s.desc != Some(allocated_desc(desc)),
    ensures
        s.output(desc).is_fresh(),
        s.history(desc).is_fresh(),
        s.output(desc).image_desc() == Some(allocated_desc(desc)),
        s.history(desc).image_desc() == Some(allocated_desc(desc)),
        s.next(desc).desc == Some(allocated_desc(desc)),
{
}

} // verus!
