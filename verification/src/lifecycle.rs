//! Lifecycle ownership: recording created driver resources and tearing
//! them down in exactly the reverse of creation order.
//!
//! The owner moves through `Uninitialized -> Initialized -> Destroyed`.
//! `Initialized` is reached only after every bring-up stage has succeeded;
//! teardown works on whatever was recorded, so a bring-up that failed
//! mid-sequence still unwinds exactly the resources it created, in reverse
//! order, before the failure is reported upward.

use vstd::prelude::*;

use crate::error::BringUpError;
use crate::error::Stage;

verus! {

/// The kinds of driver resources created during bring-up, in creation
/// order. Teardown destroys kinds in exactly the reverse of this order.
#[derive(Clone, Copy, Debug, PartialEq, Eq, Structural)]
pub enum ResourceKind {
    Instance,
    DebugReporter,
    Surface,
    LogicalDevice,
    Swapchain,
    ImageView,
    RenderPass,
    PipelineLayout,
    Pipeline,
    Framebuffer,
}

/// One created driver resource: its kind and its raw handle.
#[derive(Clone, Copy, Debug, PartialEq, Eq, Structural)]
pub struct Resource {
    pub kind: ResourceKind,
    pub handle: u64,
}

/// Position of a resource kind in the creation order. A resource may only
/// be recorded after every resource of a lower rank, so reversing the
/// record yields the prescribed teardown order: framebuffers, pipeline,
/// pipeline layout, render pass, image views, swapchain, logical device,
/// surface, debug reporter, instance.
pub open spec fn creation_rank(kind: ResourceKind) -> int {
    match kind {
        ResourceKind::Instance => 0,
        ResourceKind::DebugReporter => 1,
        ResourceKind::Surface => 2,
        ResourceKind::LogicalDevice => 3,
        ResourceKind::Swapchain => 4,
        ResourceKind::ImageView => 5,
        ResourceKind::RenderPass => 6,
        ResourceKind::PipelineLayout => 7,
        ResourceKind::Pipeline => 8,
        ResourceKind::Framebuffer => 9,
    }
}

/// The stage that creates resources of the given kind.
pub open spec fn creating_stage(kind: ResourceKind) -> Stage {
    match kind {
        ResourceKind::Instance => Stage::Instance,
        ResourceKind::DebugReporter => Stage::DebugReporter,
        ResourceKind::Surface => Stage::Surface,
        ResourceKind::LogicalDevice => Stage::LogicalDevice,
        ResourceKind::Swapchain => Stage::Swapchain,
        ResourceKind::ImageView => Stage::ImageViews,
        ResourceKind::RenderPass => Stage::RenderPass,
        ResourceKind::PipelineLayout => Stage::Pipeline,
        ResourceKind::Pipeline => Stage::Pipeline,
        ResourceKind::Framebuffer => Stage::Framebuffers,
    }
}

/// A record respects creation order when ranks never decrease along it.
pub open spec fn creation_ordered(s: Seq<Resource>) -> bool {
    forall|i: int, j: int|
        0 <= i < j < s.len() ==> creation_rank((#[trigger] s[i]).kind) <= creation_rank(
            (#[trigger] s[j]).kind,
        )
}

/// Lifecycle of the whole rendering context.
#[derive(Clone, Copy, Debug, PartialEq, Eq, Structural)]
pub enum LifecycleState {
    /// Bring-up has not completed; some resources may exist.
    Uninitialized,
    /// Every bring-up stage succeeded; all resources exist.
    Initialized,
    /// Teardown has run; no resource exists.
    Destroyed,
}

/// The single authority over teardown: it records every created resource in
/// creation order and destroys them all, exactly once, in reverse order.
#[derive(Clone, Debug)]
pub struct LifecycleOwner {
    state: LifecycleState,
    created: Vec<Resource>,
}

/// What teardown does to an owner in state `state` holding `created`:
/// the resulting state, the resources still held, and the destruction plan,
/// in destruction order.
pub open spec fn teardown_transition(state: LifecycleState, created: Seq<Resource>) -> (
    LifecycleState,
    Seq<Resource>,
    Seq<Resource>,
) {
    if state is Destroyed {
        (state, created, Seq::empty())
    } else {
        (LifecycleState::Destroyed, Seq::empty(), created.reverse())
    }
}

impl LifecycleOwner {
    /// The recorded resources, in creation order.
    pub closed spec fn created_seq(self) -> Seq<Resource> {
        self.created@
    }

    /// The current lifecycle state.
    pub closed spec fn state_spec(self) -> LifecycleState {
        self.state
    }

    /// Invariant: the record respects creation order, and a destroyed owner
    /// holds nothing.
    pub open spec fn wf(self) -> bool {
        &&& creation_ordered(self.created_seq())
        &&& self.state_spec() is Destroyed ==> self.created_seq().len() == 0
    }

    /// A fresh owner: uninitialized, holding nothing.
    pub fn new() -> (r: Self)
        ensures
            r.wf(),
            r.state_spec() is Uninitialized,
            r.created_seq().len() == 0,
    {
        LifecycleOwner { state: LifecycleState::Uninitialized, created: Vec::new() }
    }

    /// The current lifecycle state.
    pub fn state(&self) -> (r: LifecycleState)
        ensures
            r == self.state_spec(),
    {
        self.state
    }

    /// Number of resources currently recorded.
    pub fn resource_count(&self) -> (r: usize)
        ensures
            r == self.created_seq().len(),
    {
        self.created.len()
    }

    /// Records a resource the driver just created. Recording is accepted
    /// only during bring-up and only in creation order; anything else is a
    /// configuration bug, and the owner is left unchanged.
    pub fn record(&mut self, kind: ResourceKind, handle: u64) -> (r: Result<(), BringUpError>)
        requires
            old(self).wf(),
        ensures
            final(self).wf(),
            r is Ok <==> {
                &&& old(self).state_spec() is Uninitialized
                &&& (old(self).created_seq().len() == 0 || creation_rank(
                    old(self).created_seq().last().kind,
                ) <= creation_rank(kind))
            },
            r matches Ok(()) ==> {
                &&& final(self).created_seq() == old(self).created_seq().push(
                    Resource { kind, handle },
                )
                &&& final(self).state_spec() == old(self).state_spec()
            },
            r matches Err(e) ==> {
                &&& e == BringUpError::ConfigurationBug(creating_stage(kind))
                &&& final(self).created_seq() == old(self).created_seq()
                &&& final(self).state_spec() == old(self).state_spec()
            },
    {
        let in_order = match self.state {
            LifecycleState::Uninitialized => {
                if self.created.len() == 0 {
                    true
                } else {
                    let last = self.created[self.created.len() - 1];
                    rank_of(last.kind) <= rank_of(kind)
                }
            },
            _ => false,
        };
        if !in_order {
            return Err(BringUpError::ConfigurationBug(stage_of(kind)));
        }
        self.created.push(Resource { kind, handle });
        Ok(())
    }

    /// A resource of the given kind has been recorded.
    pub open spec fn has_kind(self, kind: ResourceKind) -> bool {
        exists|i: int|
            0 <= i < self.created_seq().len() && (#[trigger] self.created_seq()[i]).kind == kind
    }

    /// Whether a resource of the given kind has been recorded.
    fn holds_kind(&self, kind: ResourceKind) -> (r: bool)
        ensures
            r == self.has_kind(kind),
    {
        let mut i: usize = 0;
        while i < self.created.len()
            invariant
                0 <= i <= self.created_seq().len(),
                forall|j: int| 0 <= j < i ==> (#[trigger] self.created_seq()[j]).kind != kind,
            decreases self.created_seq().len() - i,
        {
            if self.created[i].kind == kind {
                return true;
            }
            i += 1;
        }
        false
    }

    /// Every resource kind bring-up must create has been recorded; the
    /// debug reporter only when validation is enabled.
    pub open spec fn complete(self, validation_enabled: bool) -> bool {
        &&& self.has_kind(ResourceKind::Instance)
        &&& (validation_enabled ==> self.has_kind(ResourceKind::DebugReporter))
        &&& self.has_kind(ResourceKind::Surface)
        &&& self.has_kind(ResourceKind::LogicalDevice)
        &&& self.has_kind(ResourceKind::Swapchain)
        &&& self.has_kind(ResourceKind::ImageView)
        &&& self.has_kind(ResourceKind::RenderPass)
        &&& self.has_kind(ResourceKind::PipelineLayout)
        &&& self.has_kind(ResourceKind::Pipeline)
        &&& self.has_kind(ResourceKind::Framebuffer)
    }

    /// Moves the owner to `Initialized`. Accepted only when bring-up is
    /// still under way and every stage has recorded its resources — the
    /// debug reporter being required only when validation is enabled;
    /// otherwise the owner is left unchanged and the violation is reported
    /// as a configuration bug.
    pub fn mark_initialized(&mut self, validation_enabled: bool) -> (r: Result<(), BringUpError>)
        requires
            old(self).wf(),
        ensures
            final(self).wf(),
            r is Ok <==> (old(self).state_spec() is Uninitialized && old(self).complete(
                validation_enabled,
            )),
            r matches Ok(()) ==> {
                &&& final(self).state_spec() is Initialized
                &&& final(self).created_seq() == old(self).created_seq()
            },
            r matches Err(e) ==> {
                &&& e == BringUpError::ConfigurationBug(Stage::Framebuffers)
                &&& final(self).state_spec() == old(self).state_spec()
                &&& final(self).created_seq() == old(self).created_seq()
            },
    {
        let is_uninitialized = match self.state {
            LifecycleState::Uninitialized => true,
            _ => false,
        };
        let complete = self.holds_kind(ResourceKind::Instance) && (!validation_enabled
            || self.holds_kind(ResourceKind::DebugReporter)) && self.holds_kind(
            ResourceKind::Surface,
        ) && self.holds_kind(ResourceKind::LogicalDevice) && self.holds_kind(
            ResourceKind::Swapchain,
        ) && self.holds_kind(ResourceKind::ImageView) && self.holds_kind(ResourceKind::RenderPass)
            && self.holds_kind(ResourceKind::PipelineLayout) && self.holds_kind(
            ResourceKind::Pipeline,
        ) && self.holds_kind(ResourceKind::Framebuffer);
        if is_uninitialized && complete {
            self.state = LifecycleState::Initialized;
            Ok(())
        } else {
            Err(BringUpError::ConfigurationBug(Stage::Framebuffers))
        }
    }

    /// Tears the context down. On the first invocation the returned plan
    /// lists every recorded resource, each exactly once, in exactly the
    /// reverse of creation order, and the owner ends `Destroyed` holding
    /// nothing; on an already-destroyed owner the call is a no-op returning
    /// an empty plan — never a double destroy.
    pub fn teardown(&mut self) -> (plan: Vec<Resource>)
        requires
            old(self).wf(),
        ensures
            final(self).wf(),
            (final(self).state_spec(), final(self).created_seq(), plan@) == teardown_transition(
                old(self).state_spec(),
                old(self).created_seq(),
            ),
            final(self).state_spec() is Destroyed,
            old(self).state_spec() is Destroyed ==> plan@.len() == 0 && final(self).created_seq()
                == old(self).created_seq(),
            !(old(self).state_spec() is Destroyed) ==> plan@ == old(self).created_seq().reverse(),
    {
        let destroyed = match self.state {
            LifecycleState::Destroyed => true,
            _ => false,
        };
        if destroyed {
            proof {
                assert(self.created_seq() =~= Seq::<Resource>::empty());
            }
            return Vec::new();
        }
        let ghost original = self.created@;
        let mut plan: Vec<Resource> = Vec::new();
        let mut remaining = self.created.len();
        while remaining > 0
            invariant
                0 <= remaining <= original.len(),
                self.created@ == original,
                plan@ =~= original.reverse().take((original.len() - remaining) as int),
            decreases remaining,
        {
            remaining -= 1;
            plan.push(self.created[remaining]);
        }
        self.created = Vec::new();
        self.state = LifecycleState::Destroyed;
        proof {
            assert(plan@ =~= original.reverse());
        }
        plan
    }
}

/// Runtime counterpart of [`creation_rank`].
fn rank_of(kind: ResourceKind) -> (r: u32)
    ensures
        r == creation_rank(kind),
{
    match kind {
        ResourceKind::Instance => 0,
        ResourceKind::DebugReporter => 1,
        ResourceKind::Surface => 2,
        ResourceKind::LogicalDevice => 3,
        ResourceKind::Swapchain => 4,
        ResourceKind::ImageView => 5,
        ResourceKind::RenderPass => 6,
        ResourceKind::PipelineLayout => 7,
        ResourceKind::Pipeline => 8,
        ResourceKind::Framebuffer => 9,
    }
}

/// Runtime counterpart of [`creating_stage`].
fn stage_of(kind: ResourceKind) -> (r: Stage)
    ensures
        r == creating_stage(kind),
{
    match kind {
        ResourceKind::Instance => Stage::Instance,
        ResourceKind::DebugReporter => Stage::DebugReporter,
        ResourceKind::Surface => Stage::Surface,
        ResourceKind::LogicalDevice => Stage::LogicalDevice,
        ResourceKind::Swapchain => Stage::Swapchain,
        ResourceKind::ImageView => Stage::ImageViews,
        ResourceKind::RenderPass => Stage::RenderPass,
        ResourceKind::PipelineLayout => Stage::Pipeline,
        ResourceKind::Pipeline => Stage::Pipeline,
        ResourceKind::Framebuffer => Stage::Framebuffers,
    }
}

/// Teardown destroys exactly the recorded resources, each exactly once, in
/// exactly the reverse of creation order: the plan has one entry per
/// recorded resource, entry `i` of the plan is the resource recorded at
/// position `len - 1 - i`, and the plan holds the same multiset of
/// resources as the record — no double destroy and no leaked handle. This
/// holds whether the record is complete (teardown after successful
/// bring-up) or partial (teardown after a mid-sequence failure).
pub proof fn lemma_teardown_exact(state: LifecycleState, created: Seq<Resource>)
    requires
        !(state is Destroyed),
    ensures
        teardown_transition(state, created).2.len() == created.len(),
        forall|i: int|
            0 <= i < created.len() ==> teardown_transition(state, created).2[i] == created[created.len()
                - 1 - i],
        teardown_transition(state, created).2.to_multiset() == created.to_multiset(),
{
    created.lemma_reverse_to_multiset();
    assert(created.reverse().to_multiset() == created.to_multiset());
}

/// Teardown is idempotent: after one teardown the owner is destroyed and
/// empty, and a second teardown changes nothing and destroys nothing —
/// never a double free.
pub proof fn lemma_teardown_idempotent(state: LifecycleState, created: Seq<Resource>)
    ensures
        ({
            let (s1, c1, _p1) = teardown_transition(state, created);
            let (s2, c2, p2) = teardown_transition(s1, c1);
            &&& s1 is Destroyed
            &&& s2 == s1
            &&& c2 == c1
            &&& p2.len() == 0
        }),
{
}

} // verus!
