//! The dummy node: its parameters, its descriptor role on the control side,
//! and its processor on the realtime side.
use vstd::prelude::*;
use crate::params::{ParamValue, Patch};
use crate::queue::{EventQueue, NodeEvent};

verus! {

/// Configuration of the dummy node type; it carries no settings.
#[derive(Clone, Copy, PartialEq, Eq, Structural, Debug, Default)]
pub struct DummyConfig;

/// How many channels a node takes in and gives out.
#[derive(Clone, Copy, PartialEq, Eq, Structural, Debug)]
pub struct ChannelConfig {
    pub num_inputs: u32,
    pub num_outputs: u32,
}

/// State created once when the node is registered and shared between the
/// control side and the processor, as the identifier of a realtime-safe handle.
#[derive(Clone, Copy, PartialEq, Eq, Structural, Debug)]
pub struct DummyState {
    pub shared_state: u64,
}

impl DummyState {
    /// State that shares the handle `shared_state`.
    pub fn new(shared_state: u64) -> (r: DummyState)
        ensures
            r.shared_state == shared_state,
    {
        DummyState { shared_state }
    }
}

/// What a node type tells the graph about itself.
pub struct AudioNodeInfo {
    pub debug_name: &'static str,
    pub channel_config: ChannelConfig,
    pub custom_state: DummyState,
}

/// The dummy node's parameters: one optional handle, at path 0.
#[derive(Clone, Copy, PartialEq, Eq, Structural, Debug)]
pub struct DummyNode {
    pub dummy: Option<u64>,
}

/// A patch of the dummy node: a new value for its one field.
#[derive(Clone, Copy, PartialEq, Eq, Structural, Debug)]
pub enum DummyNodePatch {
    Dummy(Option<u64>),
}

/// The outcome of one processed block.
#[derive(Clone, Copy, PartialEq, Eq, Structural, Debug)]
pub enum ProcessStatus {
    /// No output was computed; inputs pass through or the output is silent.
    Bypass,
    /// Meaningful output was written.
    Produced,
    /// The block could not be processed as asked.
    Fault,
}

/// The dummy node's patch that a generic patch stands for: the field at path
/// 0 with a handle value; anything else does not fit the node's shape.
pub open spec fn decode_spec(p: Patch) -> Option<DummyNodePatch> {
    if p.path == 0 {
        match p.value {
            ParamValue::Handle(h) => Some(DummyNodePatch::Dummy(h)),
            _ => None,
        }
    } else {
        None
    }
}

/// Whether an event is a parameter patch that does not fit the node's shape.
pub open spec fn misfit(e: NodeEvent) -> bool {
    match e {
        NodeEvent::Param(p) => decode_spec(p) is None,
        NodeEvent::Custom(_) => false,
    }
}

/// The parameters `m` after a patch.
pub open spec fn patch_spec(m: DummyNode, p: DummyNodePatch) -> DummyNode {
    match p {
        DummyNodePatch::Dummy(h) => DummyNode { dummy: h },
    }
}

/// The parameters `m` after the events `es`, first to last: each patch that
/// fits is applied; other events leave the parameters alone.
pub open spec fn apply_events_spec(m: DummyNode, es: Seq<NodeEvent>) -> DummyNode
    decreases es.len(),
{
    if es.len() == 0 {
        m
    } else {
        let prev = apply_events_spec(m, es.drop_last());
        match es.last() {
            NodeEvent::Param(p) => match decode_spec(p) {
                Some(dp) => patch_spec(prev, dp),
                None => prev,
            },
            NodeEvent::Custom(_) => prev,
        }
    }
}

/// The patches that take `a` to `b`: one for the field if it changed.
pub open spec fn diff_spec(a: DummyNode, b: DummyNode) -> Seq<DummyNodePatch> {
    if a.dummy != b.dummy {
        seq![DummyNodePatch::Dummy(b.dummy)]
    } else {
        Seq::empty()
    }
}

/// The parameters `m` after the patches `ps`, first to last.
pub open spec fn apply_patches_spec(m: DummyNode, ps: Seq<DummyNodePatch>) -> DummyNode
    decreases ps.len(),
{
    if ps.len() == 0 {
        m
    } else {
        patch_spec(apply_patches_spec(m, ps.drop_last()), ps.last())
    }
}

/// Applying the diff from `a` to `b` on a mirror of `a` gives `b`.
pub proof fn lemma_apply_diff(a: DummyNode, b: DummyNode)
    ensures
        apply_patches_spec(a, diff_spec(a, b)) == b,
{
    if a.dummy != b.dummy {
        assert(diff_spec(a, b).drop_last() =~= Seq::<DummyNodePatch>::empty());
    }
}

/// The diff of parameters with themselves is empty.
pub proof fn lemma_diff_same(a: DummyNode)
    ensures
        diff_spec(a, a).len() == 0,
{
}

/// Applying one patch twice gives the same parameters as applying it once.
pub proof fn lemma_patch_twice(m: DummyNode, p: DummyNodePatch)
    ensures
        patch_spec(patch_spec(m, p), p) == patch_spec(m, p),
{
}

/// Events are applied in order: those of `s` first, then those of `es`.
pub proof fn lemma_apply_events_concat(m: DummyNode, s: Seq<NodeEvent>, es: Seq<NodeEvent>)
    ensures
        apply_events_spec(m, s + es) == apply_events_spec(apply_events_spec(m, s), es),
    decreases es.len(),
{
    if es.len() == 0 {
        assert(s + es =~= s);
    } else {
        lemma_apply_events_concat(m, s, es.drop_last());
        assert((s + es).drop_last() =~= s + es.drop_last());
        assert((s + es).last() == es.last());
    }
}

/// The status of a block whose drained events were `es`.
pub open spec fn status_spec(es: Seq<NodeEvent>) -> ProcessStatus {
    if exists|k: int| 0 <= k < es.len() && misfit(#[trigger] es[k]) {
        ProcessStatus::Fault
    } else {
        ProcessStatus::Bypass
    }
}

impl Default for DummyNode {
    fn default() -> (r: DummyNode)
        ensures
            r.dummy is None,
    {
        DummyNode { dummy: None }
    }
}

impl DummyNodePatch {
    /// Decodes a generic patch into the dummy node's patch, if it fits.
    pub fn from_patch(p: &Patch) -> (r: Option<DummyNodePatch>)
        ensures
            r == decode_spec(*p),
    {
        if p.path == 0 {
            match p.value {
                ParamValue::Handle(h) => Some(DummyNodePatch::Dummy(h)),
                _ => None,
            }
        } else {
            None
        }
    }
}

impl DummyNode {
    /// The node's description: named "dummy", no inputs, two outputs, and
    /// the given shared state.
    pub fn info(&self, _config: &DummyConfig, custom_state: DummyState) -> (r: AudioNodeInfo)
        ensures
            r.debug_name@ == "dummy"@,
            r.channel_config == (ChannelConfig { num_inputs: 0, num_outputs: 2 }),
            r.custom_state == custom_state,
    {
        proof {
            reveal_strlit("dummy");
        }
        AudioNodeInfo {
            debug_name: "dummy",
            channel_config: ChannelConfig { num_inputs: 0, num_outputs: 2 },
            custom_state,
        }
    }

    /// The processor for this node: it mirrors the current parameters and
    /// shares the handle of the node's state.
    pub fn construct_processor(&self, config: &DummyConfig, custom_state: &DummyState) -> (r:
        Processor)
        ensures
            r.params == *self,
            r.shared_state == custom_state.shared_state,
            r.config == *config,
    {
        Processor { params: *self, shared_state: custom_state.shared_state, config: *config }
    }

    /// Points the node's one field at the handle `handle`.
    pub fn set_dummy(&mut self, handle: u64)
        ensures
            final(self).dummy == Some(handle),
    {
        self.dummy = Some(handle);
    }

    /// The event that carries the node's one field to its processor.
    pub fn sync_dummy(&self) -> (r: NodeEvent)
        ensures
            r == NodeEvent::Param(Patch { path: 0, value: ParamValue::Handle(self.dummy) }),
            decode_spec(Patch { path: 0, value: ParamValue::Handle(self.dummy) }) == Some(
                DummyNodePatch::Dummy(self.dummy),
            ),
    {
        NodeEvent::Param(Patch { path: 0, value: ParamValue::Handle(self.dummy) })
    }

    /// The patches that take this node's parameters to `new`: one if the
    /// field changed, none otherwise.
    pub fn diff(&self, new: &DummyNode) -> (r: Vec<DummyNodePatch>)
        ensures
            r@ == diff_spec(*self, *new),
    {
        let mut out: Vec<DummyNodePatch> = Vec::new();
        if self.dummy != new.dummy {
            out.push(DummyNodePatch::Dummy(new.dummy));
        }
        assert(out@ =~= diff_spec(*self, *new));
        out
    }

    /// Overwrites the field that `patch` addresses.
    pub fn apply(&mut self, patch: DummyNodePatch)
        ensures
            *final(self) == patch_spec(*old(self), patch),
    {
        match patch {
            DummyNodePatch::Dummy(h) => {
                self.dummy = h;
            },
        }
    }
}

/// The realtime side of a dummy node.
pub struct Processor {
    pub params: DummyNode,
    pub shared_state: u64,
    pub config: DummyConfig,
}

impl Processor {
    /// Processes one block: drains the node's queue, applies each patch to the
    /// mirrored parameters in the order it was enqueued, and reports `Fault`
    /// when a patch did not fit the node's shape, `Bypass` otherwise.
    pub fn process(&mut self, events: &mut EventQueue) -> (r: ProcessStatus)
        requires
            old(events).wf(),
        ensures
            final(events).wf(),
            final(events)@.len() == 0,
            final(events).spec_capacity() == old(events).spec_capacity(),
            final(events).spec_closed() == old(events).spec_closed(),
            final(self).params == apply_events_spec(old(self).params, old(events)@),
            final(self).shared_state == old(self).shared_state,
            final(self).config == old(self).config,
            r == status_spec(old(events)@),
    {
        let drained = events.drain();
        let mut fault = false;
        let mut i: usize = 0;
        while i < drained.len()
            invariant
                i <= drained@.len(),
                self.params == apply_events_spec(old(self).params, drained@.subrange(0, i as int)),
                self.shared_state == old(self).shared_state,
                self.config == old(self).config,
                fault <==> exists|k: int| 0 <= k < i && misfit(#[trigger] drained@[k]),
            decreases drained@.len() - i,
        {
            let e = drained[i];
            proof {
                assert(drained@.subrange(0, i + 1).drop_last() =~= drained@.subrange(0, i as int));
            }
            match e {
                NodeEvent::Param(p) => match DummyNodePatch::from_patch(&p) {
                    Some(dp) => self.params.apply(dp),
                    None => {
                        fault = true;
                    },
                },
                NodeEvent::Custom(_) => {},
            }
            i = i + 1;
        }
        assert(drained@.subrange(0, drained@.len() as int) =~= drained@);
        if fault {
            ProcessStatus::Fault
        } else {
            ProcessStatus::Bypass
        }
    }
}

} // verus!
