//! The control-side facade: the graph, one event queue per node, and the
//! stream's lifecycle.
use vstd::prelude::*;
use crate::graph::{closes_cycle, new_edges, port_bad, port_error, AudioGraph, ConnectError, NodeID};
use crate::node::{
    apply_events_spec, lemma_apply_events_concat, status_spec, ChannelConfig, DummyConfig, DummyNode, DummyState,
    ProcessStatus, Processor,
};
use crate::queue::{after_pushes, lemma_fifo, EventQueue, NodeEvent, QueueError};
use crate::stream::{BackendEvent, StreamLifecycle, StreamStartError, StreamState, UpdateError, start_spec, update_spec};

verus! {

/// Why an event was not queued for a node.
#[derive(Clone, Copy, PartialEq, Eq, Structural, Debug)]
pub enum QueueEventError {
    NodeNotFound(NodeID),
    Queue(QueueError),
}

/// A processor whose mirror was `m` when its queue held `s`, and which then
/// had the events `es` queued one by one, applies at its next block those of
/// `s` and then those of `es`, each in the order it was queued.
pub proof fn lemma_patches_in_order(m: DummyNode, s: Seq<NodeEvent>, es: Seq<NodeEvent>)
    ensures
        apply_events_spec(m, after_pushes(s, es)) == apply_events_spec(apply_events_spec(m, s), es),
{
    lemma_fifo(s, es);
    lemma_apply_events_concat(m, s, es);
}

/// The graph, its nodes' event queues and its stream, owned by the control
/// side.
pub struct GraphContext {
    graph: AudioGraph,
    queues: Vec<EventQueue>,
    stream: StreamLifecycle,
    queue_capacity: usize,
}

impl GraphContext {
    pub closed spec fn spec_graph(&self) -> AudioGraph {
        self.graph
    }

    /// The events queued for node `i`, oldest first.
    pub closed spec fn spec_queue(&self, i: int) -> Seq<NodeEvent> {
        self.queues@[i]@
    }

    /// Whether node `i` is pending removal.
    pub closed spec fn spec_closed(&self, i: int) -> bool {
        self.queues@[i].spec_closed()
    }

    pub closed spec fn spec_queue_capacity(&self) -> nat {
        self.queue_capacity as nat
    }

    pub closed spec fn spec_stream(&self) -> StreamState {
        self.stream.spec_state()
    }

    pub closed spec fn wf(&self) -> bool {
        &&& self.graph.wf()
        &&& self.queues@.len() == self.graph.spec_nodes().len()
        &&& forall|i: int|
            0 <= i < self.queues@.len() ==> (#[trigger] self.queues@[i]).wf()
                && self.queues@[i].spec_capacity() == self.queue_capacity
    }

    pub open spec fn num_nodes(&self) -> nat {
        self.spec_graph().spec_nodes().len()
    }

    /// A context with only the graph's output node, of `num_outputs`
    /// channels, whose queues hold at most `queue_capacity` events each.
    pub fn new(num_outputs: u32, queue_capacity: usize) -> (r: GraphContext)
        ensures
            r.wf(),
            r.spec_graph().spec_nodes() == seq![ChannelConfig { num_inputs: num_outputs, num_outputs: 0 }],
            r.spec_graph().spec_edges().len() == 0,
            r.spec_queue(0).len() == 0,
            !r.spec_closed(0),
            r.spec_queue_capacity() == queue_capacity,
            r.spec_stream() == StreamState::NotStarted,
    {
        let graph = AudioGraph::new(num_outputs);
        let mut queues: Vec<EventQueue> = Vec::new();
        queues.push(EventQueue::new(queue_capacity));
        GraphContext { graph, queues, stream: StreamLifecycle::new(), queue_capacity }
    }

    pub fn graph(&self) -> (r: &AudioGraph)
        ensures
            *r == self.spec_graph(),
    {
        &self.graph
    }

    pub fn graph_out_node_id(&self) -> (r: NodeID)
        ensures
            r.idx == 0,
    {
        self.graph.graph_out_node_id()
    }

    /// Adds a dummy node: its channel configuration comes from its
    /// description, it gets an empty queue, and its processor is built here,
    /// to be handed to the realtime side.
    pub fn add_node(&mut self, node: &DummyNode, config: &DummyConfig, custom_state: DummyState) -> (r: (NodeID, Processor))
        requires
            old(self).wf(),
            old(self).num_nodes() < usize::MAX,
        ensures
            final(self).wf(),
            r.0.idx == old(self).num_nodes(),
            final(self).spec_graph().spec_nodes() == old(self).spec_graph().spec_nodes().push(
                ChannelConfig { num_inputs: 0, num_outputs: 2 },
            ),
            final(self).spec_graph().spec_edges() == old(self).spec_graph().spec_edges(),
            final(self).spec_queue(r.0.idx as int).len() == 0,
            !final(self).spec_closed(r.0.idx as int),
            forall|i: int| 0 <= i < old(self).num_nodes() ==> final(self).spec_queue(i) == old(self).spec_queue(i)
                && final(self).spec_closed(i) == old(self).spec_closed(i),
            final(self).spec_queue_capacity() == old(self).spec_queue_capacity(),
            final(self).spec_stream() == old(self).spec_stream(),
            r.1.params == *node,
            r.1.shared_state == custom_state.shared_state,
    {
        let info = node.info(config, custom_state);
        let id = self.graph.add_node(info.channel_config);
        self.queues.push(EventQueue::new(self.queue_capacity));
        let processor = node.construct_processor(config, &info.custom_state);
        (id, processor)
    }

    /// Connects `src` to `dst` over the channel pairs `ports`; see
    /// `AudioGraph::connect` for when it fails. Queues and stream stay.
    pub fn connect(&mut self, src: NodeID, dst: NodeID, ports: &Vec<(u32, u32)>, allow_feedback: bool) -> (r: Result<(), ConnectError>)
        requires
            old(self).wf(),
            old(self).spec_graph().spec_edges().len() + ports@.len() <= usize::MAX,
        ensures
            final(self).wf(),
            final(self).spec_graph().spec_nodes() == old(self).spec_graph().spec_nodes(),
            ({
                let nodes = old(self).spec_graph().spec_nodes();
                let edges = old(self).spec_graph().spec_edges();
                let n = nodes.len();
                &&& src.idx >= n ==> r == Err::<(), ConnectError>(ConnectError::NodeNotFound(src))
                &&& src.idx < n && dst.idx >= n ==> r == Err::<(), ConnectError>(
                    ConnectError::NodeNotFound(dst),
                )
                &&& src.idx < n && dst.idx < n ==> {
                    let s = nodes[src.idx as int];
                    let d = nodes[dst.idx as int];
                    &&& forall|k: int|
                        0 <= k < ports@.len() && port_bad(s, d, ports@[k]) && (forall|l: int|
                            0 <= l < k ==> !port_bad(s, d, #[trigger] ports@[l])) ==> r == Err::<
                            (),
                            ConnectError,
                        >(port_error(src, s, dst, #[trigger] ports@[k]))
                    &&& (forall|k: int| 0 <= k < ports@.len() ==> !port_bad(s, d, #[trigger] ports@[k]))
                        ==> {
                        &&& !allow_feedback && closes_cycle(edges, n, src.idx as int, dst.idx as int)
                            ==> r == Err::<(), ConnectError>(ConnectError::CycleDetected)
                        &&& (allow_feedback || !closes_cycle(edges, n, src.idx as int, dst.idx as int))
                            ==> r is Ok
                    }
                }
            }),
            r is Ok ==> final(self).spec_graph().spec_edges() == old(self).spec_graph().spec_edges()
                + new_edges(src, dst, ports@),
            r is Err ==> final(self).spec_graph().spec_edges() == old(self).spec_graph().spec_edges(),
            forall|i: int| 0 <= i < old(self).num_nodes() ==> final(self).spec_queue(i) == old(self).spec_queue(i)
                && final(self).spec_closed(i) == old(self).spec_closed(i),
            final(self).spec_queue_capacity() == old(self).spec_queue_capacity(),
            final(self).spec_stream() == old(self).spec_stream(),
    {
        self.graph.connect(src, dst, ports, allow_feedback)
    }

    /// Queues `e` for the node `id`. Fails with `NodeNotFound` for an unknown
    /// node, and as the node's queue refuses it when the node is pending
    /// removal or its queue is full; a refused event changes nothing.
    pub fn queue_event_for(&mut self, id: NodeID, e: NodeEvent) -> (r: Result<(), QueueEventError>)
        requires
            old(self).wf(),
        ensures
            final(self).wf(),
            final(self).spec_graph() == old(self).spec_graph(),
            final(self).spec_queue_capacity() == old(self).spec_queue_capacity(),
            final(self).spec_stream() == old(self).spec_stream(),
            id.idx >= old(self).num_nodes() ==> r == Err::<(), QueueEventError>(QueueEventError::NodeNotFound(id)),
            id.idx < old(self).num_nodes() && old(self).spec_closed(id.idx as int) ==> r == Err::<(), QueueEventError>(
                QueueEventError::Queue(QueueError::Closed),
            ),
            id.idx < old(self).num_nodes() && !old(self).spec_closed(id.idx as int) && old(self).spec_queue(id.idx as int).len()
                >= old(self).spec_queue_capacity() ==> r == Err::<(), QueueEventError>(QueueEventError::Queue(QueueError::Full)),
            r is Ok <==> id.idx < old(self).num_nodes() && !old(self).spec_closed(id.idx as int) && old(self).spec_queue(
                id.idx as int,
            ).len() < old(self).spec_queue_capacity(),
            r is Ok ==> final(self).spec_queue(id.idx as int) == old(self).spec_queue(id.idx as int).push(e),
            forall|i: int| 0 <= i < old(self).num_nodes() && (r is Err || i != id.idx) ==> final(self).spec_queue(i) == old(self).spec_queue(i),
            forall|i: int| 0 <= i < old(self).num_nodes() ==> final(self).spec_closed(i) == old(self).spec_closed(i),
    {
        if id.idx >= self.queues.len() {
            return Err(QueueEventError::NodeNotFound(id));
        }
        assert(self.queues@[id.idx as int].wf());
        assert(self.queues@[id.idx as int].spec_capacity() == self.queue_capacity);
        let q = &mut self.queues[id.idx];
        match q.push(e) {
            Ok(()) => Ok(()),
            Err(qe) => Err(QueueEventError::Queue(qe)),
        }
    }

    /// Marks the node `id` as pending removal: its queue takes no new events,
    /// and those already queued are still handed to its processor. Returns
    /// whether the graph has that node.
    pub fn remove_node(&mut self, id: NodeID) -> (r: bool)
        requires
            old(self).wf(),
        ensures
            final(self).wf(),
            r == (id.idx < old(self).num_nodes()),
            final(self).spec_graph() == old(self).spec_graph(),
            final(self).spec_queue_capacity() == old(self).spec_queue_capacity(),
            final(self).spec_stream() == old(self).spec_stream(),
            forall|i: int| 0 <= i < old(self).num_nodes() ==> final(self).spec_queue(i) == old(self).spec_queue(i),
            forall|i: int|
                0 <= i < old(self).num_nodes() ==> final(self).spec_closed(i) == (old(self).spec_closed(i) || i
                    == id.idx),
    {
        if id.idx >= self.queues.len() {
            return false;
        }
        assert(self.queues@[id.idx as int].wf());
        let q = &mut self.queues[id.idx];
        q.close();
        true
    }

    /// Runs one block of the node `id` on its processor: the processor takes
    /// every event queued for the node, in the order they were queued. `None`
    /// for an unknown node, which changes nothing.
    pub fn process_node(&mut self, id: NodeID, processor: &mut Processor) -> (r: Option<ProcessStatus>)
        requires
            old(self).wf(),
        ensures
            final(self).wf(),
            final(self).spec_graph() == old(self).spec_graph(),
            final(self).spec_queue_capacity() == old(self).spec_queue_capacity(),
            final(self).spec_stream() == old(self).spec_stream(),
            forall|i: int| 0 <= i < old(self).num_nodes() ==> final(self).spec_closed(i) == old(self).spec_closed(i),
            id.idx >= old(self).num_nodes() ==> r is None && *final(processor) == *old(processor)
                && forall|i: int| 0 <= i < old(self).num_nodes() ==> final(self).spec_queue(i) == old(self).spec_queue(i),
            id.idx < old(self).num_nodes() ==> {
                &&& r == Some(status_spec(old(self).spec_queue(id.idx as int)))
                &&& final(processor).params == apply_events_spec(old(processor).params, old(self).spec_queue(id.idx as int))
                &&& final(processor).shared_state == old(processor).shared_state
                &&& final(processor).config == old(processor).config
                &&& final(self).spec_queue(id.idx as int).len() == 0
                &&& forall|i: int| 0 <= i < old(self).num_nodes() && i != id.idx ==> final(self).spec_queue(i) == old(self).spec_queue(i)
            },
    {
        if id.idx >= self.queues.len() {
            return None;
        }
        assert(self.queues@[id.idx as int].wf());
        let q = &mut self.queues[id.idx];
        Some(processor.process(q))
    }

    /// Starts the stream, given whether the backend took the configuration.
    pub fn start_stream(&mut self, backend: Result<(), u32>) -> (r: Result<(), StreamStartError>)
        requires
            old(self).wf(),
        ensures
            final(self).wf(),
            (final(self).spec_stream(), r) == start_spec(old(self).spec_stream(), backend),
            final(self).spec_graph() == old(self).spec_graph(),
            final(self).spec_queue_capacity() == old(self).spec_queue_capacity(),
            forall|i: int| 0 <= i < old(self).num_nodes() ==> final(self).spec_queue(i) == old(self).spec_queue(i)
                && final(self).spec_closed(i) == old(self).spec_closed(i),
    {
        self.stream.start_stream(backend)
    }

    /// One maintenance tick on the backend's report `ev`; see
    /// `StreamLifecycle::update`.
    pub fn update(&mut self, ev: BackendEvent) -> (r: Result<(), UpdateError>)
        requires
            old(self).wf(),
        ensures
            final(self).wf(),
            (final(self).spec_stream(), r) == update_spec(old(self).spec_stream(), ev),
            final(self).spec_graph() == old(self).spec_graph(),
            final(self).spec_queue_capacity() == old(self).spec_queue_capacity(),
            forall|i: int| 0 <= i < old(self).num_nodes() ==> final(self).spec_queue(i) == old(self).spec_queue(i)
                && final(self).spec_closed(i) == old(self).spec_closed(i),
    {
        self.stream.update(ev)
    }

    pub fn stream_state(&self) -> (r: StreamState)
        ensures
            r == self.spec_stream(),
    {
        self.stream.state()
    }
}

} // verus!
