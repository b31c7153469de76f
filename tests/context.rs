use param_sync::context::{GraphContext, QueueEventError};
use param_sync::graph::{ConnectError, Edge, NodeID};
use param_sync::node::{ChannelConfig, DummyConfig, DummyNode, DummyState, ProcessStatus};
use param_sync::params::{ParamValue, Patch};
use param_sync::queue::{NodeEvent, QueueError};
use param_sync::stream::{
    control_action, BackendEvent, ControlAction, StopReason, StreamStartError, StreamState,
    UpdateError,
};

#[test]
fn stereo_node_to_output_and_handle_patch() {
    let mut cx = GraphContext::new(2, 16);
    assert_eq!(cx.start_stream(Ok(())), Ok(()));
    let mut node = DummyNode::default();
    let (id, mut processor) = cx.add_node(&node, &DummyConfig, DummyState::new(1));
    assert_eq!(cx.graph().node_config(id), Some(ChannelConfig { num_inputs: 0, num_outputs: 2 }));
    let out = cx.graph_out_node_id();
    assert_eq!(cx.connect(id, out, &vec![(0, 0), (1, 1)], false), Ok(()));
    assert_eq!(cx.graph().num_edges(), 2);
    assert_eq!(
        cx.graph().edge(1),
        Edge { src: id.idx, src_channel: 1, dst: 0, dst_channel: 1 }
    );
    node.set_dummy(77);
    assert_eq!(cx.queue_event_for(id, node.sync_dummy()), Ok(()));
    let status = cx.process_node(id, &mut processor);
    assert_eq!(processor.params.dummy, Some(77));
    assert!(status.is_some());
    assert_ne!(status, Some(ProcessStatus::Fault));
}

#[test]
fn connect_rejects_channel_out_of_range_without_change() {
    let mut cx = GraphContext::new(2, 4);
    let (id, _p) = cx.add_node(&DummyNode::default(), &DummyConfig, DummyState::new(1));
    let out = cx.graph_out_node_id();
    assert_eq!(
        cx.connect(id, out, &vec![(0, 0), (1, 2)], false),
        Err(ConnectError::InChannelOutOfRange { node: out, channel: 2 })
    );
    assert_eq!(
        cx.connect(id, out, &vec![(2, 0)], false),
        Err(ConnectError::OutChannelOutOfRange { node: id, channel: 2 })
    );
    assert_eq!(cx.graph().num_edges(), 0);
}

#[test]
fn connect_rejects_unknown_nodes() {
    let mut cx = GraphContext::new(2, 4);
    let out = cx.graph_out_node_id();
    let absent = NodeID { idx: 9 };
    assert_eq!(cx.connect(absent, out, &vec![(0, 0)], false), Err(ConnectError::NodeNotFound(absent)));
    assert_eq!(cx.connect(out, absent, &vec![(0, 0)], false), Err(ConnectError::NodeNotFound(absent)));
}

#[test]
fn connect_rejects_cycle_unless_feedback_allowed() {
    let mut g = param_sync::graph::AudioGraph::new(2);
    let a = g.add_node(ChannelConfig { num_inputs: 2, num_outputs: 2 });
    let b = g.add_node(ChannelConfig { num_inputs: 2, num_outputs: 2 });
    let c = g.add_node(ChannelConfig { num_inputs: 2, num_outputs: 2 });
    assert_eq!(g.connect(a, b, &vec![(0, 0)], false), Ok(()));
    assert_eq!(g.connect(b, c, &vec![(0, 0)], false), Ok(()));
    assert_eq!(g.connect(c, a, &vec![(0, 0)], false), Err(ConnectError::CycleDetected));
    assert_eq!(g.connect(a, a, &vec![(0, 1)], false), Err(ConnectError::CycleDetected));
    assert_eq!(g.num_edges(), 2);
    assert_eq!(g.connect(c, a, &vec![(0, 0)], true), Ok(()));
    assert_eq!(g.num_edges(), 3);
    assert_eq!(g.connect(a, c, &vec![(1, 1)], false), Err(ConnectError::CycleDetected));
}

#[test]
fn queue_event_for_unknown_or_removed_node() {
    let mut cx = GraphContext::new(2, 1);
    let (id, mut p) = cx.add_node(&DummyNode::default(), &DummyConfig, DummyState::new(1));
    let e = NodeEvent::Custom(3);
    let missing = NodeID { idx: 5 };
    assert_eq!(cx.queue_event_for(missing, e), Err(QueueEventError::NodeNotFound(missing)));
    assert_eq!(cx.queue_event_for(id, e), Ok(()));
    assert_eq!(cx.queue_event_for(id, e), Err(QueueEventError::Queue(QueueError::Full)));
    assert!(cx.remove_node(id));
    assert!(!cx.remove_node(missing));
    assert_eq!(cx.queue_event_for(id, e), Err(QueueEventError::Queue(QueueError::Closed)));
    assert_eq!(cx.process_node(id, &mut p), Some(ProcessStatus::Bypass));
    assert_eq!(cx.process_node(missing, &mut p), None);
}

#[test]
fn patches_apply_in_enqueue_order() {
    let mut cx = GraphContext::new(2, 8);
    let (id, mut p) = cx.add_node(&DummyNode::default(), &DummyConfig, DummyState::new(1));
    for v in [Some(1u64), None, Some(2)] {
        let e = NodeEvent::Param(Patch { path: 0, value: ParamValue::Handle(v) });
        assert_eq!(cx.queue_event_for(id, e), Ok(()));
    }
    assert_eq!(cx.process_node(id, &mut p), Some(ProcessStatus::Bypass));
    assert_eq!(p.params.dummy, Some(2));
}

#[test]
fn update_after_unexpected_termination_keeps_reporting() {
    let mut cx = GraphContext::new(2, 4);
    assert_eq!(cx.update(BackendEvent::Nothing), Ok(()));
    assert_eq!(cx.start_stream(Ok(())), Ok(()));
    assert_eq!(cx.start_stream(Ok(())), Err(StreamStartError::AlreadyRunning));
    let r = cx.update(BackendEvent::Terminated(13));
    assert_eq!(r, Err(UpdateError::StreamStoppedUnexpectedly(13)));
    assert_eq!(control_action(&r), ControlAction::Abort);
    assert_eq!(cx.stream_state(), StreamState::Stopped(StopReason::Unexpected(13)));
    assert_eq!(cx.update(BackendEvent::Nothing), Err(UpdateError::StreamStoppedUnexpectedly(13)));
    assert_eq!(cx.update(BackendEvent::NodeFault(1)), Err(UpdateError::StreamStoppedUnexpectedly(13)));
}
