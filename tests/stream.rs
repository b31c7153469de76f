use param_sync::stream::{
    control_action, BackendEvent, ControlAction, StopReason, StreamLifecycle, StreamStartError,
    StreamState, UpdateError,
};

#[test]
fn backend_rejection_leaves_stream_not_started() {
    let mut s = StreamLifecycle::new();
    assert_eq!(s.start_stream(Err(4)), Err(StreamStartError::BackendRejected(4)));
    assert_eq!(s.state(), StreamState::NotStarted);
    assert_eq!(s.start_stream(Ok(())), Ok(()));
    assert!(s.is_running());
}

#[test]
fn node_fault_is_recoverable() {
    let mut s = StreamLifecycle::new();
    assert_eq!(s.start_stream(Ok(())), Ok(()));
    let r = s.update(BackendEvent::NodeFault(2));
    assert_eq!(r, Err(UpdateError::NodeFault(2)));
    assert_eq!(control_action(&r), ControlAction::Report);
    assert!(s.is_running());
    assert_eq!(control_action(&s.update(BackendEvent::Nothing)), ControlAction::Continue);
}

#[test]
fn requested_stop_is_not_a_fault() {
    let mut s = StreamLifecycle::new();
    assert_eq!(s.start_stream(Ok(())), Ok(()));
    s.stop_stream();
    assert_eq!(s.state(), StreamState::Stopped(StopReason::Requested));
    assert_eq!(s.update(BackendEvent::Terminated(1)), Ok(()));
    assert_eq!(s.start_stream(Ok(())), Ok(()));
    assert!(s.is_running());
}

#[test]
fn unexpected_stop_survives_requested_stop() {
    let mut s = StreamLifecycle::new();
    assert_eq!(s.start_stream(Ok(())), Ok(()));
    assert_eq!(s.update(BackendEvent::Terminated(9)), Err(UpdateError::StreamStoppedUnexpectedly(9)));
    s.stop_stream();
    assert_eq!(s.state(), StreamState::Stopped(StopReason::Unexpected(9)));
}

#[test]
fn diagnostic_is_reported_and_stream_keeps_running() {
    let mut s = StreamLifecycle::new();
    assert_eq!(s.start_stream(Ok(())), Ok(()));
    let r = s.update(BackendEvent::Diagnostic(3));
    assert_eq!(r, Err(UpdateError::Diagnostic(3)));
    assert_eq!(control_action(&r), ControlAction::Report);
    assert!(s.is_running());
}
