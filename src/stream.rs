//! The audio stream's lifecycle, and the maintenance tick that turns what the
//! backend reported into results for the control side.
use vstd::prelude::*;

verus! {

/// Why a stream stopped.
#[derive(Clone, Copy, PartialEq, Eq, Structural, Debug)]
pub enum StopReason {
    /// The control side asked for it.
    Requested,
    /// The backend ended it on its own, with its error code.
    Unexpected(u32),
}

#[derive(Clone, Copy, PartialEq, Eq, Structural, Debug)]
pub enum StreamState {
    NotStarted,
    Running,
    Stopped(StopReason),
}

#[derive(Clone, Copy, PartialEq, Eq, Structural, Debug)]
pub enum StreamStartError {
    AlreadyRunning,
    /// The backend refused the configuration, with its error code.
    BackendRejected(u32),
}

/// What the backend reported since the last maintenance tick.
#[derive(Clone, Copy, PartialEq, Eq, Structural, Debug)]
pub enum BackendEvent {
    Nothing,
    /// The stream ended without being asked to, with the backend's code.
    Terminated(u32),
    /// The processor of the node with this index reported a faulted block.
    NodeFault(usize),
    /// Some other fault that leaves the stream running, with its code.
    Diagnostic(u32),
}

/// A fault surfaced by a maintenance tick.
#[derive(Clone, Copy, PartialEq, Eq, Structural, Debug)]
pub enum UpdateError {
    /// The stream ended on its own: fatal to this stream.
    StreamStoppedUnexpectedly(u32),
    /// A node's block faulted: recoverable.
    NodeFault(usize),
    /// Another recoverable fault, with its code.
    Diagnostic(u32),
}

/// What the control loop does with the result of a tick.
#[derive(Clone, Copy, PartialEq, Eq, Structural, Debug)]
pub enum ControlAction {
    Continue,
    /// Log the recoverable error and go on.
    Report,
    /// The stream is gone: stop the loop.
    Abort,
}

/// The state after starting from `s`, given whether the backend took the
/// configuration (`Ok`) or refused it with a code.
pub open spec fn start_spec(s: StreamState, backend: Result<(), u32>) -> (StreamState, Result<(), StreamStartError>) {
    if s == StreamState::Running {
        (s, Err(StreamStartError::AlreadyRunning))
    } else {
        match backend {
            Ok(()) => (StreamState::Running, Ok(())),
            Err(c) => (s, Err(StreamStartError::BackendRejected(c))),
        }
    }
}

/// The state and result of a tick from `s` on the backend's report `ev`.
pub open spec fn update_spec(s: StreamState, ev: BackendEvent) -> (StreamState, Result<(), UpdateError>) {
    match s {
        StreamState::Stopped(StopReason::Unexpected(c)) => (s, Err(UpdateError::StreamStoppedUnexpectedly(c))),
        _ => match ev {
            BackendEvent::Nothing => (s, Ok(())),
            BackendEvent::Terminated(c) => if s == StreamState::Running {
                (StreamState::Stopped(StopReason::Unexpected(c)), Err(UpdateError::StreamStoppedUnexpectedly(c)))
            } else {
                (s, Ok(()))
            },
            BackendEvent::NodeFault(id) => (s, Err(UpdateError::NodeFault(id))),
            BackendEvent::Diagnostic(c) => (s, Err(UpdateError::Diagnostic(c))),
        },
    }
}

/// Once a tick has reported that the stream stopped unexpectedly, every later
/// tick reports it again, whatever the backend says, and the state stays.
pub proof fn lemma_stopped_stays(c: u32, evs: Seq<BackendEvent>)
    ensures
        forall|k: int| 0 <= k < evs.len() ==> #[trigger] update_spec(
            StreamState::Stopped(StopReason::Unexpected(c)),
            evs[k],
        ) == (StreamState::Stopped(StopReason::Unexpected(c)), Err::<(), UpdateError>(
            UpdateError::StreamStoppedUnexpectedly(c),
        )),
{
}

/// The stream's lifecycle state.
pub struct StreamLifecycle {
    state: StreamState,
}

impl StreamLifecycle {
    pub closed spec fn spec_state(&self) -> StreamState {
        self.state
    }

    /// A stream that has not started.
    pub fn new() -> (r: StreamLifecycle)
        ensures
            r.spec_state() == StreamState::NotStarted,
    {
        StreamLifecycle { state: StreamState::NotStarted }
    }

    pub fn state(&self) -> (r: StreamState)
        ensures
            r == self.spec_state(),
    {
        self.state
    }

    pub fn is_running(&self) -> (r: bool)
        ensures
            r == (self.spec_state() == StreamState::Running),
    {
        self.state == StreamState::Running
    }

    /// Records a start: refused if the stream runs already, or if the backend
    /// refused the configuration; running otherwise.
    pub fn start_stream(&mut self, backend: Result<(), u32>) -> (r: Result<(), StreamStartError>)
        ensures
            (final(self).spec_state(), r) == start_spec(old(self).spec_state(), backend),
    {
        if self.state == StreamState::Running {
            Err(StreamStartError::AlreadyRunning)
        } else {
            match backend {
                Ok(()) => {
                    self.state = StreamState::Running;
                    Ok(())
                },
                Err(c) => Err(StreamStartError::BackendRejected(c)),
            }
        }
    }

    /// Records a stop that the control side asked for. A stream that stopped
    /// on its own keeps that reason.
    pub fn stop_stream(&mut self)
        ensures
            old(self).spec_state() is Stopped ==> final(self).spec_state() == old(self).spec_state(),
            !(old(self).spec_state() is Stopped) ==> final(self).spec_state() == StreamState::Stopped(
                StopReason::Requested,
            ),
    {
        match self.state {
            StreamState::Stopped(_) => {},
            _ => {
                self.state = StreamState::Stopped(StopReason::Requested);
            },
        }
    }

    /// One maintenance tick: a stream that stopped on its own is reported as
    /// such on every tick; a termination of a running stream stops it and is
    /// reported; a node's fault or another recoverable fault is reported and
    /// changes nothing.
    pub fn update(&mut self, ev: BackendEvent) -> (r: Result<(), UpdateError>)
        ensures
            (final(self).spec_state(), r) == update_spec(old(self).spec_state(), ev),
    {
        match self.state {
            StreamState::Stopped(StopReason::Unexpected(c)) => Err(UpdateError::StreamStoppedUnexpectedly(c)),
            _ => match ev {
                BackendEvent::Nothing => Ok(()),
                BackendEvent::Terminated(c) => {
                    if self.state == StreamState::Running {
                        self.state = StreamState::Stopped(StopReason::Unexpected(c));
                        Err(UpdateError::StreamStoppedUnexpectedly(c))
                    } else {
                        Ok(())
                    }
                },
                BackendEvent::NodeFault(id) => Err(UpdateError::NodeFault(id)),
                BackendEvent::Diagnostic(c) => Err(UpdateError::Diagnostic(c)),
            },
        }
    }
}

/// What the control loop does after a tick: go on after success, report a
/// recoverable error, and stop when the stream stopped unexpectedly.
pub fn control_action(r: &Result<(), UpdateError>) -> (a: ControlAction)
    ensures
        *r is Ok ==> a == ControlAction::Continue,
        (*r matches Err(UpdateError::NodeFault(_))) ==> a == ControlAction::Report,
        (*r matches Err(UpdateError::Diagnostic(_))) ==> a == ControlAction::Report,
        (*r matches Err(UpdateError::StreamStoppedUnexpectedly(_))) ==> a == ControlAction::Abort,
{
    match r {
        Ok(()) => ControlAction::Continue,
        Err(UpdateError::NodeFault(_)) => ControlAction::Report,
        Err(UpdateError::Diagnostic(_)) => ControlAction::Report,
        Err(UpdateError::StreamStoppedUnexpectedly(_)) => ControlAction::Abort,
    }
}

} // verus!
