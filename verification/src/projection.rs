//! The projection lifecycle state machine.
//!
//! The single source of truth for which transitions are legal (illegal ones are
//! rejected, never silently applied), for when destination input may be forwarded
//! (only in `RemoteActive`), and for every failure path leaving the projection in a
//! state whose cleanup returns control to the local machine.

use vstd::prelude::*;

verus! {

use crate::projection::ProjectionEvent as E;
use crate::projection::ProjectionState as S;

/// Projection lifecycle states. `Error` is left only by `Close`; `Closed` is terminal.
#[derive(Debug, Clone, Copy, PartialEq, Eq, Structural)]
pub enum ProjectionState {
    Local,
    Selecting,
    Authorizing,
    CaptureStarting,
    Negotiating,
    WaitingForFirstFrame,
    RemoteActive,
    HandoffPreparing,
    HandoffCommitting,
    Returning,
    Suspended,
    Error,
    Closed,
}

/// Triggers that drive the projection machine.
#[derive(Debug, Clone, Copy, PartialEq, Eq, Structural)]
pub enum ProjectionEvent {
    Select,
    AuthorizeGranted,
    AuthorizeDenied,
    CaptureStarted,
    CaptureFailed,
    NegotiationComplete,
    NegotiationFailed,
    FirstFrame,
    FirstFrameTimeout,
    HandoffRequested,
    HandoffCommitted,
    HandoffAborted,
    ReturnRequested,
    ReturnComplete,
    Suspend,
    Resume,
    /// Network/peer loss.
    Disconnect,
    /// Any other fault.
    Fault,
    /// User (or peer, with permission) closed the projection.
    Close,
}

/// An event that is illegal in the state the machine was in.
#[derive(Debug, Clone, Copy, PartialEq, Eq, Structural)]
pub struct TransitionError {
    pub state: ProjectionState,
    pub event: ProjectionEvent,
}

/// A projection state machine instance.
#[derive(Debug, Clone)]
pub struct ProjectionStateMachine {
    state: ProjectionState,
}

impl View for ProjectionStateMachine {
    type V = ProjectionState;

    closed spec fn view(&self) -> ProjectionState {
        self.state
    }
}

/// A disconnect or a fault.
pub open spec fn is_loss(e: ProjectionEvent) -> bool {
    e == ProjectionEvent::Disconnect || e == ProjectionEvent::Fault
}

/// The state an event leads to, or `None` when it is illegal there.
pub open spec fn projection_next(s: ProjectionState, e: ProjectionEvent) -> Option<ProjectionState> {
    if e == E::Close {
        Some(S::Closed)
    } else {
        match s {
            S::Local => if e == E::Select { Some(S::Selecting) } else { None },
            S::Selecting => if e == E::AuthorizeGranted {
                Some(S::Authorizing)
            } else if is_loss(e) {
                Some(S::Error)
            } else {
                None
            },
            S::Authorizing => if e == E::AuthorizeGranted {
                Some(S::CaptureStarting)
            } else if e == E::AuthorizeDenied || is_loss(e) {
                Some(S::Error)
            } else {
                None
            },
            S::CaptureStarting => if e == E::CaptureStarted {
                Some(S::Negotiating)
            } else if e == E::CaptureFailed || is_loss(e) {
                Some(S::Error)
            } else {
                None
            },
            S::Negotiating => if e == E::NegotiationComplete {
                Some(S::WaitingForFirstFrame)
            } else if e == E::NegotiationFailed || is_loss(e) {
                Some(S::Error)
            } else {
                None
            },
            S::WaitingForFirstFrame => if e == E::FirstFrame {
                Some(S::RemoteActive)
            } else if e == E::FirstFrameTimeout || is_loss(e) {
                Some(S::Error)
            } else {
                None
            },
            S::RemoteActive => if e == E::HandoffRequested {
                Some(S::HandoffPreparing)
            } else if e == E::ReturnRequested {
                Some(S::Returning)
            } else if e == E::Suspend {
                Some(S::Suspended)
            } else if is_loss(e) {
                Some(S::Error)
            } else {
                None
            },
            S::HandoffPreparing => if e == E::NegotiationComplete {
                Some(S::HandoffCommitting)
            } else if e == E::HandoffAborted || e == E::NegotiationFailed {
                Some(S::RemoteActive)
            } else if is_loss(e) {
                Some(S::Error)
            } else {
                None
            },
            S::HandoffCommitting => if e == E::HandoffCommitted || e == E::HandoffAborted {
                Some(S::RemoteActive)
            } else if is_loss(e) {
                Some(S::Error)
            } else {
                None
            },
            S::Suspended => if e == E::Resume {
                Some(S::RemoteActive)
            } else if e == E::ReturnRequested {
                Some(S::Returning)
            } else if is_loss(e) {
                Some(S::Error)
            } else {
                None
            },
            S::Returning => if e == E::ReturnComplete {
                Some(S::Local)
            } else if is_loss(e) {
                Some(S::Error)
            } else {
                None
            },
            S::Error => None,
            S::Closed => None,
        }
    }
}

/// Whether input may be forwarded in this state.
pub open spec fn forwards_input(s: ProjectionState) -> bool {
    s == ProjectionState::RemoteActive
}

/// Whether a media stream flows in this state (handoff keeps the old stream up).
pub open spec fn media_flows(s: ProjectionState) -> bool {
    s == ProjectionState::RemoteActive || s == ProjectionState::HandoffPreparing
        || s == ProjectionState::HandoffCommitting
}

impl Default for ProjectionStateMachine {
    fn default() -> (r: Self)
        ensures
            r@ == ProjectionState::Local,
    {
        Self::new()
    }
}

impl ProjectionStateMachine {
    pub fn new() -> (r: Self)
        ensures
            r@ == ProjectionState::Local,
    {
        ProjectionStateMachine { state: ProjectionState::Local }
    }

    pub fn state(&self) -> (r: ProjectionState)
        ensures
            r == self@,
    {
        self.state
    }

    /// Destination input may only be forwarded while a projection is truly live.
    pub fn can_forward_input(&self) -> (r: bool)
        ensures
            r == forwards_input(self@),
    {
        match self.state {
            ProjectionState::RemoteActive => true,
            _ => false,
        }
    }

    /// Whether a media stream is (or should be) flowing in this state.
    pub fn media_active(&self) -> (r: bool)
        ensures
            r == media_flows(self@),
    {
        match self.state {
            ProjectionState::RemoteActive
            | ProjectionState::HandoffPreparing
            | ProjectionState::HandoffCommitting => true,
            _ => false,
        }
    }

    pub fn is_terminal(&self) -> (r: bool)
        ensures
            r == (self@ == ProjectionState::Closed),
    {
        match self.state {
            ProjectionState::Closed => true,
            _ => false,
        }
    }

    /// Apply an event. Returns the new state, or a `TransitionError` if the event is
    /// illegal from the current state (the state is left unchanged on error).
    pub fn on(&mut self, event: ProjectionEvent) -> (r: Result<ProjectionState, TransitionError>)
        ensures
            match projection_next(old(self)@, event) {
                Some(next) => r == Ok::<ProjectionState, TransitionError>(next) && final(self)@ == next,
                None => r == Err::<ProjectionState, TransitionError>(
                    TransitionError { state: old(self)@, event },
                ) && final(self)@ == old(self)@,
            },
    {
        if event == E::Close {
            self.state = S::Closed;
            return Ok(self.state);
        }
        if self.state == S::Closed {
            return Err(TransitionError { state: self.state, event });
        }
        let loss = event == E::Disconnect || event == E::Fault;
        let next = match self.state {
            S::Local => if event == E::Select { Some(S::Selecting) } else { None },
            S::Selecting => if event == E::AuthorizeGranted {
                Some(S::Authorizing)
            } else if loss {
                Some(S::Error)
            } else {
                None
            },
            S::Authorizing => if event == E::AuthorizeGranted {
                Some(S::CaptureStarting)
            } else if event == E::AuthorizeDenied || loss {
                Some(S::Error)
            } else {
                None
            },
            S::CaptureStarting => if event == E::CaptureStarted {
                Some(S::Negotiating)
            } else if event == E::CaptureFailed || loss {
                Some(S::Error)
            } else {
                None
            },
            S::Negotiating => if event == E::NegotiationComplete {
                Some(S::WaitingForFirstFrame)
            } else if event == E::NegotiationFailed || loss {
                Some(S::Error)
            } else {
                None
            },
            S::WaitingForFirstFrame => if event == E::FirstFrame {
                Some(S::RemoteActive)
            } else if event == E::FirstFrameTimeout || loss {
                Some(S::Error)
            } else {
                None
            },
            S::RemoteActive => if event == E::HandoffRequested {
                Some(S::HandoffPreparing)
            } else if event == E::ReturnRequested {
                Some(S::Returning)
            } else if event == E::Suspend {
                Some(S::Suspended)
            } else if loss {
                Some(S::Error)
            } else {
                None
            },
            S::HandoffPreparing => if event == E::NegotiationComplete {
                Some(S::HandoffCommitting)
            } else if event == E::HandoffAborted || event == E::NegotiationFailed {
                Some(S::RemoteActive)
            } else if loss {
                Some(S::Error)
            } else {
                None
            },
            S::HandoffCommitting => if event == E::HandoffCommitted || event == E::HandoffAborted {
                Some(S::RemoteActive)
            } else if loss {
                Some(S::Error)
            } else {
                None
            },
            S::Suspended => if event == E::Resume {
                Some(S::RemoteActive)
            } else if event == E::ReturnRequested {
                Some(S::Returning)
            } else if loss {
                Some(S::Error)
            } else {
                None
            },
            S::Returning => if event == E::ReturnComplete {
                Some(S::Local)
            } else if loss {
                Some(S::Error)
            } else {
                None
            },
            // Error is a holding pen; only Close (handled above) leaves it.
            S::Error => None,
            S::Closed => None,
        };
        match next {
            Some(n) => {
                self.state = n;
                Ok(n)
            },
            None => Err(TransitionError { state: self.state, event }),
        }
    }
}

/// `Close` is legal from every state and always ends in `Closed`.
pub proof fn lemma_close_always_wins(s: ProjectionState)
    ensures
        projection_next(s, ProjectionEvent::Close) == Some(ProjectionState::Closed),
{
}

/// Nothing revives a closed machine, and an errored one is left only by `Close`.
pub proof fn lemma_sinks(e: ProjectionEvent)
    requires
        e != ProjectionEvent::Close,
    ensures
        projection_next(ProjectionState::Closed, e) is None,
        projection_next(ProjectionState::Error, e) is None,
{
}

/// Every loss (disconnect or fault) either is refused or lands in `Error`, where no
/// input is forwarded and no media flows.
pub proof fn lemma_loss_stops_input_and_media(s: ProjectionState, e: ProjectionEvent)
    requires
        is_loss(e),
    ensures
        projection_next(s, e) matches Some(n) ==> n == ProjectionState::Error && !forwards_input(n)
            && !media_flows(n),
        s != ProjectionState::Local && s != ProjectionState::Error && s != ProjectionState::Closed
            ==> projection_next(s, e) == Some(ProjectionState::Error),
{
}

/// Input forwarding can only begin by a first frame, a resumed suspension, or a
/// handoff settling: no other transition enters `RemoteActive`.
pub proof fn lemma_forwarding_starts_only_when_live(s: ProjectionState, e: ProjectionEvent)
    requires
        !forwards_input(s),
        projection_next(s, e) matches Some(n) && forwards_input(n),
    ensures
        (s == ProjectionState::WaitingForFirstFrame && e == ProjectionEvent::FirstFrame)
            || (s == ProjectionState::Suspended && e == ProjectionEvent::Resume)
            || s == ProjectionState::HandoffPreparing || s == ProjectionState::HandoffCommitting,
{
}


/// The state a run of events leads to, or `None` at the first illegal one.
pub open spec fn run_events(s: ProjectionState, events: Seq<ProjectionEvent>) -> Option<ProjectionState>
    decreases events.len(),
{
    if events.len() == 0 {
        Some(s)
    } else {
        match projection_next(s, events[0]) {
            Some(n) => run_events(n, events.drop_first()),
            None => None,
        }
    }
}

/// A projection comes up along its documented path: select, two grants, capture,
/// negotiation and a first frame take a local window to `RemoteActive`, where input is
/// forwarded, and no earlier state of that path forwards input.
pub proof fn lemma_projection_comes_up(s: ProjectionState)
    ensures
        run_events(
            ProjectionState::Local,
            seq![E::Select, E::AuthorizeGranted, E::AuthorizeGranted, E::CaptureStarted, E::NegotiationComplete, E::FirstFrame],
        ) == Some(ProjectionState::RemoteActive),
        forwards_input(ProjectionState::RemoteActive),
        (s == S::Local || s == S::Selecting || s == S::Authorizing || s == S::CaptureStarting
            || s == S::Negotiating || s == S::WaitingForFirstFrame) ==> !forwards_input(s),
{
    reveal_with_fuel(run_events, 7);
}

/// A suspension is recoverable: a live projection that is suspended and then resumed is
/// live again, forwarding input, while the suspension itself forwards none; a suspended
/// one can also be returned home.
pub proof fn lemma_suspension_is_recoverable()
    ensures
        projection_next(S::RemoteActive, E::Suspend) == Some(S::Suspended),
        !forwards_input(S::Suspended),
        projection_next(S::Suspended, E::Resume) == Some(S::RemoteActive),
        run_events(S::RemoteActive, seq![E::Suspend, E::Resume]) == Some(S::RemoteActive),
        run_events(S::Suspended, seq![E::ReturnRequested, E::ReturnComplete]) == Some(S::Local),
{
    reveal_with_fuel(run_events, 3);
}

/// A live projection can always be handed off to another destination and comes back
/// live, whether the handoff commits or is aborted, and can always be returned home.
pub proof fn lemma_handoff_and_return()
    ensures
        run_events(S::RemoteActive, seq![E::HandoffRequested, E::NegotiationComplete, E::HandoffCommitted])
            == Some(S::RemoteActive),
        run_events(S::RemoteActive, seq![E::HandoffRequested, E::HandoffAborted]) == Some(S::RemoteActive),
        run_events(S::RemoteActive, seq![E::ReturnRequested, E::ReturnComplete]) == Some(S::Local),
{
    reveal_with_fuel(run_events, 4);
}


/// Each documented failure while a projection is coming up lands in `Error`, where no
/// input is forwarded; an aborted or failed handoff falls back to the live projection;
/// and a local window accepts only `Select` and `Close`, refusing everything else.
pub proof fn lemma_failures_and_refusals(e: ProjectionEvent)
    ensures
        projection_next(S::Authorizing, E::AuthorizeDenied) == Some(S::Error),
        projection_next(S::CaptureStarting, E::CaptureFailed) == Some(S::Error),
        projection_next(S::Negotiating, E::NegotiationFailed) == Some(S::Error),
        projection_next(S::WaitingForFirstFrame, E::FirstFrameTimeout) == Some(S::Error),
        !forwards_input(S::Error),
        projection_next(S::HandoffPreparing, E::HandoffAborted) == Some(S::RemoteActive),
        projection_next(S::HandoffPreparing, E::NegotiationFailed) == Some(S::RemoteActive),
        projection_next(S::HandoffCommitting, E::HandoffAborted) == Some(S::RemoteActive),
        e != E::Select && e != E::Close ==> projection_next(S::Local, e) is None,
{
}

} // verus!
