//! Per-session lifecycle: the state a stream moves through from registration
//! to termination, the events that drive it, and the projection that listing
//! requests hand out.
//!
//! Transitions only move forward: a stopped session never becomes starting
//! or running again; a restarted stream is a fresh session that replaces the
//! old registry entry.

use vstd::prelude::*;
use crate::structures::RtspResponse;

verus! {

/// An opaque reference to a live processing graph held by the media runtime;
/// the interpreter that owns the real graph resolves it by this identifier.
#[derive(Clone, Copy, Debug, PartialEq, Eq, Structural)]
pub struct PipelineHandle {
    pub id: u64,
}

/// Why a session reached its terminal state.
#[derive(Clone, Debug)]
pub enum StopReason {
    /// The graph signalled normal end of stream.
    NormalEnd,
    /// The graph could not be built; the detail describes the failing step.
    ConstructionError(String),
    /// The running graph signalled an error.
    RuntimeError(String),
    /// The graph exposed no event source to wait on.
    SinkUnavailable,
}

/// The lifecycle state of one session.
pub enum SessionState {
    /// Registered; the graph is not built or started yet.
    Starting,
    /// The graph is live; the handle lets a delete request signal it.
    Running(PipelineHandle),
    /// Terminal; no graph handle is held.
    Stopped(StopReason),
}

/// Spec-level mirror of [`StopReason`].
pub ghost enum StopReasonView {
    NormalEnd,
    ConstructionError(Seq<char>),
    RuntimeError(Seq<char>),
    SinkUnavailable,
}

/// Spec-level mirror of [`SessionState`].
pub ghost enum SessionStateView {
    Starting,
    Running(u64),
    Stopped(StopReasonView),
}

impl View for StopReason {
    type V = StopReasonView;

    open spec fn view(&self) -> StopReasonView {
        match self {
            StopReason::NormalEnd => StopReasonView::NormalEnd,
            StopReason::ConstructionError(d) => StopReasonView::ConstructionError(d@),
            StopReason::RuntimeError(d) => StopReasonView::RuntimeError(d@),
            StopReason::SinkUnavailable => StopReasonView::SinkUnavailable,
        }
    }
}

impl View for SessionState {
    type V = SessionStateView;

    open spec fn view(&self) -> SessionStateView {
        match self {
            SessionState::Starting => SessionStateView::Starting,
            SessionState::Running(h) => SessionStateView::Running(h.id),
            SessionState::Stopped(r) => SessionStateView::Stopped(r@),
        }
    }
}

/// An event the supervisor reacts to for one session.
pub enum SessionEvent {
    /// The graph was built and moved to its running state.
    GraphStarted(PipelineHandle),
    /// Topology construction failed before the graph ever ran.
    BuildFailed(String),
    /// The running graph delivered its normal-completion signal.
    GraphEnded,
    /// The running graph delivered an error signal.
    GraphErrored(String),
    /// The graph has no event source to wait on at all.
    NoEventSource,
}

/// Spec-level mirror of [`SessionEvent`].
pub ghost enum SessionEventView {
    GraphStarted(u64),
    BuildFailed(Seq<char>),
    GraphEnded,
    GraphErrored(Seq<char>),
    NoEventSource,
}

impl View for SessionEvent {
    type V = SessionEventView;

    open spec fn view(&self) -> SessionEventView {
        match self {
            SessionEvent::GraphStarted(h) => SessionEventView::GraphStarted(h.id),
            SessionEvent::BuildFailed(d) => SessionEventView::BuildFailed(d@),
            SessionEvent::GraphEnded => SessionEventView::GraphEnded,
            SessionEvent::GraphErrored(d) => SessionEventView::GraphErrored(d@),
            SessionEvent::NoEventSource => SessionEventView::NoEventSource,
        }
    }
}

/// How far along its lifecycle a session is; transitions never decrease it.
pub open spec fn phase(s: SessionStateView) -> int {
    match s {
        SessionStateView::Starting => 0,
        SessionStateView::Running(_) => 1,
        SessionStateView::Stopped(_) => 2,
    }
}

/// The lifecycle step function: what state a session is in after one event.
/// A stopped session ignores every further event; an event that does not
/// apply to the current state leaves it unchanged.
pub open spec fn next_state(s: SessionStateView, ev: SessionEventView) -> SessionStateView {
    match s {
        SessionStateView::Starting => match ev {
            SessionEventView::GraphStarted(h) => SessionStateView::Running(h),
            SessionEventView::BuildFailed(d) => SessionStateView::Stopped(
                StopReasonView::ConstructionError(d),
            ),
            _ => s,
        },
        SessionStateView::Running(_) => match ev {
            SessionEventView::GraphEnded => SessionStateView::Stopped(StopReasonView::NormalEnd),
            SessionEventView::GraphErrored(d) => SessionStateView::Stopped(
                StopReasonView::RuntimeError(d),
            ),
            SessionEventView::NoEventSource => SessionStateView::Stopped(
                StopReasonView::SinkUnavailable,
            ),
            _ => s,
        },
        SessionStateView::Stopped(_) => s,
    }
}

/// Applies one lifecycle event to a session state.
pub fn advance(s: SessionState, ev: SessionEvent) -> (r: SessionState)
    ensures
        r@ == next_state(s@, ev@),
{
    match s {
        SessionState::Starting => match ev {
            SessionEvent::GraphStarted(h) => SessionState::Running(h),
            SessionEvent::BuildFailed(d) => SessionState::Stopped(
                StopReason::ConstructionError(d),
            ),
            _ => SessionState::Starting,
        },
        SessionState::Running(h) => match ev {
            SessionEvent::GraphEnded => SessionState::Stopped(StopReason::NormalEnd),
            SessionEvent::GraphErrored(d) => SessionState::Stopped(StopReason::RuntimeError(d)),
            SessionEvent::NoEventSource => SessionState::Stopped(StopReason::SinkUnavailable),
            _ => SessionState::Running(h),
        },
        SessionState::Stopped(r) => SessionState::Stopped(r),
    }
}

/// Once a session is stopped, no event moves it anywhere else: its state is
/// terminal until a fresh registration replaces the whole entry.
pub proof fn lemma_stopped_is_terminal(s: SessionStateView, ev: SessionEventView)
    requires
        s is Stopped,
    ensures
        next_state(s, ev) == s,
{
}

/// Lifecycle transitions are monotonic: an event never moves a session to an
/// earlier phase.
pub proof fn lemma_transitions_monotonic(s: SessionStateView, ev: SessionEventView)
    ensures
        phase(next_state(s, ev)) >= phase(s),
{
}

/// A session is running exactly when it holds a live graph handle.
pub proof fn lemma_running_holds_handle(s: SessionStateView, ev: SessionEventView)
    ensures
        next_state(s, ev) is Running <==> (exists|h: u64| next_state(s, ev)
            == SessionStateView::Running(h)),
        next_state(s, ev) is Stopped ==> forall|h: u64| next_state(s, ev)
            != SessionStateView::Running(h),
{
    let n = next_state(s, ev);
    if n is Running {
        assert(n == SessionStateView::Running(n->Running_0));
    }
}

/// Spec-level mirror of [`RtspResponse`].
pub ghost struct RtspResponseView {
    pub status: bool,
    pub message: Seq<char>,
}

impl View for RtspResponse {
    type V = RtspResponseView;

    open spec fn view(&self) -> RtspResponseView {
        RtspResponseView { status: self.status, message: self.message@ }
    }
}

/// The listing projection of a session state: a running session reports
/// status true; every other state reports false with a short phrase or the
/// recorded error detail.
pub open spec fn project(s: SessionStateView) -> RtspResponseView {
    match s {
        SessionStateView::Starting => RtspResponseView { status: false, message: "Starting"@ },
        SessionStateView::Running(_) => RtspResponseView { status: true, message: "Started"@ },
        SessionStateView::Stopped(r) => match r {
            StopReasonView::NormalEnd => RtspResponseView {
                status: false,
                message: "Pipeline Ended"@,
            },
            StopReasonView::ConstructionError(d) => RtspResponseView { status: false, message: d },
            StopReasonView::RuntimeError(d) => RtspResponseView { status: false, message: d },
            StopReasonView::SinkUnavailable => RtspResponseView {
                status: false,
                message: "Bus not initialized"@,
            },
        },
    }
}

/// Projects a session state into the record a listing request returns.
pub fn to_response(s: &SessionState) -> (r: RtspResponse)
    ensures
        r@ == project(s@),
{
    match s {
        SessionState::Starting => RtspResponse { status: false, message: "Starting".to_owned() },
        SessionState::Running(_) => RtspResponse { status: true, message: "Started".to_owned() },
        SessionState::Stopped(reason) => match reason {
            StopReason::NormalEnd => RtspResponse {
                status: false,
                message: "Pipeline Ended".to_owned(),
            },
            StopReason::ConstructionError(d) => RtspResponse { status: false, message: d.clone() },
            StopReason::RuntimeError(d) => RtspResponse { status: false, message: d.clone() },
            StopReason::SinkUnavailable => RtspResponse {
                status: false,
                message: "Bus not initialized".to_owned(),
            },
        },
    }
}

} // verus!
