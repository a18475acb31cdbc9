//! How the handlers that act for a user get hold of that user's OAuth
//! session, as a state machine: the handler reads the session, restores
//! the OAuth session and flushes the session as told, and hands back how
//! each step ended.
use vstd::prelude::*;

use crate::text::lemma_push_contains;

verus! {

/// What a handler asks of the session.
#[derive(Clone, Copy, Debug, PartialEq, Eq, Structural)]
pub struct SessionPolicy {
    /// Whether the handler refuses visitors who are not signed in.
    pub required: bool,
    /// Whether a session whose OAuth session cannot be restored is flushed.
    pub flush_on_restore_failure: bool,
}

/// The session policy of the handler that publishes a status: it refuses
/// visitors who are not signed in, and flushes a session whose OAuth
/// session cannot be restored.
pub fn status_session_policy() -> (p: SessionPolicy)
    ensures
        p == (SessionPolicy { required: true, flush_on_restore_failure: true }),
{
    SessionPolicy { required: true, flush_on_restore_failure: true }
}

/// The session policy of the handler that publishes a listing: it refuses
/// visitors who are not signed in, and flushes a session whose OAuth
/// session cannot be restored.
pub fn create_listing_session_policy() -> (p: SessionPolicy)
    ensures
        p == (SessionPolicy { required: true, flush_on_restore_failure: true }),
{
    SessionPolicy { required: true, flush_on_restore_failure: true }
}

/// The session policy of the handler that posts a comment: it refuses
/// visitors who are not signed in, and answers a failed restore without
/// flushing the session.
pub fn post_comment_session_policy() -> (p: SessionPolicy)
    ensures
        p == (SessionPolicy { required: true, flush_on_restore_failure: false }),
{
    SessionPolicy { required: true, flush_on_restore_failure: false }
}

/// What the log-out handler has finished waiting for.
#[derive(Clone, Copy, Debug, PartialEq, Eq, Structural)]
pub enum LogoutEvent {
    Start,
    SessionFlushed { ok: bool },
}

/// What the log-out handler does next.
#[derive(Clone, Copy, Debug, PartialEq, Eq, Structural)]
pub enum LogoutAction {
    FlushSession,
    /// Send the visitor to `/`.
    RedirectHome,
    /// Answer with the error of flushing the session.
    FailFlush,
}

/// The log-out decision table: flush the session, then go home, or fail
/// where flushing failed.
pub open spec fn logout_transition(event: LogoutEvent) -> LogoutAction {
    match event {
        LogoutEvent::Start => LogoutAction::FlushSession,
        LogoutEvent::SessionFlushed { ok } => if ok {
            LogoutAction::RedirectHome
        } else {
            LogoutAction::FailFlush
        },
    }
}

/// What the log-out handler does next.
pub fn logout_next(event: LogoutEvent) -> (action: LogoutAction)
    ensures
        action == logout_transition(event),
{
    match event {
        LogoutEvent::Start => LogoutAction::FlushSession,
        LogoutEvent::SessionFlushed { ok } => if ok {
            LogoutAction::RedirectHome
        } else {
            LogoutAction::FailFlush
        },
    }
}

/// What the handler has finished waiting for.
#[derive(Clone, Copy, Debug, PartialEq, Eq, Structural)]
pub enum SessionEvent {
    Start,
    SessionRead { signed_in: bool },
    SessionReadFailed,
    SessionRestored { ok: bool },
    SessionFlushed { ok: bool },
}

/// Which error the handler answers with.
#[derive(Clone, Copy, Debug, PartialEq, Eq, Structural)]
pub enum SessionFailure {
    /// The error of reading the session.
    SessionRead,
    /// The visitor is not signed in.
    NoSessionAuth,
    /// The error of restoring the OAuth session.
    Restore,
    /// The error of flushing the session.
    Flush,
}

/// What the handler does next.
#[derive(Clone, Copy, Debug, PartialEq, Eq, Structural)]
pub enum SessionAction {
    ReadSession,
    RestoreSession,
    FlushSession,
    /// Go on with the restored OAuth session.
    ProceedSignedIn,
    /// Go on without a user.
    ProceedSignedOut,
    Fail(SessionFailure),
    Ignore,
}

/// Where the handler stands.
#[derive(Clone, Copy, Debug, PartialEq, Eq, Structural)]
pub enum SessionState {
    Idle,
    Reading,
    Restoring,
    FlushingAfterRestoreFailure,
    Done,
}

/// The session decision table of a handler with policy `policy`.
pub open spec fn session_transition(
    policy: SessionPolicy,
    state: SessionState,
    event: SessionEvent,
) -> (SessionState, SessionAction) {
    match (state, event) {
        (SessionState::Idle, SessionEvent::Start) => (SessionState::Reading, SessionAction::ReadSession),
        (SessionState::Reading, SessionEvent::SessionReadFailed) => (
            SessionState::Done,
            SessionAction::Fail(SessionFailure::SessionRead),
        ),
        (SessionState::Reading, SessionEvent::SessionRead { signed_in }) => if signed_in {
            (SessionState::Restoring, SessionAction::RestoreSession)
        } else if policy.required {
            (SessionState::Done, SessionAction::Fail(SessionFailure::NoSessionAuth))
        } else {
            (SessionState::Done, SessionAction::ProceedSignedOut)
        },
        (SessionState::Restoring, SessionEvent::SessionRestored { ok }) => if ok {
            (SessionState::Done, SessionAction::ProceedSignedIn)
        } else if policy.flush_on_restore_failure {
            (SessionState::FlushingAfterRestoreFailure, SessionAction::FlushSession)
        } else {
            (SessionState::Done, SessionAction::Fail(SessionFailure::Restore))
        },
        (SessionState::FlushingAfterRestoreFailure, SessionEvent::SessionFlushed { ok }) => if ok {
            (SessionState::Done, SessionAction::Fail(SessionFailure::Restore))
        } else {
            (SessionState::Done, SessionAction::Fail(SessionFailure::Flush))
        },
        _ => (state, SessionAction::Ignore),
    }
}

/// The next state of a handler with policy `policy` and what it does next.
pub fn session_next(policy: SessionPolicy, state: SessionState, event: SessionEvent) -> (next: (
    SessionState,
    SessionAction,
))
    ensures
        next == session_transition(policy, state, event),
{
    match (state, event) {
        (SessionState::Idle, SessionEvent::Start) => (SessionState::Reading, SessionAction::ReadSession),
        (SessionState::Reading, SessionEvent::SessionReadFailed) => (
            SessionState::Done,
            SessionAction::Fail(SessionFailure::SessionRead),
        ),
        (SessionState::Reading, SessionEvent::SessionRead { signed_in }) => if signed_in {
            (SessionState::Restoring, SessionAction::RestoreSession)
        } else if policy.required {
            (SessionState::Done, SessionAction::Fail(SessionFailure::NoSessionAuth))
        } else {
            (SessionState::Done, SessionAction::ProceedSignedOut)
        },
        (SessionState::Restoring, SessionEvent::SessionRestored { ok }) => if ok {
            (SessionState::Done, SessionAction::ProceedSignedIn)
        } else if policy.flush_on_restore_failure {
            (SessionState::FlushingAfterRestoreFailure, SessionAction::FlushSession)
        } else {
            (SessionState::Done, SessionAction::Fail(SessionFailure::Restore))
        },
        (SessionState::FlushingAfterRestoreFailure, SessionEvent::SessionFlushed { ok }) => if ok {
            (SessionState::Done, SessionAction::Fail(SessionFailure::Restore))
        } else {
            (SessionState::Done, SessionAction::Fail(SessionFailure::Flush))
        },
        _ => (state, SessionAction::Ignore),
    }
}

/// The state reached and the actions taken when a handler with policy
/// `policy`, standing at `state`, receives `events` in turn.
pub open spec fn session_run(
    policy: SessionPolicy,
    state: SessionState,
    events: Seq<SessionEvent>,
) -> (SessionState, Seq<SessionAction>)
    decreases events.len(),
{
    if events.len() == 0 {
        (state, Seq::empty())
    } else {
        let before = session_run(policy, state, events.drop_last());
        let step = session_transition(policy, before.0, events.last());
        (step.0, before.1.push(step.1))
    }
}

/// What every run from the start keeps: a handler goes on as the user only
/// after the OAuth session was restored; one that requires a session never
/// goes on without one; one that flushes a session it cannot restore
/// answers that error only after flushing, and one that does not never
/// flushes.
pub proof fn lemma_session_run(policy: SessionPolicy, events: Seq<SessionEvent>)
    ensures
        ({
            let (state, actions) = session_run(policy, SessionState::Idle, events);
            &&& actions.contains(SessionAction::ProceedSignedIn)
                ==> events.contains(SessionEvent::SessionRestored { ok: true })
            &&& policy.required ==> !actions.contains(SessionAction::ProceedSignedOut)
            &&& state == SessionState::FlushingAfterRestoreFailure ==> actions.contains(SessionAction::FlushSession)
            &&& policy.flush_on_restore_failure && actions.contains(SessionAction::Fail(SessionFailure::Restore))
                ==> actions.contains(SessionAction::FlushSession)
            &&& !policy.flush_on_restore_failure ==> !actions.contains(SessionAction::FlushSession)
        }),
    decreases events.len(),
{
    if events.len() > 0 {
        let prev = events.drop_last();
        let e = events.last();
        lemma_session_run(policy, prev);
        let (mid, acts) = session_run(policy, SessionState::Idle, prev);
        let (next, a) = session_transition(policy, mid, e);
        assert(events =~= prev.push(e));
        lemma_push_contains(prev, e, SessionEvent::SessionRestored { ok: true });
        lemma_push_contains(acts, a, SessionAction::ProceedSignedIn);
        lemma_push_contains(acts, a, SessionAction::ProceedSignedOut);
        lemma_push_contains(acts, a, SessionAction::FlushSession);
        lemma_push_contains(acts, a, SessionAction::Fail(SessionFailure::Restore));
    }
}

} // verus!
