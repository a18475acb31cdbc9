//! The decisions of the home page handler, as a state machine: the handler
//! performs each action (loading the recent statuses, reading the session,
//! restoring the OAuth session, loading the user's status and profile,
//! flushing the session, loading the recent listings, rendering) and hands
//! back how it ended.
use vstd::prelude::*;

use crate::text::lemma_push_contains;

verus! {

/// How loading the signed-in user's profile ended.
#[derive(Clone, Copy, Debug, PartialEq, Eq, Structural)]
pub enum ProfileResult {
    Loaded,
    AuthenticationInvalid,
    Failed,
}

/// What the handler has finished waiting for.
#[derive(Clone, Copy, Debug, PartialEq, Eq, Structural)]
pub enum HomeEvent {
    /// The request came in.
    Start,
    /// The recent statuses were loaded, or loading them failed.
    RecentStatusesLoaded { ok: bool },
    /// The session was read; whether it names a signed-in account.
    SessionRead { signed_in: bool },
    /// Reading the session failed.
    SessionReadFailed,
    /// The OAuth session was restored, or not.
    SessionRestored { ok: bool },
    /// The user's current status was looked up, or the lookup failed.
    StatusLoaded { ok: bool },
    /// The user's profile was looked up.
    ProfileLoaded { result: ProfileResult },
    /// The session was flushed, or flushing failed.
    SessionFlushed { ok: bool },
    /// The recent listings were loaded, or loading them failed.
    RecentListingsLoaded { ok: bool },
}

/// Which error the handler answers with.
#[derive(Clone, Copy, Debug, PartialEq, Eq, Structural)]
pub enum HomeFailure {
    /// The error of reading the session.
    SessionRead,
    /// The error of restoring the OAuth session.
    Restore,
    /// The error of flushing the session.
    Flush,
    /// The error of looking up the current status.
    Status,
    /// The error of looking up the profile.
    Profile,
}

/// What the handler does next.
#[derive(Clone, Copy, Debug, PartialEq, Eq, Structural)]
pub enum HomeAction {
    /// Load the recent statuses; a failed load shows none.
    LoadRecentStatuses,
    ReadSession,
    RestoreSession,
    LoadCurrentStatus,
    LoadProfile,
    FlushSession,
    /// Load the recent listings; a failed load shows none.
    LoadRecentListings,
    /// Render the page without a profile.
    RenderSignedOut,
    /// Render the page with the user's profile and status.
    RenderSignedIn,
    /// Answer with an error.
    Fail(HomeFailure),
    /// The event does not belong to this state; nothing to do.
    Ignore,
}

/// Where the handler stands.
#[derive(Clone, Copy, Debug, PartialEq, Eq, Structural)]
pub enum HomeState {
    Idle,
    LoadingRecentStatuses,
    ReadingSession,
    Restoring,
    LoadingStatus,
    LoadingProfile,
    FlushingAfterRestoreFailure,
    FlushingAfterInvalidAuth,
    /// Loading the recent listings before rendering the page, signed in or not.
    LoadingRecentListings { signed_in: bool },
    Done,
}

/// The home page's decision table.
pub open spec fn home_transition(state: HomeState, event: HomeEvent) -> (HomeState, HomeAction) {
    match (state, event) {
        (HomeState::Idle, HomeEvent::Start) => (
            HomeState::LoadingRecentStatuses,
            HomeAction::LoadRecentStatuses,
        ),
        (HomeState::LoadingRecentStatuses, HomeEvent::RecentStatusesLoaded { .. }) => (
            HomeState::ReadingSession,
            HomeAction::ReadSession,
        ),
        (HomeState::ReadingSession, HomeEvent::SessionReadFailed) => (
            HomeState::Done,
            HomeAction::Fail(HomeFailure::SessionRead),
        ),
        (HomeState::ReadingSession, HomeEvent::SessionRead { signed_in }) => if signed_in {
            (HomeState::Restoring, HomeAction::RestoreSession)
        } else {
            (HomeState::LoadingRecentListings { signed_in: false }, HomeAction::LoadRecentListings)
        },
        (HomeState::Restoring, HomeEvent::SessionRestored { ok }) => if ok {
            (HomeState::LoadingStatus, HomeAction::LoadCurrentStatus)
        } else {
            (HomeState::FlushingAfterRestoreFailure, HomeAction::FlushSession)
        },
        (HomeState::FlushingAfterRestoreFailure, HomeEvent::SessionFlushed { ok }) => if ok {
            (HomeState::Done, HomeAction::Fail(HomeFailure::Restore))
        } else {
            (HomeState::Done, HomeAction::Fail(HomeFailure::Flush))
        },
        (HomeState::LoadingStatus, HomeEvent::StatusLoaded { ok }) => if ok {
            (HomeState::LoadingProfile, HomeAction::LoadProfile)
        } else {
            (HomeState::Done, HomeAction::Fail(HomeFailure::Status))
        },
        (HomeState::LoadingProfile, HomeEvent::ProfileLoaded { result }) => match result {
            ProfileResult::Loaded => (
                HomeState::LoadingRecentListings { signed_in: true },
                HomeAction::LoadRecentListings,
            ),
            ProfileResult::AuthenticationInvalid => (
                HomeState::FlushingAfterInvalidAuth,
                HomeAction::FlushSession,
            ),
            ProfileResult::Failed => (HomeState::Done, HomeAction::Fail(HomeFailure::Profile)),
        },
        (HomeState::FlushingAfterInvalidAuth, HomeEvent::SessionFlushed { ok }) => if ok {
            (HomeState::LoadingRecentListings { signed_in: false }, HomeAction::LoadRecentListings)
        } else {
            (HomeState::Done, HomeAction::Fail(HomeFailure::Flush))
        },
        (HomeState::LoadingRecentListings { signed_in }, HomeEvent::RecentListingsLoaded { .. }) => if signed_in {
            (HomeState::Done, HomeAction::RenderSignedIn)
        } else {
            (HomeState::Done, HomeAction::RenderSignedOut)
        },
        _ => (state, HomeAction::Ignore),
    }
}

/// The next state of the home page handler and what it does next.
pub fn home_next(state: HomeState, event: HomeEvent) -> (next: (HomeState, HomeAction))
    ensures
        next == home_transition(state, event),
{
    match (state, event) {
        (HomeState::Idle, HomeEvent::Start) => (
            HomeState::LoadingRecentStatuses,
            HomeAction::LoadRecentStatuses,
        ),
        (HomeState::LoadingRecentStatuses, HomeEvent::RecentStatusesLoaded { .. }) => (
            HomeState::ReadingSession,
            HomeAction::ReadSession,
        ),
        (HomeState::ReadingSession, HomeEvent::SessionReadFailed) => (
            HomeState::Done,
            HomeAction::Fail(HomeFailure::SessionRead),
        ),
        (HomeState::ReadingSession, HomeEvent::SessionRead { signed_in }) => if signed_in {
            (HomeState::Restoring, HomeAction::RestoreSession)
        } else {
            (HomeState::LoadingRecentListings { signed_in: false }, HomeAction::LoadRecentListings)
        },
        (HomeState::Restoring, HomeEvent::SessionRestored { ok }) => if ok {
            (HomeState::LoadingStatus, HomeAction::LoadCurrentStatus)
        } else {
            (HomeState::FlushingAfterRestoreFailure, HomeAction::FlushSession)
        },
        (HomeState::FlushingAfterRestoreFailure, HomeEvent::SessionFlushed { ok }) => if ok {
            (HomeState::Done, HomeAction::Fail(HomeFailure::Restore))
        } else {
            (HomeState::Done, HomeAction::Fail(HomeFailure::Flush))
        },
        (HomeState::LoadingStatus, HomeEvent::StatusLoaded { ok }) => if ok {
            (HomeState::LoadingProfile, HomeAction::LoadProfile)
        } else {
            (HomeState::Done, HomeAction::Fail(HomeFailure::Status))
        },
        (HomeState::LoadingProfile, HomeEvent::ProfileLoaded { result }) => match result {
            ProfileResult::Loaded => (
                HomeState::LoadingRecentListings { signed_in: true },
                HomeAction::LoadRecentListings,
            ),
            ProfileResult::AuthenticationInvalid => (
                HomeState::FlushingAfterInvalidAuth,
                HomeAction::FlushSession,
            ),
            ProfileResult::Failed => (HomeState::Done, HomeAction::Fail(HomeFailure::Profile)),
        },
        (HomeState::FlushingAfterInvalidAuth, HomeEvent::SessionFlushed { ok }) => if ok {
            (HomeState::LoadingRecentListings { signed_in: false }, HomeAction::LoadRecentListings)
        } else {
            (HomeState::Done, HomeAction::Fail(HomeFailure::Flush))
        },
        (HomeState::LoadingRecentListings { signed_in }, HomeEvent::RecentListingsLoaded { .. }) => if signed_in {
            (HomeState::Done, HomeAction::RenderSignedIn)
        } else {
            (HomeState::Done, HomeAction::RenderSignedOut)
        },
        _ => (state, HomeAction::Ignore),
    }
}

/// What is shown of a list that was loaded for the page: the list itself,
/// or nothing where loading it failed.
pub fn or_empty<T, E>(loaded: Result<Vec<T>, E>) -> (shown: Vec<T>)
    ensures
        shown@ == match loaded {
            Ok(v) => v@,
            Err(_) => Seq::<T>::empty(),
        },
{
    match loaded {
        Ok(v) => v,
        Err(_) => Vec::new(),
    }
}

/// The state reached and the actions taken when the handler, standing at
/// `state`, receives `events` in turn.
pub open spec fn home_run(state: HomeState, events: Seq<HomeEvent>) -> (HomeState, Seq<HomeAction>)
    decreases events.len(),
{
    if events.len() == 0 {
        (state, Seq::empty())
    } else {
        let before = home_run(state, events.drop_last());
        let step = home_transition(before.0, events.last());
        (step.0, before.1.push(step.1))
    }
}

/// What every run of the home page handler from the start keeps: the
/// signed-in page is rendered only after the OAuth session was restored,
/// the user's status read and the profile loaded; an error of restoring
/// the session is answered only after the session was flushed.
pub proof fn lemma_home_run(events: Seq<HomeEvent>)
    ensures
        ({
            let (state, actions) = home_run(HomeState::Idle, events);
            &&& (state == HomeState::LoadingStatus || state == HomeState::LoadingProfile
                || state == HomeState::FlushingAfterInvalidAuth
                || state == HomeState::LoadingRecentListings { signed_in: true })
                ==> events.contains(HomeEvent::SessionRestored { ok: true })
            &&& (state == HomeState::LoadingProfile || state == HomeState::FlushingAfterInvalidAuth
                || state == HomeState::LoadingRecentListings { signed_in: true })
                ==> events.contains(HomeEvent::StatusLoaded { ok: true })
            &&& state == HomeState::LoadingRecentListings { signed_in: true }
                ==> events.contains(HomeEvent::ProfileLoaded { result: ProfileResult::Loaded })
            &&& state == HomeState::FlushingAfterRestoreFailure ==> actions.contains(HomeAction::FlushSession)
            &&& actions.contains(HomeAction::RenderSignedIn) ==> {
                &&& events.contains(HomeEvent::SessionRestored { ok: true })
                &&& events.contains(HomeEvent::StatusLoaded { ok: true })
                &&& events.contains(HomeEvent::ProfileLoaded { result: ProfileResult::Loaded })
            }
            &&& actions.contains(HomeAction::Fail(HomeFailure::Restore))
                ==> actions.contains(HomeAction::FlushSession)
        }),
    decreases events.len(),
{
    if events.len() > 0 {
        let prev = events.drop_last();
        let e = events.last();
        lemma_home_run(prev);
        let (mid, acts) = home_run(HomeState::Idle, prev);
        let (next, a) = home_transition(mid, e);
        assert(events =~= prev.push(e));
        lemma_push_contains(prev, e, HomeEvent::SessionRestored { ok: true });
        lemma_push_contains(prev, e, HomeEvent::StatusLoaded { ok: true });
        lemma_push_contains(prev, e, HomeEvent::ProfileLoaded { result: ProfileResult::Loaded });
        lemma_push_contains(acts, a, HomeAction::FlushSession);
        lemma_push_contains(acts, a, HomeAction::RenderSignedIn);
        lemma_push_contains(acts, a, HomeAction::Fail(HomeFailure::Restore));
    }
}

/// Loading the recent statuses or the recent listings never decides
/// anything: whether the load worked, the handler goes on the same way, and
/// it never answers with an error because of it.
pub proof fn lemma_home_feed_loads_never_fail(state: HomeState, ok: bool)
    ensures
        home_transition(state, HomeEvent::RecentStatusesLoaded { ok })
            == home_transition(state, HomeEvent::RecentStatusesLoaded { ok: !ok }),
        home_transition(state, HomeEvent::RecentListingsLoaded { ok })
            == home_transition(state, HomeEvent::RecentListingsLoaded { ok: !ok }),
        !(home_transition(state, HomeEvent::RecentStatusesLoaded { ok }).1 is Fail),
        !(home_transition(state, HomeEvent::RecentListingsLoaded { ok }).1 is Fail),
{
}

/// Once the handler has answered, it does nothing more.
pub proof fn lemma_home_done_is_final(event: HomeEvent)
    ensures
        home_transition(HomeState::Done, event) == (HomeState::Done, HomeAction::Ignore),
{
}

} // verus!
