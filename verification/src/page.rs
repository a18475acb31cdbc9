//! The decisions of the listing page handler, as a state machine: the
//! handler looks the listing up, loads its comments, reads the session,
//! restores the OAuth session and loads the profile as told, and hands back
//! how each step ended. It never flushes the session.
use vstd::prelude::*;

use crate::text::lemma_push_contains;

verus! {

/// How looking the listing up ended.
#[derive(Clone, Copy, Debug, PartialEq, Eq, Structural)]
pub enum Lookup {
    Found,
    NotFound,
    Failed,
}

/// What the handler has finished waiting for.
#[derive(Clone, Copy, Debug, PartialEq, Eq, Structural)]
pub enum PageEvent {
    Start,
    ListingLoaded { lookup: Lookup },
    CommentsLoaded { ok: bool },
    SessionRead { signed_in: bool },
    SessionReadFailed,
    SessionRestored { ok: bool },
    ProfileLoaded { ok: bool },
}

/// Which error the handler answers with.
#[derive(Clone, Copy, Debug, PartialEq, Eq, Structural)]
pub enum PageFailure {
    /// The error of looking the listing up.
    Lookup,
    /// No listing is stored at the URI.
    NotFound,
    /// The error of loading the comments.
    Comments,
    /// The error of reading the session.
    SessionRead,
    /// The error of restoring the OAuth session.
    Restore,
    /// The error of loading the profile.
    Profile,
}

/// What the handler does next.
#[derive(Clone, Copy, Debug, PartialEq, Eq, Structural)]
pub enum PageAction {
    LoadListing,
    LoadComments,
    ReadSession,
    RestoreSession,
    LoadProfile,
    /// Render the page with the signed-in user's profile.
    RenderWithProfile,
    /// Render the page without a profile.
    RenderWithoutProfile,
    Fail(PageFailure),
    Ignore,
}

/// Where the handler stands.
#[derive(Clone, Copy, Debug, PartialEq, Eq, Structural)]
pub enum PageState {
    Idle,
    LoadingListing,
    LoadingComments,
    ReadingSession,
    Restoring,
    LoadingProfile,
    Done,
}

/// The listing page's decision table.
pub open spec fn page_transition(state: PageState, event: PageEvent) -> (PageState, PageAction) {
    match (state, event) {
        (PageState::Idle, PageEvent::Start) => (PageState::LoadingListing, PageAction::LoadListing),
        (PageState::LoadingListing, PageEvent::ListingLoaded { lookup }) => match lookup {
            Lookup::Found => (PageState::LoadingComments, PageAction::LoadComments),
            Lookup::NotFound => (PageState::Done, PageAction::Fail(PageFailure::NotFound)),
            Lookup::Failed => (PageState::Done, PageAction::Fail(PageFailure::Lookup)),
        },
        (PageState::LoadingComments, PageEvent::CommentsLoaded { ok }) => if ok {
            (PageState::ReadingSession, PageAction::ReadSession)
        } else {
            (PageState::Done, PageAction::Fail(PageFailure::Comments))
        },
        (PageState::ReadingSession, PageEvent::SessionReadFailed) => (
            PageState::Done,
            PageAction::Fail(PageFailure::SessionRead),
        ),
        (PageState::ReadingSession, PageEvent::SessionRead { signed_in }) => if signed_in {
            (PageState::Restoring, PageAction::RestoreSession)
        } else {
            (PageState::Done, PageAction::RenderWithoutProfile)
        },
        (PageState::Restoring, PageEvent::SessionRestored { ok }) => if ok {
            (PageState::LoadingProfile, PageAction::LoadProfile)
        } else {
            (PageState::Done, PageAction::Fail(PageFailure::Restore))
        },
        (PageState::LoadingProfile, PageEvent::ProfileLoaded { ok }) => if ok {
            (PageState::Done, PageAction::RenderWithProfile)
        } else {
            (PageState::Done, PageAction::Fail(PageFailure::Profile))
        },
        _ => (state, PageAction::Ignore),
    }
}

/// The next state of the listing page handler and what it does next.
pub fn page_next(state: PageState, event: PageEvent) -> (next: (PageState, PageAction))
    ensures
        next == page_transition(state, event),
{
    match (state, event) {
        (PageState::Idle, PageEvent::Start) => (PageState::LoadingListing, PageAction::LoadListing),
        (PageState::LoadingListing, PageEvent::ListingLoaded { lookup }) => match lookup {
            Lookup::Found => (PageState::LoadingComments, PageAction::LoadComments),
            Lookup::NotFound => (PageState::Done, PageAction::Fail(PageFailure::NotFound)),
            Lookup::Failed => (PageState::Done, PageAction::Fail(PageFailure::Lookup)),
        },
        (PageState::LoadingComments, PageEvent::CommentsLoaded { ok }) => if ok {
            (PageState::ReadingSession, PageAction::ReadSession)
        } else {
            (PageState::Done, PageAction::Fail(PageFailure::Comments))
        },
        (PageState::ReadingSession, PageEvent::SessionReadFailed) => (
            PageState::Done,
            PageAction::Fail(PageFailure::SessionRead),
        ),
        (PageState::ReadingSession, PageEvent::SessionRead { signed_in }) => if signed_in {
            (PageState::Restoring, PageAction::RestoreSession)
        } else {
            (PageState::Done, PageAction::RenderWithoutProfile)
        },
        (PageState::Restoring, PageEvent::SessionRestored { ok }) => if ok {
            (PageState::LoadingProfile, PageAction::LoadProfile)
        } else {
            (PageState::Done, PageAction::Fail(PageFailure::Restore))
        },
        (PageState::LoadingProfile, PageEvent::ProfileLoaded { ok }) => if ok {
            (PageState::Done, PageAction::RenderWithProfile)
        } else {
            (PageState::Done, PageAction::Fail(PageFailure::Profile))
        },
        _ => (state, PageAction::Ignore),
    }
}

/// The state reached and the actions taken when the handler, standing at
/// `state`, receives `events` in turn.
pub open spec fn page_run(state: PageState, events: Seq<PageEvent>) -> (PageState, Seq<PageAction>)
    decreases events.len(),
{
    if events.len() == 0 {
        (state, Seq::empty())
    } else {
        let before = page_run(state, events.drop_last());
        let step = page_transition(before.0, events.last());
        (step.0, before.1.push(step.1))
    }
}

/// What every run of the listing page handler from the start keeps: the
/// session is read only for a listing that was found and whose comments
/// loaded; the page shows a profile only after the OAuth session was
/// restored and the profile loaded.
pub proof fn lemma_page_run(events: Seq<PageEvent>)
    ensures
        ({
            let (state, actions) = page_run(PageState::Idle, events);
            &&& state == PageState::LoadingComments
                ==> events.contains(PageEvent::ListingLoaded { lookup: Lookup::Found })
            &&& (state == PageState::ReadingSession || state == PageState::Restoring
                || state == PageState::LoadingProfile || actions.contains(PageAction::ReadSession))
                ==> {
                &&& events.contains(PageEvent::ListingLoaded { lookup: Lookup::Found })
                &&& events.contains(PageEvent::CommentsLoaded { ok: true })
            }
            &&& (state == PageState::LoadingProfile || actions.contains(PageAction::RenderWithProfile))
                ==> events.contains(PageEvent::SessionRestored { ok: true })
            &&& actions.contains(PageAction::RenderWithProfile)
                ==> events.contains(PageEvent::ProfileLoaded { ok: true })
        }),
    decreases events.len(),
{
    if events.len() > 0 {
        let prev = events.drop_last();
        let e = events.last();
        lemma_page_run(prev);
        let (mid, acts) = page_run(PageState::Idle, prev);
        let (next, a) = page_transition(mid, e);
        assert(events =~= prev.push(e));
        lemma_push_contains(prev, e, PageEvent::ListingLoaded { lookup: Lookup::Found });
        lemma_push_contains(prev, e, PageEvent::CommentsLoaded { ok: true });
        lemma_push_contains(prev, e, PageEvent::SessionRestored { ok: true });
        lemma_push_contains(prev, e, PageEvent::ProfileLoaded { ok: true });
        lemma_push_contains(acts, a, PageAction::ReadSession);
        lemma_push_contains(acts, a, PageAction::RenderWithProfile);
    }
}

/// A listing that is not stored is answered with "not found" before
/// anything else runs.
pub proof fn lemma_page_not_found_first()
    ensures
        page_run(PageState::Idle, seq![PageEvent::Start, PageEvent::ListingLoaded { lookup: Lookup::NotFound }])
            == (PageState::Done, seq![PageAction::LoadListing, PageAction::Fail(PageFailure::NotFound)]),
{
    let ev = seq![PageEvent::Start, PageEvent::ListingLoaded { lookup: Lookup::NotFound }];
    let first = seq![PageEvent::Start];
    assert(ev.drop_last() =~= first);
    assert(first.drop_last() =~= Seq::<PageEvent>::empty());
    let r0 = page_run(PageState::Idle, Seq::<PageEvent>::empty());
    let r1 = page_run(PageState::Idle, first);
    assert(r1.0 == PageState::LoadingListing);
    assert(r1.1 =~= seq![PageAction::LoadListing]);
    let r = page_run(PageState::Idle, ev);
    assert(r.1 =~= seq![PageAction::LoadListing, PageAction::Fail(PageFailure::NotFound)]);
}

} // verus!
