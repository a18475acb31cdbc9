//! What the handlers that publish a record do once they act for a signed-in
//! user (publish, save to the index, broadcast, answer), and how the agent
//! announces a published record on the user's timeline: both as state
//! machines whose actions the caller performs.
use vstd::prelude::*;

use crate::text::lemma_push_contains;

verus! {

/// Whether a publishing handler answers with the author's resolved handle.
#[derive(Clone, Copy, Debug, PartialEq, Eq, Structural)]
pub struct PublishPolicy {
    pub resolve_handle: bool,
}

/// The publishing policy of the status handler: it answers with the handle.
pub fn status_publish_policy() -> (p: PublishPolicy)
    ensures
        p == (PublishPolicy { resolve_handle: true }),
{
    PublishPolicy { resolve_handle: true }
}

/// The publishing policy of the listing handler: it answers with the handle.
pub fn create_listing_publish_policy() -> (p: PublishPolicy)
    ensures
        p == (PublishPolicy { resolve_handle: true }),
{
    PublishPolicy { resolve_handle: true }
}

/// The publishing policy of the comment handler: it answers with the
/// broadcast value itself.
pub fn post_comment_publish_policy() -> (p: PublishPolicy)
    ensures
        p == (PublishPolicy { resolve_handle: false }),
{
    PublishPolicy { resolve_handle: false }
}

/// What the handler has finished waiting for.
#[derive(Clone, Copy, Debug, PartialEq, Eq, Structural)]
pub enum PublishEvent {
    /// The handler acts for the signed-in user.
    Start,
    /// The record was published to the user's repository, or not.
    Published { ok: bool },
    /// The record was saved to the index, or not.
    Saved { ok: bool },
    /// The record was broadcast to the web socket clients, or not.
    Broadcast { ok: bool },
    /// The author's handle was resolved.
    HandleResolved,
}

/// The step whose error the handler answers with.
#[derive(Clone, Copy, Debug, PartialEq, Eq, Structural)]
pub enum PublishFailure {
    Publish,
    Save,
    Broadcast,
}

/// What the handler does next.
#[derive(Clone, Copy, Debug, PartialEq, Eq, Structural)]
pub enum PublishAction {
    Publish,
    Save,
    Broadcast,
    ResolveHandle,
    /// Answer with the saved record.
    Respond,
    Fail(PublishFailure),
    Ignore,
}

/// Where the handler stands.
#[derive(Clone, Copy, Debug, PartialEq, Eq, Structural)]
pub enum PublishState {
    Idle,
    Publishing,
    Saving,
    Broadcasting,
    ResolvingHandle,
    Done,
}

/// The decision table of a publishing handler: each step in turn, stopping
/// at the first that fails.
pub open spec fn publish_transition(
    policy: PublishPolicy,
    state: PublishState,
    event: PublishEvent,
) -> (PublishState, PublishAction) {
    match (state, event) {
        (PublishState::Idle, PublishEvent::Start) => (PublishState::Publishing, PublishAction::Publish),
        (PublishState::Publishing, PublishEvent::Published { ok }) => if ok {
            (PublishState::Saving, PublishAction::Save)
        } else {
            (PublishState::Done, PublishAction::Fail(PublishFailure::Publish))
        },
        (PublishState::Saving, PublishEvent::Saved { ok }) => if ok {
            (PublishState::Broadcasting, PublishAction::Broadcast)
        } else {
            (PublishState::Done, PublishAction::Fail(PublishFailure::Save))
        },
        (PublishState::Broadcasting, PublishEvent::Broadcast { ok }) => if !ok {
            (PublishState::Done, PublishAction::Fail(PublishFailure::Broadcast))
        } else if policy.resolve_handle {
            (PublishState::ResolvingHandle, PublishAction::ResolveHandle)
        } else {
            (PublishState::Done, PublishAction::Respond)
        },
        (PublishState::ResolvingHandle, PublishEvent::HandleResolved) => (
            PublishState::Done,
            PublishAction::Respond,
        ),
        _ => (state, PublishAction::Ignore),
    }
}

/// The next state of a publishing handler and what it does next.
pub fn publish_next(policy: PublishPolicy, state: PublishState, event: PublishEvent) -> (next: (
    PublishState,
    PublishAction,
))
    ensures
        next == publish_transition(policy, state, event),
{
    match (state, event) {
        (PublishState::Idle, PublishEvent::Start) => (PublishState::Publishing, PublishAction::Publish),
        (PublishState::Publishing, PublishEvent::Published { ok }) => if ok {
            (PublishState::Saving, PublishAction::Save)
        } else {
            (PublishState::Done, PublishAction::Fail(PublishFailure::Publish))
        },
        (PublishState::Saving, PublishEvent::Saved { ok }) => if ok {
            (PublishState::Broadcasting, PublishAction::Broadcast)
        } else {
            (PublishState::Done, PublishAction::Fail(PublishFailure::Save))
        },
        (PublishState::Broadcasting, PublishEvent::Broadcast { ok }) => if !ok {
            (PublishState::Done, PublishAction::Fail(PublishFailure::Broadcast))
        } else if policy.resolve_handle {
            (PublishState::ResolvingHandle, PublishAction::ResolveHandle)
        } else {
            (PublishState::Done, PublishAction::Respond)
        },
        (PublishState::ResolvingHandle, PublishEvent::HandleResolved) => (
            PublishState::Done,
            PublishAction::Respond,
        ),
        _ => (state, PublishAction::Ignore),
    }
}

/// The state reached and the actions taken when a publishing handler,
/// standing at `state`, receives `events` in turn.
pub open spec fn publish_run(
    policy: PublishPolicy,
    state: PublishState,
    events: Seq<PublishEvent>,
) -> (PublishState, Seq<PublishAction>)
    decreases events.len(),
{
    if events.len() == 0 {
        (state, Seq::empty())
    } else {
        let before = publish_run(policy, state, events.drop_last());
        let step = publish_transition(policy, before.0, events.last());
        (step.0, before.1.push(step.1))
    }
}

/// What every run of a publishing handler keeps: it saves only a record it
/// published, broadcasts only a record it saved, and answers only after the
/// record was published, saved and broadcast.
pub proof fn lemma_publish_run(policy: PublishPolicy, events: Seq<PublishEvent>)
    ensures
        ({
            let (state, actions) = publish_run(policy, PublishState::Idle, events);
            &&& (state == PublishState::Saving || state == PublishState::Broadcasting
                || state == PublishState::ResolvingHandle || actions.contains(PublishAction::Save))
                ==> events.contains(PublishEvent::Published { ok: true })
            &&& (state == PublishState::Broadcasting || state == PublishState::ResolvingHandle
                || actions.contains(PublishAction::Broadcast))
                ==> events.contains(PublishEvent::Saved { ok: true })
            &&& (state == PublishState::ResolvingHandle || actions.contains(PublishAction::Respond))
                ==> events.contains(PublishEvent::Broadcast { ok: true })
            &&& actions.contains(PublishAction::Respond) ==> {
                &&& events.contains(PublishEvent::Published { ok: true })
                &&& events.contains(PublishEvent::Saved { ok: true })
            }
        }),
    decreases events.len(),
{
    if events.len() > 0 {
        let prev = events.drop_last();
        let e = events.last();
        lemma_publish_run(policy, prev);
        let (mid, acts) = publish_run(policy, PublishState::Idle, prev);
        let (next, a) = publish_transition(policy, mid, e);
        assert(events =~= prev.push(e));
        lemma_push_contains(prev, e, PublishEvent::Published { ok: true });
        lemma_push_contains(prev, e, PublishEvent::Saved { ok: true });
        lemma_push_contains(prev, e, PublishEvent::Broadcast { ok: true });
        lemma_push_contains(acts, a, PublishAction::Save);
        lemma_push_contains(acts, a, PublishAction::Broadcast);
        lemma_push_contains(acts, a, PublishAction::Respond);
    }
}

/// What the agent has finished waiting for while publishing a record and
/// announcing it on the user's timeline.
#[derive(Clone, Copy, Debug, PartialEq, Eq, Structural)]
pub enum AnnounceEvent {
    Start,
    RecordPublished { ok: bool },
    PostPublished { ok: bool },
}

/// What the agent does next.
#[derive(Clone, Copy, Debug, PartialEq, Eq, Structural)]
pub enum AnnounceAction {
    PublishRecord,
    PublishPost,
    /// Return the published record.
    ReturnRecord,
    /// Return the error of publishing the record.
    Fail,
    Ignore,
}

/// Where the agent stands.
#[derive(Clone, Copy, Debug, PartialEq, Eq, Structural)]
pub enum AnnounceState {
    Idle,
    PublishingRecord,
    PublishingPost,
    Done,
}

/// The agent's decision table: publish the record, then the timeline post;
/// a failed post does not fail the call.
pub open spec fn announce_transition(state: AnnounceState, event: AnnounceEvent) -> (AnnounceState, AnnounceAction) {
    match (state, event) {
        (AnnounceState::Idle, AnnounceEvent::Start) => (
            AnnounceState::PublishingRecord,
            AnnounceAction::PublishRecord,
        ),
        (AnnounceState::PublishingRecord, AnnounceEvent::RecordPublished { ok }) => if ok {
            (AnnounceState::PublishingPost, AnnounceAction::PublishPost)
        } else {
            (AnnounceState::Done, AnnounceAction::Fail)
        },
        (AnnounceState::PublishingPost, AnnounceEvent::PostPublished { .. }) => (
            AnnounceState::Done,
            AnnounceAction::ReturnRecord,
        ),
        _ => (state, AnnounceAction::Ignore),
    }
}

/// The agent's next state and what it does next.
pub fn announce_next(state: AnnounceState, event: AnnounceEvent) -> (next: (AnnounceState, AnnounceAction))
    ensures
        next == announce_transition(state, event),
{
    match (state, event) {
        (AnnounceState::Idle, AnnounceEvent::Start) => (
            AnnounceState::PublishingRecord,
            AnnounceAction::PublishRecord,
        ),
        (AnnounceState::PublishingRecord, AnnounceEvent::RecordPublished { ok }) => if ok {
            (AnnounceState::PublishingPost, AnnounceAction::PublishPost)
        } else {
            (AnnounceState::Done, AnnounceAction::Fail)
        },
        (AnnounceState::PublishingPost, AnnounceEvent::PostPublished { .. }) => (
            AnnounceState::Done,
            AnnounceAction::ReturnRecord,
        ),
        _ => (state, AnnounceAction::Ignore),
    }
}

/// Whether the timeline post was published never changes what the agent
/// does: the published record is returned either way.
pub proof fn lemma_post_failure_is_harmless(state: AnnounceState, ok: bool)
    ensures
        announce_transition(state, AnnounceEvent::PostPublished { ok })
            == announce_transition(state, AnnounceEvent::PostPublished { ok: !ok }),
        announce_transition(state, AnnounceEvent::PostPublished { ok }).1 != AnnounceAction::Fail,
{
}

/// The agent posts on the timeline only about a record it published, and
/// returns a record only after publishing it.
pub proof fn lemma_announce_order(state: AnnounceState, event: AnnounceEvent)
    ensures
        announce_transition(state, event).1 == AnnounceAction::PublishPost
            ==> state == AnnounceState::PublishingRecord && event == (AnnounceEvent::RecordPublished { ok: true }),
        announce_transition(state, event).1 == AnnounceAction::ReturnRecord
            ==> state == AnnounceState::PublishingPost,
{
}

} // verus!
