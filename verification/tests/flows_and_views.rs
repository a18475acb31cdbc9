use mercato::forms::CommentForm;
use mercato::lexicons::comment::RecordData as CommentRecord;
use mercato::listing::ListingFromDb;
use mercato::publish::{
    announce_next, create_listing_publish_policy, post_comment_publish_policy, publish_next,
    status_publish_policy, AnnounceAction, AnnounceEvent, AnnounceState, PublishAction, PublishEvent,
    PublishFailure, PublishPolicy, PublishState,
};
use mercato::session::{
    create_listing_session_policy, logout_next, post_comment_session_policy, status_session_policy,
    LogoutAction, LogoutEvent, SessionPolicy,
};
use mercato::views::{
    comment_broadcast, listing_broadcast, listing_page, listing_with_handle, recent_listings, CommentRow,
};

#[test]
fn handler_session_policies() {
    assert_eq!(status_session_policy(), SessionPolicy { required: true, flush_on_restore_failure: true });
    assert_eq!(create_listing_session_policy(), SessionPolicy { required: true, flush_on_restore_failure: true });
    assert_eq!(post_comment_session_policy(), SessionPolicy { required: true, flush_on_restore_failure: false });
}

#[test]
fn logout_flushes_then_goes_home() {
    assert_eq!(logout_next(LogoutEvent::Start), LogoutAction::FlushSession);
    assert_eq!(logout_next(LogoutEvent::SessionFlushed { ok: true }), LogoutAction::RedirectHome);
    assert_eq!(logout_next(LogoutEvent::SessionFlushed { ok: false }), LogoutAction::FailFlush);
}

fn run(policy: PublishPolicy, events: &[PublishEvent]) -> (PublishState, Vec<PublishAction>) {
    let mut state = PublishState::Idle;
    let mut actions = Vec::new();
    for e in events {
        let (s, a) = publish_next(policy, state, *e);
        state = s;
        actions.push(a);
    }
    (state, actions)
}

#[test]
fn publishing_handlers_run_each_step() {
    assert_eq!(status_publish_policy(), PublishPolicy { resolve_handle: true });
    assert_eq!(create_listing_publish_policy(), PublishPolicy { resolve_handle: true });
    assert_eq!(post_comment_publish_policy(), PublishPolicy { resolve_handle: false });
    let ok = [
        PublishEvent::Start,
        PublishEvent::Published { ok: true },
        PublishEvent::Saved { ok: true },
        PublishEvent::Broadcast { ok: true },
        PublishEvent::HandleResolved,
    ];
    let (s, a) = run(create_listing_publish_policy(), &ok);
    assert_eq!(s, PublishState::Done);
    assert_eq!(
        a,
        vec![
            PublishAction::Publish,
            PublishAction::Save,
            PublishAction::Broadcast,
            PublishAction::ResolveHandle,
            PublishAction::Respond,
        ]
    );
    let (_, a) = run(post_comment_publish_policy(), &ok[..4]);
    assert_eq!(a[3], PublishAction::Respond);
}

#[test]
fn publishing_stops_at_first_failure() {
    let p = status_publish_policy();
    let (_, a) = run(p, &[PublishEvent::Start, PublishEvent::Published { ok: false }, PublishEvent::Saved { ok: true }]);
    assert_eq!(a[1], PublishAction::Fail(PublishFailure::Publish));
    assert_eq!(a[2], PublishAction::Ignore);
    let (_, a) = run(p, &[PublishEvent::Start, PublishEvent::Published { ok: true }, PublishEvent::Saved { ok: false }]);
    assert_eq!(a[2], PublishAction::Fail(PublishFailure::Save));
    let (_, a) = run(
        p,
        &[PublishEvent::Start, PublishEvent::Published { ok: true }, PublishEvent::Saved { ok: true }, PublishEvent::Broadcast { ok: false }],
    );
    assert_eq!(a[3], PublishAction::Fail(PublishFailure::Broadcast));
}

#[test]
fn failed_timeline_post_still_returns_record() {
    let (s, a) = announce_next(AnnounceState::Idle, AnnounceEvent::Start);
    assert_eq!(a, AnnounceAction::PublishRecord);
    let (s, a) = announce_next(s, AnnounceEvent::RecordPublished { ok: true });
    assert_eq!(a, AnnounceAction::PublishPost);
    assert_eq!(announce_next(s, AnnounceEvent::PostPublished { ok: false }), (AnnounceState::Done, AnnounceAction::ReturnRecord));
    assert_eq!(announce_next(s, AnnounceEvent::PostPublished { ok: true }), (AnnounceState::Done, AnnounceAction::ReturnRecord));
    assert_eq!(
        announce_next(AnnounceState::PublishingRecord, AnnounceEvent::RecordPublished { ok: false }),
        (AnnounceState::Done, AnnounceAction::Fail)
    );
}

fn row(uri: &str) -> ListingFromDb {
    ListingFromDb {
        uri: uri.to_string(),
        author_did: "did:plc:a".to_string(),
        title: "Bike".to_string(),
        description: None,
        role: "maker".to_string(),
        price: None,
        barter_for: None,
        latitude: None,
        longitude: None,
        altitude: None,
        location_name: None,
        image_cid: None,
        created_at: (1, 0),
        indexed_at: (2, 0),
        seen_on_jetstream: 0,
        created_via_this_app: 1,
    }
}

#[test]
fn feed_items_pair_rows_with_handles() {
    let feed = recent_listings::<&str>(Ok(vec![(row("u1"), Some("a.test".to_string())), (row("u2"), None)]));
    assert_eq!(feed.len(), 2);
    assert_eq!(feed[0].listing.uri, "u1");
    assert_eq!(feed[0].handle, Some("a.test".to_string()));
    assert_eq!(feed[0].record_type, "listing");
    assert_eq!(feed[1].listing.uri, "u2");
    assert_eq!(feed[1].handle, None);
    assert!(recent_listings::<&str>(Err("down")).is_empty());
}

#[test]
fn listing_values_sent_back() {
    let b = listing_broadcast(row("u"));
    assert_eq!(b.record_type, "listing");
    assert_eq!(b.listing.uri, "u");
    let r = listing_with_handle(row("u"), Some("h".to_string()));
    assert_eq!(r.handle, Some("h".to_string()));
}

#[test]
fn listing_page_carries_uri_and_comments() {
    let c = CommentRow {
        uri: "c1".to_string(),
        author_did: "did:plc:b".to_string(),
        subject_uri: "u".to_string(),
        content: "nice".to_string(),
        created_at: "2024-01-01T00:00:00Z".to_string(),
        indexed_at: "2024-01-01T00:00:01Z".to_string(),
        seen_on_jetstream: 0,
        created_via_this_app: 1,
    };
    let page = listing_page(row("u"), Some("a.test".to_string()), vec![(c, Some("b.test".to_string()))]);
    assert_eq!(page.uri, "u");
    assert_eq!(page.handle, Some("a.test".to_string()));
    assert_eq!(page.comments.len(), 1);
    assert_eq!(page.comments[0].comment.content, "nice");
    assert_eq!(page.comments[0].handle, Some("b.test".to_string()));
}

#[test]
fn comment_record_and_broadcast() {
    let rec = CommentRecord::for_listing(CommentForm { content: "closed".to_string() }, "did:plc:a", "r1", "t".to_string());
    assert_eq!(rec.subject, "at://did:plc:a/xyz.mercato.listing/r1");
    assert_eq!(rec.content, "closed");
    let b = comment_broadcast(rec, "at://did:plc:b/xyz.mercato.comment/c".to_string(), "did:plc:b".to_string());
    assert_eq!(b.record_type, "comment");
    assert_eq!(b.subject, "at://did:plc:a/xyz.mercato.listing/r1");
    assert_eq!(b.uri, "at://did:plc:b/xyz.mercato.comment/c");
    assert_eq!(b.author_did, "did:plc:b");
    assert_eq!(b.created_at, "t");
}
