use mercato::forms::{CommentForm, ListingForm};
use mercato::lexicons::comment::RecordData as CommentRecord;
use mercato::page::{page_next, Lookup, PageAction, PageEvent, PageFailure, PageState};
use mercato::steps::{
    created_listing_statement, home_recent_listings_statement, home_recent_statuses_statement,
    posted_comment_statement, profile_for, RECENT_LIMIT,
};
use mercato::store::{SqlParam, SAVE_COMMENT_SQL, SAVE_LISTING_OPTIMISTIC_SQL};

fn run(events: &[PageEvent]) -> (PageState, Vec<PageAction>) {
    let mut state = PageState::Idle;
    let mut actions = Vec::new();
    for e in events {
        let (s, a) = page_next(state, *e);
        state = s;
        actions.push(a);
    }
    (state, actions)
}

#[test]
fn listing_page_not_found_first() {
    let (s, a) = run(&[PageEvent::Start, PageEvent::ListingLoaded { lookup: Lookup::NotFound }]);
    assert_eq!(s, PageState::Done);
    assert_eq!(a, vec![PageAction::LoadListing, PageAction::Fail(PageFailure::NotFound)]);
    let (_, a) = run(&[PageEvent::Start, PageEvent::ListingLoaded { lookup: Lookup::Failed }]);
    assert_eq!(a[1], PageAction::Fail(PageFailure::Lookup));
}

#[test]
fn listing_page_signed_in_and_out() {
    let head = [PageEvent::Start, PageEvent::ListingLoaded { lookup: Lookup::Found }, PageEvent::CommentsLoaded { ok: true }];
    let mut ev = head.to_vec();
    ev.push(PageEvent::SessionRead { signed_in: false });
    let (_, a) = run(&ev);
    assert_eq!(a, vec![PageAction::LoadListing, PageAction::LoadComments, PageAction::ReadSession, PageAction::RenderWithoutProfile]);
    let mut ev = head.to_vec();
    ev.extend([PageEvent::SessionRead { signed_in: true }, PageEvent::SessionRestored { ok: true }, PageEvent::ProfileLoaded { ok: true }]);
    let (_, a) = run(&ev);
    assert_eq!(a[3..], [PageAction::RestoreSession, PageAction::LoadProfile, PageAction::RenderWithProfile]);
}

#[test]
fn listing_page_errors_without_flush() {
    let base = [PageEvent::Start, PageEvent::ListingLoaded { lookup: Lookup::Found }, PageEvent::CommentsLoaded { ok: true }, PageEvent::SessionRead { signed_in: true }];
    let mut ev = base.to_vec();
    ev.push(PageEvent::SessionRestored { ok: false });
    let (_, a) = run(&ev);
    assert_eq!(a[4], PageAction::Fail(PageFailure::Restore));
    let mut ev = base.to_vec();
    ev.extend([PageEvent::SessionRestored { ok: true }, PageEvent::ProfileLoaded { ok: false }]);
    let (_, a) = run(&ev);
    assert_eq!(a[5], PageAction::Fail(PageFailure::Profile));
    let (_, a) = run(&[PageEvent::Start, PageEvent::ListingLoaded { lookup: Lookup::Found }, PageEvent::CommentsLoaded { ok: false }]);
    assert_eq!(a[2], PageAction::Fail(PageFailure::Comments));
}

#[test]
fn home_limits_are_twenty() {
    assert_eq!(RECENT_LIMIT, 20);
    assert!(matches!(home_recent_statuses_statement().params[..], [SqlParam::Count(20)]));
    assert!(matches!(home_recent_listings_statement().params[..], [SqlParam::Count(20)]));
}

#[test]
fn created_listing_saved_with_published_uri() {
    let form = ListingForm {
        title: "Lamp".to_string(),
        description: None,
        role: "taker".to_string(),
        price: None,
        barter_for: Some("books".to_string()),
        latitude: None,
        longitude: None,
        location_name: None,
    };
    let st = created_listing_statement(form, "at://did:plc:a/xyz.mercato.listing/r".to_string(), "did:plc:a".to_string(), (5, 0), (6, 0));
    assert_eq!(st.sql, SAVE_LISTING_OPTIMISTIC_SQL);
    assert!(matches!(&st.params[0], SqlParam::Text(u) if u == "at://did:plc:a/xyz.mercato.listing/r"));
    assert!(matches!(&st.params[1], SqlParam::Text(d) if d == "did:plc:a"));
    assert!(matches!(&st.params[2], SqlParam::Text(t) if t == "Lamp"));
    assert!(matches!(&st.params[9], SqlParam::MaybeText(None)));
    assert!(matches!(&st.params[11], SqlParam::MaybeText(None)));
}

#[test]
fn posted_comment_saved_as_created_here() {
    let rec = CommentRecord::for_listing(CommentForm { content: "hi".to_string() }, "did:plc:a", "r", "t".to_string());
    let st = posted_comment_statement(rec, "at://did:plc:b/xyz.mercato.comment/c".to_string(), "did:plc:b".to_string(), (9, 0));
    assert_eq!(st.sql, SAVE_COMMENT_SQL);
    assert!(matches!(&st.params[0], SqlParam::Text(u) if u == "at://did:plc:b/xyz.mercato.comment/c"));
    assert!(matches!(&st.params[2], SqlParam::Text(s) if s == "at://did:plc:a/xyz.mercato.listing/r"));
    assert!(matches!(st.params[6], SqlParam::Flag(false)));
    assert!(matches!(st.params[7], SqlParam::Flag(true)));
}

#[test]
fn profile_display_name() {
    let p = profile_for("did:plc:a".to_string(), None, "a.test".to_string());
    assert_eq!(p.did, "did:plc:a");
    assert_eq!(p.display_name, Some("a.test".to_string()));
    let p = profile_for("did:plc:a".to_string(), Some("Ann".to_string()), "a.test".to_string());
    assert_eq!(p.display_name, Some("Ann".to_string()));
}
