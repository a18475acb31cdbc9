use mercato::forms::{CommentForm, ListingForm, StatusForm};
use mercato::lexicons::listing::{geo_from_form, RecordData};
use mercato::lexicons::{Comment, Listing as ListingCollection};
use mercato::listing::Listing;
use mercato::search::{listing_search, AREA_SEARCH_SQL, AREA_TEXT_SEARCH_SQL};
use mercato::store::{
    delete_listing_statement, get_jetstream_cursor_statement, get_listing_statement,
    insert_jetstream_cursor_statement, load_comments_statement, load_latest_listings_statement,
    save_comment_statement, save_listing_from_jetstream_statement, save_listing_optimistic_statement,
    update_jetstream_cursor_statement, SqlParam, GET_LISTING_SQL, LOAD_COMMENTS_SQL, SAVE_COMMENT_SQL,
    SAVE_LISTING_FROM_JETSTREAM_SQL, SAVE_LISTING_OPTIMISTIC_SQL,
};

fn form(lat: Option<&str>, lng: Option<&str>) -> ListingForm {
    ListingForm {
        title: "Bike".to_string(),
        description: Some("red".to_string()),
        role: "maker".to_string(),
        price: Some("10".to_string()),
        barter_for: None,
        latitude: lat.map(|s| s.to_string()),
        longitude: lng.map(|s| s.to_string()),
        location_name: Some("Town".to_string()),
    }
}

#[test]
fn collection_ids() {
    assert_eq!(ListingCollection::nsid(), "xyz.mercato.listing");
    assert_eq!(Comment::nsid(), "xyz.mercato.comment");
}

#[test]
fn form_bodies_hold_fields() {
    let s = StatusForm { status: "👍".to_string() };
    let c = CommentForm { content: "closed".to_string() };
    assert_eq!(s.status, "👍");
    assert_eq!(c.content, "closed");
}

#[test]
fn geo_needs_both_coordinates() {
    let g = geo_from_form(&form(Some("1.5"), Some("2.5"))).unwrap();
    assert_eq!(g.latitude, "1.5");
    assert_eq!(g.longitude, "2.5");
    assert_eq!(g.name, Some("Town".to_string()));
    assert_eq!(g.altitude, None);
    assert!(geo_from_form(&form(Some("1.5"), None)).is_none());
    assert!(geo_from_form(&form(None, Some("2.5"))).is_none());
    assert!(geo_from_form(&form(None, None)).is_none());
}

#[test]
fn record_data_from_form() {
    let d = RecordData::from_form(&form(Some("1"), Some("2")), "2024-01-01T00:00:00Z".to_string());
    assert_eq!(d.title, "Bike");
    assert_eq!(d.role, "maker");
    assert_eq!(d.created_at, "2024-01-01T00:00:00Z");
    assert_eq!(d.description, Some("red".to_string()));
    assert_eq!(d.price, Some("10".to_string()));
    assert_eq!(d.barter_for, None);
    assert!(d.geo.is_some());
}

fn listing() -> Listing {
    Listing::from_form(form(Some("1"), Some("2")), "at://d/xyz.mercato.listing/r".to_string(), "did:plc:d".to_string(), (100, 1), (100, 2))
}

#[test]
fn listing_from_form_maps_fields() {
    let l = listing();
    assert_eq!(l.uri, "at://d/xyz.mercato.listing/r");
    assert_eq!(l.author_did, "did:plc:d");
    assert_eq!(l.title, "Bike");
    assert_eq!(l.latitude, Some("1".to_string()));
    assert_eq!(l.location_name, Some("Town".to_string()));
    assert_eq!(l.altitude, None);
    assert_eq!(l.image_cid, None);
    assert_eq!(l.created_at, (100, 1));
    assert_eq!(l.indexed_at, (100, 2));
}

#[test]
fn search_with_and_without_text() {
    let s = listing_search(Some("bike".to_string()));
    assert_eq!(s.sql, AREA_TEXT_SEARCH_SQL);
    assert_eq!(s.pattern, Some("%bike%".to_string()));
    let s = listing_search(Some(String::new()));
    assert_eq!(s.sql, AREA_SEARCH_SQL);
    assert_eq!(s.pattern, None);
    let s = listing_search(None);
    assert_eq!(s.sql, AREA_SEARCH_SQL);
    assert_eq!(s.pattern, None);
}

fn text(p: &SqlParam) -> Option<String> {
    match p {
        SqlParam::Text(t) => Some(t.clone()),
        _ => None,
    }
}

#[test]
fn optimistic_save_binds_columns() {
    let st = save_listing_optimistic_statement(&listing());
    assert_eq!(st.sql, SAVE_LISTING_OPTIMISTIC_SQL);
    assert_eq!(st.params.len(), 14);
    assert_eq!(text(&st.params[0]), Some("at://d/xyz.mercato.listing/r".to_string()));
    assert_eq!(text(&st.params[1]), Some("did:plc:d".to_string()));
    assert!(matches!(st.params[12], SqlParam::Time((100, 1))));
    assert!(matches!(st.params[13], SqlParam::Time((100, 2))));
}

#[test]
fn jetstream_save_binds_updates() {
    let st = save_listing_from_jetstream_statement(&listing());
    assert_eq!(st.sql, SAVE_LISTING_FROM_JETSTREAM_SQL);
    assert_eq!(st.params.len(), 25);
    assert_eq!(text(&st.params[14]), Some("Bike".to_string()));
    assert_eq!(text(&st.params[16]), Some("maker".to_string()));
    assert!(matches!(&st.params[15], SqlParam::MaybeText(Some(d)) if d == "red"));
    assert!(matches!(st.params[24], SqlParam::Time((100, 2))));
}

#[test]
fn lookup_and_other_statements() {
    let st = get_listing_statement("did:plc:d", "r");
    assert_eq!(st.sql, GET_LISTING_SQL);
    assert_eq!(text(&st.params[0]), Some("at://did:plc:d/xyz.mercato.listing/r".to_string()));
    let st = load_latest_listings_statement(20);
    assert!(matches!(st.params[..], [SqlParam::Count(20)]));
    let st = delete_listing_statement("u");
    assert_eq!(text(&st.params[0]), Some("u".to_string()));
    let st = load_comments_statement("u");
    assert_eq!(st.sql, LOAD_COMMENTS_SQL);
    assert_eq!(get_jetstream_cursor_statement().params.len(), 0);
    assert!(matches!(update_jetstream_cursor_statement(7).params[..], [SqlParam::Count(7)]));
    assert!(matches!(insert_jetstream_cursor_statement(9).params[..], [SqlParam::Count(9)]));
    let st = save_comment_statement("cu".into(), "a".into(), "s".into(), "c".into(), "t".into(), (1, 2), false, true);
    assert_eq!(st.sql, SAVE_COMMENT_SQL);
    assert_eq!(st.params.len(), 8);
    assert!(matches!(st.params[6], SqlParam::Flag(false)));
    assert!(matches!(st.params[7], SqlParam::Flag(true)));
}
