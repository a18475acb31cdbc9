use mercato::access::{admin_authorized, base_url};
use mercato::text::{copy_opt, same_text};
use mercato::uris::{listing_uri, record_key};

#[test]
fn same_text_compares_characters() {
    assert!(same_text("maker", "maker"));
    assert!(!same_text("maker", "taker"));
    assert!(!same_text("make", "maker"));
    assert!(same_text("", ""));
    assert!(same_text("🏷️", "🏷️"));
}

#[test]
fn copy_opt_keeps_value() {
    assert_eq!(copy_opt(&Some("x".to_string())), Some("x".to_string()));
    assert_eq!(copy_opt(&None), None);
}

#[test]
fn record_key_is_last_segment() {
    assert_eq!(record_key("at://did:plc:abc/xyz.mercato.listing/3kabc"), "3kabc");
    assert_eq!(record_key("no-slash-here"), "no-slash-here");
    assert_eq!(record_key("ends/with/"), "");
    assert_eq!(record_key(""), "");
    assert_eq!(record_key("/ünïcödé"), "ünïcödé");
}

#[test]
fn listing_uri_format() {
    assert_eq!(
        listing_uri("did:plc:abc", "3kabc"),
        "at://did:plc:abc/xyz.mercato.listing/3kabc"
    );
}

#[test]
fn record_key_reads_back_listing_uri() {
    let uri = listing_uri("did:web:example.com", "self");
    assert_eq!(record_key(&uri), "self");
}

#[test]
fn admin_check_refuses_only_when_both_differ() {
    assert!(admin_authorized("admin", "hunter2"));
    assert!(admin_authorized("admin", "wrong"));
    assert!(admin_authorized("someone", "hunter2"));
    assert!(!admin_authorized("someone", "wrong"));
    assert!(!admin_authorized("", ""));
}

#[test]
fn base_url_prefixes_https() {
    assert_eq!(base_url("mercato.example"), "https://mercato.example");
    assert_eq!(base_url("localhost:8787"), "https://localhost:8787");
}
