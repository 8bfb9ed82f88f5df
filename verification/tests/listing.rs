use vuln_collector::error::{Field, SchemaCause, SyncError};
use vuln_collector::json::{Json, Member};
use vuln_collector::listing::{
    decode_bucket_object, decode_listing_page, parse_listing_page, read_listing_document,
    BucketObject, BucketObjectList, ListingSession,
};

fn text(s: &str) -> Json {
    Json::Text(s.to_string())
}

fn object(members: Vec<(&str, Json)>) -> Json {
    Json::Object(
        members.into_iter().map(|(name, value)| Member { name: name.to_string(), value }).collect(),
    )
}

fn listed(name: &str, time_created: i64, updated: i64) -> BucketObject {
    BucketObject { name: name.to_string(), time_created, updated }
}

const PAGE_ONE: &str = r#"{
  "kind": "storage#objects",
  "nextPageToken": "tok-2",
  "items": [
    {"name": "PyPI/A.json", "timeCreated": "Wed, 18 Feb 2015 23:16:09 GMT", "updated": "Wed, 18 Feb 2015 23:16:10 GMT", "id": "1"},
    {"name": "PyPI/B.json", "timeCreated": "Thu, 01 Jan 1970 00:00:00 +0000", "updated": "Thu, 01 Jan 1970 01:00:00 +0100"}
  ]
}"#;

const PAGE_TWO: &str = r#"{"items": [{"name": "PyPI/C.json", "timeCreated": "Fri, 01 Jan 2021 00:00:00 GMT", "updated": "Fri, 01 Jan 2021 00:00:01 GMT"}]}"#;

#[test]
fn a_listing_page_parses_with_its_token() {
    assert_eq!(
        parse_listing_page(PAGE_ONE),
        Ok(BucketObjectList {
            nextpagetoken: Some("tok-2".to_string()),
            items: vec![listed("PyPI/A.json", 1424301369, 1424301370), listed("PyPI/B.json", 0, 0)],
        })
    );
    assert_eq!(
        parse_listing_page(PAGE_TWO),
        Ok(BucketObjectList {
            nextpagetoken: None,
            items: vec![listed("PyPI/C.json", 1609459200, 1609459201)],
        })
    );
    assert_eq!(
        parse_listing_page(r#"{"items": [], "nextPageToken": null}"#),
        Ok(BucketObjectList { nextpagetoken: None, items: vec![] })
    );
}

#[test]
fn a_body_that_is_no_listing_is_malformed() {
    assert_eq!(parse_listing_page("<html>"), Err(SyncError::MalformedResponse));
    assert_eq!(parse_listing_page("[]"), Err(SyncError::MalformedResponse));
    assert_eq!(parse_listing_page("{}"), Err(SyncError::MalformedResponse));
    assert_eq!(parse_listing_page(r#"{"items": {}}"#), Err(SyncError::MalformedResponse));
    assert_eq!(parse_listing_page(r#"{"items": [], "nextPageToken": 7}"#), Err(SyncError::MalformedResponse));
    assert_eq!(
        parse_listing_page(r#"{"items": [{"name": "x", "timeCreated": "2021-01-01T00:00:00Z", "updated": "Fri, 01 Jan 2021 00:00:01 GMT"}]}"#),
        Err(SyncError::MalformedResponse)
    );
    assert_eq!(
        parse_listing_page(r#"{"items": [{"name": "x", "updated": "Fri, 01 Jan 2021 00:00:01 GMT"}]}"#),
        Err(SyncError::MalformedResponse)
    );
    assert_eq!(read_listing_document(None), Err(SyncError::MalformedResponse));
}

#[test]
fn object_metadata_decodes_from_a_document_built_by_hand() {
    let doc = object(vec![
        ("name", text("Go/X.json")),
        ("timeCreated", text("Thu, 01 Jan 1970 00:00:10 GMT")),
        ("updated", text("Thu, 01 Jan 1970 00:00:25 GMT")),
    ]);
    assert_eq!(decode_bucket_object(&doc), Ok(listed("Go/X.json", 10, 25)));
    assert_eq!(
        decode_bucket_object(&object(vec![("name", text("x"))])),
        Err(SchemaCause::Missing(Field::TimeCreated))
    );
    assert_eq!(
        decode_bucket_object(&object(vec![
            ("name", text("x")),
            ("timeCreated", text("Thu, 01 Jan 1970 00:00:10 GMT")),
            ("updated", text("soon")),
        ])),
        Err(SchemaCause::BadTimestamp(Field::Updated))
    );
    assert_eq!(decode_bucket_object(&text("x")), Err(SchemaCause::NotAnObject));
    assert_eq!(
        decode_listing_page(&object(vec![("items", Json::Array(vec![doc]))])),
        Ok(BucketObjectList { nextpagetoken: None, items: vec![listed("Go/X.json", 10, 25)] })
    );
    assert_eq!(decode_listing_page(&object(vec![])), Err(SchemaCause::Missing(Field::Items)));
}

#[test]
fn pages_are_asked_for_in_order_until_no_token_is_left() {
    let session = ListingSession::start("PyPI".to_string());
    assert!(!session.complete);
    assert_eq!(
        session.next_request(),
        Some("https://storage.googleapis.com/storage/v1/b/osv-vulnerabilities/o/PyPI/?fields=name,timeCreated,updated,id".to_string())
    );
    let session = session.accept_page(PAGE_ONE).unwrap();
    assert!(!session.complete);
    assert_eq!(session.objects.len(), 2);
    assert_eq!(
        session.next_request(),
        Some("https://storage.googleapis.com/storage/v1/b/osv-vulnerabilities/o/PyPI/?fields=name,timeCreated,updated,id&pageToken=tok-2".to_string())
    );
    let session = session.accept_page(PAGE_TWO).unwrap();
    assert!(session.complete);
    assert_eq!(session.next_request(), None);
    assert_eq!(
        session.objects,
        vec![
            listed("PyPI/A.json", 1424301369, 1424301370),
            listed("PyPI/B.json", 0, 0),
            listed("PyPI/C.json", 1609459200, 1609459201),
        ]
    );
    // A complete listing takes in nothing more.
    let again = session.clone().accept_page(PAGE_ONE).unwrap();
    assert_eq!(again, session);
}

#[test]
fn a_malformed_page_fails_the_whole_listing() {
    let session = ListingSession::start("PyPI".to_string()).accept_page(PAGE_ONE).unwrap();
    assert_eq!(session.accept_page("{\"items\": 3}"), Err(SyncError::MalformedResponse));
}

#[test]
fn sync_errors_say_what_went_wrong() {
    assert_eq!(SyncError::Transport.describe(), "transport failure");
    assert_eq!(SyncError::MalformedResponse.describe(), "listing response is malformed");
    assert_eq!(SyncError::ArchiveCorrupt.describe(), "archive is corrupt");
}
