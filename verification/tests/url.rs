use vuln_collector::url::{archive_url, listing_url, object_url, path_escape, BASE_API_URL, BUCKET_NAME};

#[test]
fn unreserved_characters_stand_for_themselves() {
    assert_eq!(path_escape("aZ09-._~"), "aZ09-._~");
    assert_eq!(path_escape(""), "");
}

#[test]
fn other_bytes_are_escaped_with_lower_case_hex() {
    assert_eq!(path_escape("a/b"), "a%2fb");
    assert_eq!(path_escape("a b"), "a%20b");
    assert_eq!(path_escape("100%"), "100%25");
    assert_eq!(path_escape("?&=+"), "%3f%26%3d%2b");
    assert_eq!(path_escape("\u{0}\u{7f}"), "%00%7f");
}

#[test]
fn characters_beyond_ascii_are_escaped_byte_by_byte() {
    assert_eq!(path_escape("\u{e9}"), "%c3%a9");
    assert_eq!(path_escape("\u{20ac}"), "%e2%82%ac");
    assert_eq!(path_escape("\u{1f600}"), "%f0%9f%98%80");
}

#[test]
fn archive_url_names_all_zip_under_the_ecosystem() {
    assert_eq!(
        archive_url("PyPI"),
        "https://storage.googleapis.com/storage/v1/b/osv-vulnerabilities/o/PyPI%2fall.zip?alt=media"
    );
    assert_eq!(
        archive_url("crates.io"),
        "https://storage.googleapis.com/storage/v1/b/osv-vulnerabilities/o/crates.io%2fall.zip?alt=media"
    );
}

#[test]
fn object_url_escapes_the_name() {
    assert_eq!(
        object_url("PyPI/GHSA-1234.json"),
        "https://storage.googleapis.com/storage/v1/b/osv-vulnerabilities/o/PyPI%2fGHSA-1234.json?alt=media"
    );
}

#[test]
fn listing_url_carries_the_fields_and_the_token() {
    assert_eq!(
        listing_url("Go", None),
        "https://storage.googleapis.com/storage/v1/b/osv-vulnerabilities/o/Go/?fields=name,timeCreated,updated,id"
    );
    let token = "abc/==".to_string();
    assert_eq!(
        listing_url("Go", Some(&token)),
        "https://storage.googleapis.com/storage/v1/b/osv-vulnerabilities/o/Go/?fields=name,timeCreated,updated,id&pageToken=abc%2f%3d%3d"
    );
}

#[test]
fn addresses_start_at_the_bucket() {
    let root = format!("{}{}/o/", BASE_API_URL, BUCKET_NAME);
    assert!(archive_url("npm").starts_with(&root));
    assert!(object_url("npm/x.json").starts_with(&root));
    assert!(listing_url("npm", None).starts_with(&root));
}
