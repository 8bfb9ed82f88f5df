use vuln_collector::schema::ovf_schema::{
    Database, Ecosystem, Event, RangeType, ReferenceType, SeverityType,
};
use vuln_collector::timestamp::Timestamp;

fn s(text: &str) -> String {
    text.to_string()
}

#[test]
fn ecosystems_are_read_from_their_upstream_spelling() {
    assert_eq!(Ecosystem::from_wire(&s("Go")), Ecosystem::Go);
    assert_eq!(Ecosystem::from_wire(&s("npm")), Ecosystem::Npm);
    assert_eq!(Ecosystem::from_wire(&s("OSS-Fuzz")), Ecosystem::OssFuzz);
    assert_eq!(Ecosystem::from_wire(&s("PyPI")), Ecosystem::PyPI);
    assert_eq!(Ecosystem::from_wire(&s("RubyGems")), Ecosystem::RubyGems);
    assert_eq!(Ecosystem::from_wire(&s("crates.io")), Ecosystem::CratesIO);
    assert_eq!(Ecosystem::from_wire(&s("Packagist")), Ecosystem::Packagist);
    assert_eq!(Ecosystem::from_wire(&s("Maven")), Ecosystem::Maven);
    assert_eq!(Ecosystem::from_wire(&s("NuGet")), Ecosystem::NuGet);
    assert_eq!(Ecosystem::from_wire(&s("Linux")), Ecosystem::Linux);
    assert_eq!(Ecosystem::from_wire(&s("Debian")), Ecosystem::Debian);
    assert_eq!(Ecosystem::from_wire(&s("Hex")), Ecosystem::Hex);
    assert_eq!(Ecosystem::from_wire(&s("Android")), Ecosystem::Android);
}

#[test]
fn spellings_are_case_sensitive() {
    assert_eq!(Ecosystem::from_wire(&s("NPM")), Ecosystem::Other(s("NPM")));
    assert_eq!(Ecosystem::from_wire(&s("go")), Ecosystem::Other(s("go")));
    assert_eq!(Ecosystem::from_wire(&s("")), Ecosystem::Other(s("")));
    assert_eq!(Database::from_wire(&s("ghsa")), Database::Other(s("ghsa")));
    assert_eq!(RangeType::from_wire(&s("git")), RangeType::Other(s("git")));
    assert_eq!(SeverityType::from_wire(&s("CVSS_v3")), SeverityType::Other(s("CVSS_v3")));
    assert_eq!(ReferenceType::from_wire(&s("Web")), ReferenceType::Other(s("Web")));
}

#[test]
fn databases_are_read_from_their_upstream_spelling() {
    assert_eq!(Database::from_wire(&s("GO")), Database::Go);
    assert_eq!(Database::from_wire(&s("OSV")), Database::Osv);
    assert_eq!(Database::from_wire(&s("PYSEC")), Database::Pysec);
    assert_eq!(Database::from_wire(&s("RUSTSEC")), Database::Rustsec);
    assert_eq!(Database::from_wire(&s("GSD")), Database::Gsd);
    assert_eq!(Database::from_wire(&s("GHSA")), Database::Ghsa);
    assert_eq!(Database::from_wire(&s("LBSEC")), Database::Lbsec);
}

#[test]
fn range_severity_and_reference_types_are_read_from_their_upstream_spelling() {
    assert_eq!(RangeType::from_wire(&s("UNSPECIFIED")), RangeType::Unspecified);
    assert_eq!(RangeType::from_wire(&s("GIT")), RangeType::Git);
    assert_eq!(RangeType::from_wire(&s("SEMVER")), RangeType::Semver);
    assert_eq!(RangeType::from_wire(&s("ECOSYSTEM")), RangeType::Ecosystem);
    assert_eq!(SeverityType::from_wire(&s("UNSPECIFIED")), SeverityType::Unspecified);
    assert_eq!(SeverityType::from_wire(&s("CVSS_V3")), SeverityType::CVSSv3);
    assert_eq!(ReferenceType::from_wire(&s("NONE")), ReferenceType::Undefined);
    assert_eq!(ReferenceType::from_wire(&s("WEB")), ReferenceType::Web);
    assert_eq!(ReferenceType::from_wire(&s("ADVISORY")), ReferenceType::Advisory);
    assert_eq!(ReferenceType::from_wire(&s("REPORT")), ReferenceType::Report);
    assert_eq!(ReferenceType::from_wire(&s("FIX")), ReferenceType::Fix);
    assert_eq!(ReferenceType::from_wire(&s("PACKAGE")), ReferenceType::Package);
    assert_eq!(ReferenceType::from_wire(&s("ARTICLE")), ReferenceType::Article);
}

#[test]
fn instants_are_ordered_by_seconds_then_nanoseconds() {
    let at = |seconds: i64, nanos: u32| Timestamp { seconds, nanos };
    assert!(at(5, 0).is_at_or_after(&at(5, 0)));
    assert!(at(5, 1).is_at_or_after(&at(5, 0)));
    assert!(!at(5, 0).is_at_or_after(&at(5, 1)));
    assert!(at(6, 0).is_at_or_after(&at(5, 999_999_999)));
    assert!(!at(-1, 999_999_999).is_at_or_after(&at(0, 0)));
}

#[test]
fn a_spelling_that_is_read_is_written_back_letter_for_letter() {
    for word in ["Go", "npm", "OSS-Fuzz", "PyPI", "RubyGems", "crates.io", "Packagist", "Maven",
        "NuGet", "Linux", "Debian", "Hex", "Android", "Debian:11", "", "NPM"]
    {
        assert_eq!(Ecosystem::from_wire(&s(word)).wire_name(), word);
    }
    for word in ["GO", "OSV", "PYSEC", "RUSTSEC", "GSD", "GHSA", "LBSEC", "other"] {
        assert_eq!(Database::from_wire(&s(word)).wire_name(), word);
    }
    for word in ["UNSPECIFIED", "GIT", "SEMVER", "ECOSYSTEM", "Git"] {
        assert_eq!(RangeType::from_wire(&s(word)).wire_name(), word);
    }
    for word in ["UNSPECIFIED", "CVSS_V3", "CVSS_V4"] {
        assert_eq!(SeverityType::from_wire(&s(word)).wire_name(), word);
    }
    for word in ["NONE", "WEB", "ADVISORY", "REPORT", "FIX", "PACKAGE", "ARTICLE", "EVIDENCE"] {
        assert_eq!(ReferenceType::from_wire(&s(word)).wire_name(), word);
    }
}

#[test]
fn values_are_written_in_their_upstream_spelling() {
    assert_eq!(Ecosystem::Npm.wire_name(), "npm");
    assert_eq!(Ecosystem::CratesIO.wire_name(), "crates.io");
    assert_eq!(Ecosystem::OssFuzz.wire_name(), "OSS-Fuzz");
    assert_eq!(Database::Rustsec.wire_name(), "RUSTSEC");
    assert_eq!(RangeType::Semver.wire_name(), "SEMVER");
    assert_eq!(SeverityType::CVSSv3.wire_name(), "CVSS_V3");
    assert_eq!(ReferenceType::Undefined.wire_name(), "NONE");
    assert_eq!(Ecosystem::Other(s("Alpine")).wire_name(), "Alpine");
}

#[test]
fn an_event_has_a_kind_and_a_version() {
    assert_eq!(Event::Introduced(s("0")).kind(), "introduced");
    assert_eq!(Event::Fixed(s("1")).kind(), "fixed");
    assert_eq!(Event::Limit(s("2")).kind(), "limit");
    assert_eq!(Event::LastAffected(s("3")).kind(), "last_affected");
    assert_eq!(Event::LastAffected(s("3")).version(), "3");
    assert_eq!(Event::Introduced(s("0")).version(), "0");
}
