use vuln_collector::error::{Field, SchemaCause, SchemaError};
use vuln_collector::json::{Json, Member};
use vuln_collector::record::{
    decode_affected, decode_credit, decode_event, decode_package, decode_range, decode_record,
    decode_reference, decode_severity, extract_id, parse_record, read_document,
};
use vuln_collector::schema::ovf_schema::{
    Affected, Credits, Database, DatabaseSpecific, Ecosystem, EcosystemSpecific, Event, OvfFormat,
    Package, RangeType, Ranges, ReferenceType, References, Severity, SeverityType,
};
use vuln_collector::timestamp::Timestamp;

const MINIMAL: &str = r#"{
  "schema_version": "1.4.0",
  "id": "GHSA-0001",
  "modified": "2021-01-01T00:00:00Z",
  "published": "2020-12-31T00:00:00Z",
  "affected": [
    {"package": {"ecosystem": "PyPI", "name": "demo"}, "versions": ["1.0"]}
  ]
}"#;

fn text(s: &str) -> Json {
    Json::Text(s.to_string())
}

fn object(members: Vec<(&str, Json)>) -> Json {
    Json::Object(
        members.into_iter().map(|(name, value)| Member { name: name.to_string(), value }).collect(),
    )
}

fn failure(id: &str, cause: SchemaCause) -> SchemaError {
    SchemaError { id: id.to_string(), cause }
}

fn with_field(name: &str, value: &str) -> String {
    let base = MINIMAL.trim_end().trim_end_matches('}');
    format!("{}, \"{}\": {} }}", base, name, value)
}

fn without_field(name: &str) -> String {
    let mut value: serde_json::Value = serde_json::from_str(MINIMAL).unwrap();
    value.as_object_mut().unwrap().remove(name);
    serde_json::to_string(&value).unwrap()
}

fn replacing_field(name: &str, value: &str) -> String {
    let mut doc: serde_json::Value = serde_json::from_str(MINIMAL).unwrap();
    let new: serde_json::Value = serde_json::from_str(value).unwrap();
    doc.as_object_mut().unwrap().insert(name.to_string(), new);
    serde_json::to_string(&doc).unwrap()
}

#[test]
fn minimal_record_parses() {
    let record = parse_record(MINIMAL).unwrap();
    let expected = OvfFormat {
        schema_version: "1.4.0".to_string(),
        id: "GHSA-0001".to_string(),
        modified: Timestamp { seconds: 1609459200, nanos: 0 },
        published: "2020-12-31T00:00:00Z".to_string(),
        withdrawn: None,
        aliases: None,
        related: None,
        summary: None,
        details: None,
        severity: None,
        affected: vec![Affected {
            package: Package { ecosystem: Ecosystem::PyPI, name: "demo".to_string(), purl: None },
            ranges: None,
            versions: Some(vec!["1.0".to_string()]),
            ecosystem_specific: None,
            database_specific: None,
        }],
        references: None,
        credits: None,
        database_specific: None,
    };
    assert_eq!(record, expected);
}

#[test]
fn full_record_parses_field_by_field() {
    let doc = r#"{
      "schema_version": "1.4.0",
      "id": "PYSEC-2021-1",
      "modified": "2021-06-01T12:30:45.5Z",
      "published": "2021-05-01T00:00:00Z",
      "withdrawn": "2022-01-01T00:00:00+01:00",
      "aliases": ["CVE-2021-0001", "GHSA-aaaa"],
      "related": ["CVE-2021-0002"],
      "summary": "short",
      "details": "long",
      "severity": [{"type": "CVSS_V3", "score": "CVSS:3.1/AV:N"}, {"type": "CVSS_V4", "score": "x"}],
      "affected": [
        {
          "package": {"ecosystem": "npm", "name": "left-pad", "purl": "pkg:npm/left-pad"},
          "ranges": [
            {
              "type": "SEMVER",
              "repo": "https://example.org/repo",
              "events": [{"introduced": "0"}, {"fixed": "1.2.3"}, {"introduced": "2.0.0"}, {"last_affected": "2.1.0"}],
              "database_specific": "GHSA"
            },
            {"events": [{"introduced": "abc"}, {"limit": "def"}]}
          ],
          "versions": ["1.0.0", "1.1.0"],
          "ecosystem_specific": {"functions": ["f"], "keywords": ["k1", "k2"], "categories": [], "severity": "HIGH"},
          "database_specific": {"cwe_ids": ["CWE-79"], "github_reviewed": true, "categories": ["c"], "severity": "LOW"}
        }
      ],
      "references": [{"type": "ADVISORY", "url": "https://example.org/a"}, {"type": "EVIDENCE", "url": "u"}],
      "credits": [{"name": "Ada", "contact": ["mailto:ada@example.org"]}],
      "database_specific": {"github_reviewed": false},
      "unknown_member": {"anything": [1, 2, 3]}
    }"#;
    let record = parse_record(doc).unwrap();
    assert_eq!(record.id, "PYSEC-2021-1");
    assert_eq!(record.modified, Timestamp { seconds: 1622550645, nanos: 500_000_000 });
    assert_eq!(record.published, "2021-05-01T00:00:00Z");
    assert_eq!(record.withdrawn, Some(Timestamp { seconds: 1640991600, nanos: 0 }));
    assert_eq!(record.aliases, Some(vec!["CVE-2021-0001".to_string(), "GHSA-aaaa".to_string()]));
    assert_eq!(record.related, Some(vec!["CVE-2021-0002".to_string()]));
    assert_eq!(record.summary, Some("short".to_string()));
    assert_eq!(record.details, Some("long".to_string()));
    assert_eq!(
        record.severity,
        Some(vec![
            Severity { severity_type: SeverityType::CVSSv3, score: "CVSS:3.1/AV:N".to_string() },
            Severity {
                severity_type: SeverityType::Other("CVSS_V4".to_string()),
                score: "x".to_string()
            },
        ])
    );
    assert_eq!(record.affected.len(), 1);
    let affected = &record.affected[0];
    assert_eq!(
        affected.package,
        Package {
            ecosystem: Ecosystem::Npm,
            name: "left-pad".to_string(),
            purl: Some("pkg:npm/left-pad".to_string())
        }
    );
    assert_eq!(
        affected.ranges,
        Some(vec![
            Ranges {
                range_type: Some(RangeType::Semver),
                repo: Some("https://example.org/repo".to_string()),
                events: vec![
                    Event::Introduced("0".to_string()),
                    Event::Fixed("1.2.3".to_string()),
                    Event::Introduced("2.0.0".to_string()),
                    Event::LastAffected("2.1.0".to_string()),
                ],
                database_specific: Some(Database::Ghsa),
            },
            Ranges {
                range_type: None,
                repo: None,
                events: vec![Event::Introduced("abc".to_string()), Event::Limit("def".to_string())],
                database_specific: None,
            },
        ])
    );
    assert_eq!(affected.versions, Some(vec!["1.0.0".to_string(), "1.1.0".to_string()]));
    assert_eq!(
        affected.ecosystem_specific,
        Some(EcosystemSpecific {
            functions: Some(vec!["f".to_string()]),
            keywords: Some(vec!["k1".to_string(), "k2".to_string()]),
            categories: Some(vec![]),
            severity: Some("HIGH".to_string()),
        })
    );
    assert_eq!(
        affected.database_specific,
        Some(DatabaseSpecific {
            cwe_ids: Some(vec!["CWE-79".to_string()]),
            github_reviewed: Some(true),
            categories: Some(vec!["c".to_string()]),
            severity: Some("LOW".to_string()),
        })
    );
    assert_eq!(
        record.references,
        Some(vec![
            References {
                reference_type: ReferenceType::Advisory,
                url: "https://example.org/a".to_string()
            },
            References {
                reference_type: ReferenceType::Other("EVIDENCE".to_string()),
                url: "u".to_string()
            },
        ])
    );
    assert_eq!(
        record.credits,
        Some(vec![Credits {
            name: "Ada".to_string(),
            contact: vec!["mailto:ada@example.org".to_string()]
        }])
    );
    assert_eq!(
        record.database_specific,
        Some(DatabaseSpecific {
            cwe_ids: None,
            github_reviewed: Some(false),
            categories: None,
            severity: None
        })
    );
}

#[test]
fn text_that_is_not_json_is_malformed_without_an_id() {
    assert_eq!(parse_record("{ not json"), Err(failure("", SchemaCause::Malformed)));
    assert_eq!(parse_record(""), Err(failure("", SchemaCause::Malformed)));
    assert_eq!(parse_record("{} trailing"), Err(failure("", SchemaCause::Malformed)));
}

#[test]
fn a_document_that_is_no_object_is_refused() {
    assert_eq!(parse_record("[1, 2]"), Err(failure("", SchemaCause::NotAnObject)));
    assert_eq!(parse_record("\"id\""), Err(failure("", SchemaCause::NotAnObject)));
    assert_eq!(parse_record("null"), Err(failure("", SchemaCause::NotAnObject)));
}

#[test]
fn each_required_field_is_asked_for() {
    assert_eq!(
        parse_record(&without_field("schema_version")),
        Err(failure("GHSA-0001", SchemaCause::Missing(Field::SchemaVersion)))
    );
    assert_eq!(
        parse_record(&without_field("id")),
        Err(failure("", SchemaCause::Missing(Field::Id)))
    );
    assert_eq!(
        parse_record(&without_field("modified")),
        Err(failure("GHSA-0001", SchemaCause::Missing(Field::Modified)))
    );
    assert_eq!(
        parse_record(&without_field("published")),
        Err(failure("GHSA-0001", SchemaCause::Missing(Field::Published)))
    );
    assert_eq!(
        parse_record(&without_field("affected")),
        Err(failure("GHSA-0001", SchemaCause::Missing(Field::Affected)))
    );
}

#[test]
fn a_required_field_that_is_null_is_missing() {
    assert_eq!(
        parse_record(&replacing_field("published", "null")),
        Err(failure("GHSA-0001", SchemaCause::Missing(Field::Published)))
    );
}

#[test]
fn the_first_failing_field_names_the_cause() {
    let mut doc: serde_json::Value = serde_json::from_str(MINIMAL).unwrap();
    doc.as_object_mut().unwrap().remove("published");
    doc.as_object_mut().unwrap().remove("schema_version");
    let text = serde_json::to_string(&doc).unwrap();
    assert_eq!(
        parse_record(&text),
        Err(failure("GHSA-0001", SchemaCause::Missing(Field::SchemaVersion)))
    );
}

#[test]
fn an_empty_affected_list_is_refused() {
    assert_eq!(
        parse_record(&replacing_field("affected", "[]")),
        Err(failure("GHSA-0001", SchemaCause::NoAffected))
    );
}

#[test]
fn a_field_of_another_kind_is_refused() {
    assert_eq!(
        parse_record(&replacing_field("id", "17")),
        Err(failure("", SchemaCause::WrongType(Field::Id)))
    );
    assert_eq!(
        parse_record(&with_field("aliases", "\"CVE-1\"")),
        Err(failure("GHSA-0001", SchemaCause::WrongType(Field::Aliases)))
    );
    assert_eq!(
        parse_record(&with_field("aliases", "[\"CVE-1\", 2]")),
        Err(failure("GHSA-0001", SchemaCause::WrongType(Field::Aliases)))
    );
    assert_eq!(
        parse_record(&with_field("summary", "false")),
        Err(failure("GHSA-0001", SchemaCause::WrongType(Field::Summary)))
    );
    assert_eq!(
        parse_record(&with_field("severity", "[3]")),
        Err(failure("GHSA-0001", SchemaCause::NotAnObject))
    );
    assert_eq!(
        parse_record(&with_field("database_specific", "{\"github_reviewed\": \"yes\"}")),
        Err(failure("GHSA-0001", SchemaCause::WrongType(Field::GithubReviewed)))
    );
    assert_eq!(
        parse_record(&replacing_field("affected", "{}")),
        Err(failure("GHSA-0001", SchemaCause::WrongType(Field::Affected)))
    );
}

#[test]
fn optional_fields_may_be_null() {
    let doc = with_field("summary", "null");
    let doc = doc.trim_end().trim_end_matches('}').to_string()
        + ", \"aliases\": null, \"withdrawn\": null, \"severity\": null, \"database_specific\": null }";
    let record = parse_record(&doc).unwrap();
    assert_eq!(record.summary, None);
    assert_eq!(record.aliases, None);
    assert_eq!(record.withdrawn, None);
    assert_eq!(record.severity, None);
    assert_eq!(record.database_specific, None);
}

#[test]
fn a_text_that_is_no_timestamp_is_refused() {
    assert_eq!(
        parse_record(&replacing_field("modified", "\"yesterday\"")),
        Err(failure("GHSA-0001", SchemaCause::BadTimestamp(Field::Modified)))
    );
    assert_eq!(
        parse_record(&with_field("withdrawn", "\"2021-13-01T00:00:00Z\"")),
        Err(failure("GHSA-0001", SchemaCause::BadTimestamp(Field::Withdrawn)))
    );
}

#[test]
fn timestamps_are_read_as_instants() {
    let at = |stamp: &str| {
        parse_record(&replacing_field("modified", &format!("\"{}\"", stamp))).unwrap().modified
    };
    assert_eq!(at("1970-01-01T00:00:00Z"), Timestamp { seconds: 0, nanos: 0 });
    assert_eq!(at("1969-12-31T23:59:59.25Z"), Timestamp { seconds: -1, nanos: 250_000_000 });
    assert_eq!(at("2021-01-01T02:00:00+02:00"), Timestamp { seconds: 1609459200, nanos: 0 });
    assert_eq!(at("2021-01-01 00:00:00Z"), Timestamp { seconds: 1609459200, nanos: 0 });
}

#[test]
fn enumeration_values_that_are_not_known_are_kept() {
    let doc = replacing_field(
        "affected",
        r#"[{"package": {"ecosystem": "Debian:11", "name": "x"},
             "ranges": [{"type": "CALENDAR", "events": [{"introduced": "0"}], "database_specific": "NEWDB"}]}]"#,
    );
    let record = parse_record(&doc).unwrap();
    let affected = &record.affected[0];
    assert_eq!(affected.package.ecosystem, Ecosystem::Other("Debian:11".to_string()));
    let range = &affected.ranges.as_ref().unwrap()[0];
    assert_eq!(range.range_type, Some(RangeType::Other("CALENDAR".to_string())));
    assert_eq!(range.database_specific, Some(Database::Other("NEWDB".to_string())));
}

#[test]
fn event_ordering_is_validated() {
    let with_events = |events: &str| {
        replacing_field(
            "affected",
            &format!(
                r#"[{{"package": {{"ecosystem": "Go", "name": "m"}}, "ranges": [{{"type": "SEMVER", "events": {}}}]}}]"#,
                events
            ),
        )
    };
    let valid = parse_record(&with_events(r#"[{"introduced": "1.0"}, {"fixed": "2.0"}]"#)).unwrap();
    assert_eq!(
        valid.affected[0].ranges.as_ref().unwrap()[0].events,
        vec![Event::Introduced("1.0".to_string()), Event::Fixed("2.0".to_string())]
    );
    assert_eq!(
        parse_record(&with_events(r#"[{"fixed": "2.0"}]"#)),
        Err(failure("GHSA-0001", SchemaCause::EventOrder))
    );
    assert_eq!(
        parse_record(&with_events(r#"[{"introduced": "1"}, {"fixed": "2"}, {"limit": "3"}]"#)),
        Err(failure("GHSA-0001", SchemaCause::EventOrder))
    );
    assert!(parse_record(&with_events(
        r#"[{"introduced": "1"}, {"fixed": "2"}, {"introduced": "3"}, {"fixed": "4"}]"#
    ))
    .is_ok());
    assert!(parse_record(&with_events(r#"[{"introduced": "1"}, {"introduced": "2"}]"#)).is_ok());
    assert!(parse_record(&with_events("[]")).is_ok());
}

#[test]
fn ranges_report_whether_their_events_are_in_order() {
    let range = |events: Vec<Event>| Ranges {
        range_type: None,
        repo: None,
        events,
        database_specific: None,
    };
    assert!(range(vec![Event::Introduced("1.0".to_string()), Event::Fixed("2.0".to_string())])
        .events_well_ordered());
    assert!(!range(vec![Event::Fixed("2.0".to_string())]).events_well_ordered());
    assert!(!range(vec![Event::Limit("2.0".to_string())]).events_well_ordered());
    assert!(!range(vec![Event::LastAffected("2.0".to_string())]).events_well_ordered());
    assert!(range(vec![]).events_well_ordered());
    assert!(!range(vec![
        Event::Introduced("1".to_string()),
        Event::Fixed("2".to_string()),
        Event::Fixed("3".to_string())
    ])
    .events_well_ordered());
    assert!(Event::Fixed("1".to_string()).is_closing());
    assert!(!Event::Introduced("1".to_string()).is_closing());
}

#[test]
fn an_event_must_be_one_known_kind_with_a_version() {
    assert_eq!(
        decode_event(&object(vec![("introduced", text("1"))])),
        Ok(Event::Introduced("1".to_string()))
    );
    assert_eq!(decode_event(&object(vec![("fixed", text("1"))])), Ok(Event::Fixed("1".to_string())));
    assert_eq!(decode_event(&object(vec![("limit", text("1"))])), Ok(Event::Limit("1".to_string())));
    assert_eq!(
        decode_event(&object(vec![("last_affected", text("1"))])),
        Ok(Event::LastAffected("1".to_string()))
    );
    assert_eq!(decode_event(&object(vec![("lastaffected", text("1"))])), Err(SchemaCause::UnknownEvent));
    assert_eq!(decode_event(&object(vec![])), Err(SchemaCause::UnknownEvent));
    assert_eq!(
        decode_event(&object(vec![("introduced", text("1")), ("fixed", text("2"))])),
        Err(SchemaCause::UnknownEvent)
    );
    assert_eq!(decode_event(&object(vec![("fixed", Json::Bool(true))])), Err(SchemaCause::UnknownEvent));
    assert_eq!(decode_event(&text("fixed")), Err(SchemaCause::NotAnObject));
}

#[test]
fn an_affected_entry_without_ranges_and_versions_is_vacuous() {
    let doc = replacing_field("affected", r#"[{"package": {"ecosystem": "Go", "name": "m"}}]"#);
    assert_eq!(parse_record(&doc), Err(failure("GHSA-0001", SchemaCause::VacuousAffected)));
    let doc = replacing_field(
        "affected",
        r#"[{"package": {"ecosystem": "Go", "name": "m"}, "ranges": null, "versions": null}]"#,
    );
    assert_eq!(parse_record(&doc), Err(failure("GHSA-0001", SchemaCause::VacuousAffected)));
    let doc = replacing_field(
        "affected",
        r#"[{"package": {"ecosystem": "Go", "name": "m"}, "ranges": []}]"#,
    );
    assert!(parse_record(&doc).is_ok());
}

#[test]
fn an_affected_entry_needs_its_package() {
    assert_eq!(
        decode_affected(&object(vec![("versions", Json::Array(vec![text("1")]))])),
        Err(SchemaCause::Missing(Field::Package))
    );
    assert_eq!(
        decode_package(&object(vec![("name", text("n"))])),
        Err(SchemaCause::Missing(Field::Ecosystem))
    );
    assert_eq!(
        decode_package(&object(vec![("ecosystem", text("Hex"))])),
        Err(SchemaCause::Missing(Field::Name))
    );
    assert_eq!(
        decode_package(&object(vec![("ecosystem", text("Hex")), ("name", text("n"))])),
        Ok(Package { ecosystem: Ecosystem::Hex, name: "n".to_string(), purl: None })
    );
}

#[test]
fn parts_decode_from_documents_built_by_hand() {
    assert_eq!(
        decode_severity(&object(vec![("score", text("9.8")), ("type", text("UNSPECIFIED"))])),
        Ok(Severity { severity_type: SeverityType::Unspecified, score: "9.8".to_string() })
    );
    assert_eq!(
        decode_severity(&object(vec![("type", text("CVSS_V3"))])),
        Err(SchemaCause::Missing(Field::Score))
    );
    assert_eq!(
        decode_reference(&object(vec![("type", text("NONE")), ("url", text("u"))])),
        Ok(References { reference_type: ReferenceType::Undefined, url: "u".to_string() })
    );
    assert_eq!(
        decode_reference(&object(vec![("type", text("WEB"))])),
        Err(SchemaCause::Missing(Field::Url))
    );
    assert_eq!(
        decode_credit(&object(vec![("name", text("Ada")), ("contact", Json::Array(vec![]))])),
        Ok(Credits { name: "Ada".to_string(), contact: vec![] })
    );
    assert_eq!(
        decode_credit(&object(vec![("name", text("Ada"))])),
        Err(SchemaCause::Missing(Field::Contact))
    );
    assert_eq!(
        decode_range(&object(vec![("type", text("GIT"))])),
        Err(SchemaCause::Missing(Field::Events))
    );
    assert_eq!(
        decode_range(&object(vec![(
            "events",
            Json::Array(vec![object(vec![("introduced", text("0"))])])
        )])),
        Ok(Ranges {
            range_type: None,
            repo: None,
            events: vec![Event::Introduced("0".to_string())],
            database_specific: None
        })
    );
}

#[test]
fn a_document_built_by_hand_decodes_like_its_text() {
    let doc = object(vec![
        ("schema_version", text("1.4.0")),
        ("id", text("GHSA-0001")),
        ("modified", text("2021-01-01T00:00:00Z")),
        ("published", text("2020-12-31T00:00:00Z")),
        (
            "affected",
            Json::Array(vec![object(vec![
                ("package", object(vec![("ecosystem", text("PyPI")), ("name", text("demo"))])),
                ("versions", Json::Array(vec![text("1.0")])),
            ])]),
        ),
    ]);
    assert_eq!(decode_record(&doc), Ok(parse_record(MINIMAL).unwrap()));
    assert_eq!(read_document(Some(doc)), parse_record(MINIMAL));
    assert_eq!(read_document(None), Err(failure("", SchemaCause::Malformed)));
}

#[test]
fn the_id_of_a_document_is_taken_where_it_has_one() {
    assert_eq!(extract_id(&object(vec![("id", text("X-1"))])), "X-1");
    assert_eq!(extract_id(&object(vec![("id", Json::Number("1".to_string()))])), "");
    assert_eq!(extract_id(&object(vec![("name", text("X-1"))])), "");
    assert_eq!(extract_id(&Json::Array(vec![])), "");
}

#[test]
fn the_first_member_of_a_name_is_the_one_found() {
    let doc = object(vec![("a", text("1")), ("b", Json::Null), ("a", text("2"))]);
    assert_eq!(doc.get("a").and_then(|v| v.as_text()), Some(&"1".to_string()));
    assert!(doc.get("b").is_some());
    assert!(doc.get_field("b").is_none());
    assert!(doc.get("c").is_none());
    assert!(text("a").get("a").is_none());
    assert_eq!(Json::Bool(true).as_flag(), Some(true));
    assert_eq!(text("x").as_flag(), None);
    assert_eq!(Json::Array(vec![Json::Null]).as_items().map(|v| v.len()), Some(1));
    assert!(doc.is_object());
    assert!(!Json::Null.is_object());
}

#[test]
fn errors_say_what_went_wrong() {
    assert_eq!(SchemaCause::Malformed.describe(), "document is not valid JSON");
    assert_eq!(SchemaCause::Missing(Field::Id).describe(), "missing required field: id");
    assert_eq!(
        SchemaCause::WrongType(Field::CweIds).describe(),
        "unexpected kind of value in field: cwe_ids"
    );
    assert_eq!(
        SchemaCause::BadTimestamp(Field::Modified).describe(),
        "not a timestamp in field: modified"
    );
    assert_eq!(
        failure("GHSA-1", SchemaCause::EventOrder).message(),
        "range closes an interval that was never introduced (id: GHSA-1)"
    );
    assert_eq!(Field::SchemaVersion.wire_name(), "schema_version");
    assert_eq!(Field::TimeCreated.wire_name(), "timeCreated");
    assert_eq!(Field::NextPageToken.wire_name(), "nextPageToken");
}
