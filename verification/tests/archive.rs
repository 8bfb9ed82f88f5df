use std::io::Write;
use vuln_collector::archive::{extract_entries, ArchiveEntry, ArchiveReader, EntryDecodeError};
use vuln_collector::error::{SchemaCause, SchemaError, SyncError};
use vuln_collector::pipeline::{extract_osv_json_data, normalize, normalize_entry, Batch, ItemError};

fn advisory(id: &str) -> String {
    format!(
        r#"{{"schema_version": "1.4.0", "id": "{}", "modified": "2021-01-01T00:00:00Z",
            "published": "2021-01-01T00:00:00Z",
            "affected": [{{"package": {{"ecosystem": "PyPI", "name": "p"}}, "versions": ["1"]}}]}}"#,
        id
    )
}

fn archive_of(entries: &[(&str, &[u8])], method: zip::CompressionMethod) -> Vec<u8> {
    let mut writer = zip::ZipWriter::new(std::io::Cursor::new(Vec::new()));
    for (name, content) in entries {
        let options = zip::write::FileOptions::default().compression_method(method);
        writer.start_file(*name, options).unwrap();
        writer.write_all(content).unwrap();
    }
    writer.finish().unwrap().into_inner()
}

fn entry(name: &str, text: &str) -> ArchiveEntry {
    ArchiveEntry { name: name.to_string(), text: text.to_string() }
}

#[test]
fn archive_round_trip_keeps_count_ids_and_order() {
    let ids = ["GHSA-c", "GHSA-a", "GHSA-b", "PYSEC-9", "PYSEC-1"];
    let texts: Vec<String> = ids.iter().map(|id| advisory(id)).collect();
    let names: Vec<String> = ids.iter().map(|id| format!("{}.json", id)).collect();
    let entries: Vec<(&str, &[u8])> =
        names.iter().zip(texts.iter()).map(|(n, t)| (n.as_str(), t.as_bytes())).collect();
    for method in [zip::CompressionMethod::Stored, zip::CompressionMethod::Deflated] {
        let batch = extract_osv_json_data(archive_of(&entries, method)).unwrap();
        assert_eq!(batch.errors, vec![]);
        assert_eq!(batch.records.len(), ids.len());
        let found: Vec<&str> = batch.records.iter().map(|r| r.id.as_str()).collect();
        assert_eq!(found, ids);
    }
}

#[test]
fn one_bad_entry_does_not_lose_the_rest() {
    let mut texts: Vec<String> = (0..10).map(|i| advisory(&format!("ID-{}", i))).collect();
    texts[3] = "{ this is not json".to_string();
    let names: Vec<String> = (0..10).map(|i| format!("{}.json", i)).collect();
    let entries: Vec<(&str, &[u8])> =
        names.iter().zip(texts.iter()).map(|(n, t)| (n.as_str(), t.as_bytes())).collect();
    let batch = extract_osv_json_data(archive_of(&entries, zip::CompressionMethod::Deflated)).unwrap();
    assert_eq!(batch.records.len(), 9);
    let found: Vec<&str> = batch.records.iter().map(|r| r.id.as_str()).collect();
    assert_eq!(found, ["ID-0", "ID-1", "ID-2", "ID-4", "ID-5", "ID-6", "ID-7", "ID-8", "ID-9"]);
    assert_eq!(
        batch.errors,
        vec![ItemError::Schema {
            source: "3.json".to_string(),
            error: SchemaError { id: String::new(), cause: SchemaCause::Malformed },
        }]
    );
}

#[test]
fn bytes_that_are_no_archive_fail_as_a_whole() {
    assert_eq!(extract_osv_json_data(b"definitely not a zip archive".to_vec()), Err(SyncError::ArchiveCorrupt));
    assert_eq!(extract_osv_json_data(Vec::new()), Err(SyncError::ArchiveCorrupt));
    assert_eq!(extract_entries(vec![0x50, 0x4b, 0x03, 0x04]), Err(SyncError::ArchiveCorrupt));
    assert!(ArchiveReader::open(vec![1, 2, 3]).is_err());
}

#[test]
fn a_truncated_archive_fails_as_a_whole() {
    let text = advisory("A");
    let bytes = archive_of(&[("a.json", text.as_bytes())], zip::CompressionMethod::Stored);
    let cut = bytes[..bytes.len() - 10].to_vec();
    assert_eq!(extract_osv_json_data(cut), Err(SyncError::ArchiveCorrupt));
}

#[test]
fn an_empty_archive_gives_an_empty_batch() {
    let bytes = archive_of(&[], zip::CompressionMethod::Stored);
    assert_eq!(extract_entries(bytes.clone()), Ok(vec![]));
    assert_eq!(extract_osv_json_data(bytes), Ok(Batch { records: vec![], errors: vec![] }));
}

#[test]
fn entries_come_with_their_names_in_directory_order() {
    let bytes = archive_of(
        &[("z/first.json", b"one"), ("a/second.json", b"two"), ("third", b"")],
        zip::CompressionMethod::Deflated,
    );
    assert_eq!(
        extract_entries(bytes),
        Ok(vec![
            Ok(entry("z/first.json", "one")),
            Ok(entry("a/second.json", "two")),
            Ok(entry("third", "")),
        ])
    );
}

#[test]
fn an_entry_that_is_not_text_is_skipped_with_its_place_and_name() {
    let good = advisory("GOOD");
    let bytes = archive_of(
        &[("bad.bin", &[0xff, 0xfe, 0x00, 0x80]), ("good.json", good.as_bytes())],
        zip::CompressionMethod::Stored,
    );
    let entries = extract_entries(bytes.clone()).unwrap();
    assert_eq!(entries.len(), 2);
    assert_eq!(entries[0], Err(EntryDecodeError { index: 0, name: Some("bad.bin".to_string()) }));
    assert_eq!(entries[1], Ok(entry("good.json", &good)));
    let batch = extract_osv_json_data(bytes).unwrap();
    assert_eq!(batch.records.len(), 1);
    assert_eq!(batch.records[0].id, "GOOD");
    assert_eq!(
        batch.errors,
        vec![ItemError::EntryDecode(EntryDecodeError { index: 0, name: Some("bad.bin".to_string()) })]
    );
}

#[test]
fn an_entry_with_a_broken_checksum_is_skipped() {
    let first = advisory("FIRST");
    let second = advisory("SECOND");
    let mut bytes = archive_of(
        &[("first.json", first.as_bytes()), ("second.json", second.as_bytes())],
        zip::CompressionMethod::Stored,
    );
    // Flip one byte inside the stored content of the first entry.
    let at = bytes.windows(5).position(|w| w == b"FIRST").unwrap();
    bytes[at] = b'G';
    let entries = extract_entries(bytes).unwrap();
    assert_eq!(entries[0], Err(EntryDecodeError { index: 0, name: Some("first.json".to_string()) }));
    assert_eq!(entries[1], Ok(entry("second.json", &second)));
}

#[test]
fn the_reader_hands_out_entries_one_by_one() {
    let bytes = archive_of(&[("a", b"1"), ("b", b"2")], zip::CompressionMethod::Stored);
    let mut reader = ArchiveReader::open(bytes.clone()).unwrap();
    assert_eq!(reader.len(), 2);
    assert_eq!(reader.remaining(), 2);
    assert_eq!(reader.next_entry(), Some(Ok(entry("a", "1"))));
    assert_eq!(reader.remaining(), 1);
    assert_eq!(reader.next_entry(), Some(Ok(entry("b", "2"))));
    assert_eq!(reader.remaining(), 0);
    assert_eq!(reader.next_entry(), None);
    assert_eq!(reader.next_entry(), None);
    assert_eq!(reader.len(), 2);
    // Reading again starts over from the same bytes.
    let mut again = ArchiveReader::open(bytes).unwrap();
    assert_eq!(again.next_entry(), Some(Ok(entry("a", "1"))));
}

#[test]
fn every_entry_of_a_batch_is_a_record_or_an_error() {
    let entries = vec![
        Ok(entry("a.json", &advisory("A"))),
        Err(EntryDecodeError { index: 1, name: None }),
        Ok(entry("c.json", "[]")),
        Ok(entry("d.json", &advisory("D"))),
    ];
    let batch = normalize(&entries);
    assert_eq!(batch.records.len() + batch.errors.len(), entries.len());
    let found: Vec<&str> = batch.records.iter().map(|r| r.id.as_str()).collect();
    assert_eq!(found, ["A", "D"]);
    assert_eq!(
        batch.errors,
        vec![
            ItemError::EntryDecode(EntryDecodeError { index: 1, name: None }),
            ItemError::Schema {
                source: "c.json".to_string(),
                error: SchemaError { id: String::new(), cause: SchemaCause::NotAnObject },
            },
        ]
    );
    assert_eq!(normalize_entry(&entries[0]).map(|r| r.id), Ok("A".to_string()));
    assert_eq!(normalize(&vec![]), Batch { records: vec![], errors: vec![] });
}
