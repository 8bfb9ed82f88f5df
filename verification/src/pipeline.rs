//! From raw entries to records: every entry is parsed on its own, and an
//! entry that fails is set aside with its error while the rest goes on.

use vstd::prelude::*;
use crate::archive::{
    entries_of, extract_entries, extracted_view, extracted_views, ArchiveEntryView,
    EntryDecodeError, EntryDecodeErrorView, Extracted,
};
use crate::error::{SchemaError, SchemaErrorView, SyncError};
use crate::record::{parse_record, record_of_text};
use crate::schema::ovf_schema::{OvfFormat, OvfFormatView};
use crate::text::views_of;

verus! {

/// A failure that concerns one entry only.
#[derive(Debug, Clone, PartialEq, Eq)]
pub enum ItemError {
    /// An archive entry that could not be read as text.
    EntryDecode(EntryDecodeError),
    /// A text that is not an advisory record, with the name of the entry or
    /// object it came from.
    Schema { source: String, error: SchemaError },
}

pub ghost enum ItemErrorView {
    EntryDecode(EntryDecodeErrorView),
    Schema { source: Seq<char>, error: SchemaErrorView },
}

impl View for ItemError {
    type V = ItemErrorView;

    open spec fn view(&self) -> ItemErrorView {
        match self {
            ItemError::EntryDecode(error) => ItemErrorView::EntryDecode(error@),
            ItemError::Schema { source, error } => ItemErrorView::Schema {
                source: source@,
                error: error@,
            },
        }
    }
}

/// The records of a batch of entries, and the errors of the entries that
/// gave none; both in the order of the entries.
#[derive(Debug, Clone, PartialEq, Eq)]
pub struct Batch {
    pub records: Vec<OvfFormat>,
    pub errors: Vec<ItemError>,
}

pub ghost struct BatchView {
    pub records: Seq<OvfFormatView>,
    pub errors: Seq<ItemErrorView>,
}

impl View for Batch {
    type V = BatchView;

    open spec fn view(&self) -> BatchView {
        BatchView { records: views_of(self.records@), errors: views_of(self.errors@) }
    }
}

/// What one entry is worth: its record, or the error it is set aside with.
pub open spec fn item_of(entry: Result<ArchiveEntryView, EntryDecodeErrorView>) -> Result<
    OvfFormatView,
    ItemErrorView,
> {
    match entry {
        Err(error) => Err(ItemErrorView::EntryDecode(error)),
        Ok(found) => match record_of_text(found.text) {
            Ok(record) => Ok(record),
            Err(error) => Err(ItemErrorView::Schema { source: found.name, error }),
        },
    }
}

/// The batch of the first `k` entries.
pub open spec fn batch_within(
    entries: Seq<Result<ArchiveEntryView, EntryDecodeErrorView>>,
    k: int,
) -> BatchView
    decreases k,
{
    if k <= 0 {
        BatchView { records: Seq::empty(), errors: Seq::empty() }
    } else {
        let front = batch_within(entries, k - 1);
        match item_of(entries[k - 1]) {
            Ok(record) => BatchView { records: front.records.push(record), errors: front.errors },
            Err(error) => BatchView { records: front.records, errors: front.errors.push(error) },
        }
    }
}

/// The batch of a sequence of entries.
pub open spec fn batch_of(entries: Seq<Result<ArchiveEntryView, EntryDecodeErrorView>>) -> BatchView {
    batch_within(entries, entries.len() as int)
}

/// Every entry is accounted for once: as a record or as an error.
pub proof fn lemma_batch_accounts_for_all(
    entries: Seq<Result<ArchiveEntryView, EntryDecodeErrorView>>,
    k: int,
)
    requires
        0 <= k <= entries.len(),
    ensures
        batch_within(entries, k).records.len() + batch_within(entries, k).errors.len() == k,
    decreases k,
{
    if k > 0 {
        lemma_batch_accounts_for_all(entries, k - 1);
    }
}

/// Where every one of the first `k` entries gives a record, the batch holds
/// exactly those records, in the order of the entries, and no error.
pub proof fn lemma_batch_of_valid_entries(
    entries: Seq<Result<ArchiveEntryView, EntryDecodeErrorView>>,
    k: int,
)
    requires
        0 <= k <= entries.len(),
        forall|i: int| 0 <= i < k ==> item_of(#[trigger] entries[i]) is Ok,
    ensures
        batch_within(entries, k).errors.len() == 0,
        batch_within(entries, k).records.len() == k,
        forall|i: int|
            0 <= i < k ==> item_of(#[trigger] entries[i]) == Ok::<OvfFormatView, ItemErrorView>(
                batch_within(entries, k).records[i],
            ),
    decreases k,
{
    if k > 0 {
        lemma_batch_of_valid_entries(entries, k - 1);
    }
}

/// One entry more among invalid and valid ones: an entry that gives no
/// record adds one error and leaves the records as they are, and an entry
/// that gives a record adds that record and leaves the errors.
pub proof fn lemma_batch_isolates_failure(
    entries: Seq<Result<ArchiveEntryView, EntryDecodeErrorView>>,
    k: int,
)
    requires
        0 <= k < entries.len(),
    ensures
        item_of(entries[k]) is Err ==> batch_within(entries, k + 1).records == batch_within(
            entries,
            k,
        ).records && batch_within(entries, k + 1).errors == batch_within(entries, k).errors.push(
            item_of(entries[k])->Err_0,
        ),
        item_of(entries[k]) is Ok ==> batch_within(entries, k + 1).errors == batch_within(
            entries,
            k,
        ).errors && batch_within(entries, k + 1).records == batch_within(entries, k).records.push(
            item_of(entries[k])->Ok_0,
        ),
{
}

fn copy_decode_error(error: &EntryDecodeError) -> (copy: EntryDecodeError)
    ensures
        copy@ == error@,
{
    EntryDecodeError {
        index: error.index,
        name: match &error.name {
            Some(name) => Some(name.clone()),
            None => None,
        },
    }
}

/// Parses one entry.
pub fn normalize_entry(entry: &Extracted) -> (outcome: Result<OvfFormat, ItemError>)
    ensures
        match outcome {
            Ok(record) => item_of(extracted_view(*entry)) == Ok::<OvfFormatView, ItemErrorView>(
                record@,
            ) && record@.wf(),
            Err(error) => item_of(extracted_view(*entry)) == Err::<OvfFormatView, ItemErrorView>(
                error@,
            ),
        },
{
    match entry {
        Err(error) => Err(ItemError::EntryDecode(copy_decode_error(error))),
        Ok(found) => match parse_record(found.text.as_str()) {
            Ok(record) => Ok(record),
            Err(error) => Err(ItemError::Schema { source: found.name.clone(), error }),
        },
    }
}

/// Parses every entry of a batch. No entry stops the others: the records
/// of the entries that parse and the errors of those that do not are both
/// returned, each in the order of the entries.
pub fn normalize(entries: &Vec<Extracted>) -> (batch: Batch)
    ensures
        batch@ == batch_of(extracted_views(entries@)),
        forall|i: int| 0 <= i < batch.records.len() ==> (#[trigger] batch.records[i])@.wf(),
{
    let ghost all = extracted_views(entries@);
    let mut records: Vec<OvfFormat> = Vec::new();
    let mut errors: Vec<ItemError> = Vec::new();
    let mut i: usize = 0;
    assert(views_of(records@) =~= Seq::<OvfFormatView>::empty());
    assert(views_of(errors@) =~= Seq::<ItemErrorView>::empty());
    while i < entries.len()
        invariant
            i <= entries.len(),
            all == extracted_views(entries@),
            views_of(records@) == batch_within(all, i as int).records,
            views_of(errors@) == batch_within(all, i as int).errors,
            forall|k: int| 0 <= k < records.len() ==> (#[trigger] records[k])@.wf(),
        decreases entries.len() - i,
    {
        assert(all[i as int] == extracted_view(entries[i as int]));
        match normalize_entry(&entries[i]) {
            Ok(record) => {
                let ghost before = views_of(records@);
                records.push(record);
                assert(views_of(records@) =~= before.push(record@));
            },
            Err(error) => {
                let ghost before = views_of(errors@);
                errors.push(error);
                assert(views_of(errors@) =~= before.push(error@));
            },
        }
        i += 1;
    }
    Batch { records, errors }
}

/// What the bytes of an archive are worth as a batch, or the failure of the
/// archive as a whole.
pub open spec fn archive_batch_of(bytes: Seq<u8>) -> Result<BatchView, SyncError> {
    match entries_of(bytes) {
        None => Err(SyncError::ArchiveCorrupt),
        Some(entries) => Ok(batch_of(entries)),
    }
}

/// The outcome of reading an archive, taken by its view.
pub open spec fn batch_outcome_view(outcome: Result<Batch, SyncError>) -> Result<
    BatchView,
    SyncError,
> {
    match outcome {
        Ok(batch) => Ok(batch@),
        Err(error) => Err(error),
    }
}

/// Unpacks an archive of advisories and parses every entry of it.
///
/// Bytes that are no zip archive fail as a whole. An entry that is not text,
/// or whose text is not an advisory record, is set aside with its error.
pub fn extract_osv_json_data(json_byte_data: Vec<u8>) -> (outcome: Result<Batch, SyncError>)
    ensures
        batch_outcome_view(outcome) == archive_batch_of(json_byte_data@),
        outcome matches Ok(batch) ==> forall|i: int|
            0 <= i < batch.records.len() ==> (#[trigger] batch.records[i])@.wf(),
{
    match extract_entries(json_byte_data) {
        Err(error) => Err(error),
        Ok(entries) => Ok(normalize(&entries)),
    }
}

/// Archive round trip: where an archive has `n` entries, each of which reads
/// as text and parses as a record, its batch holds exactly `n` records, the
/// record at each place being that of the entry at the same place, and no
/// error.
pub proof fn lemma_archive_of_valid_entries(bytes: Seq<u8>)
    requires
        entries_of(bytes) is Some,
        forall|i: int|
            0 <= i < entries_of(bytes).unwrap().len() ==> item_of(
                #[trigger] entries_of(bytes).unwrap()[i],
            ) is Ok,
    ensures
        archive_batch_of(bytes) is Ok,
        archive_batch_of(bytes).unwrap().errors.len() == 0,
        archive_batch_of(bytes).unwrap().records.len() == entries_of(bytes).unwrap().len(),
        forall|i: int|
            0 <= i < entries_of(bytes).unwrap().len() ==> item_of(
                #[trigger] entries_of(bytes).unwrap()[i],
            ) == Ok::<OvfFormatView, ItemErrorView>(archive_batch_of(bytes).unwrap().records[i]),
{
    let entries = entries_of(bytes).unwrap();
    lemma_batch_of_valid_entries(entries, entries.len() as int);
}

} // verus!
