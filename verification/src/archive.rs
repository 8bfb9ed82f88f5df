//! The archive extractor: the entries of a zip archive, each as a name and a
//! text, in the order of the archive's directory.
//!
//! The `zip` crate reads the archive. What it finds is a function of the
//! archive's bytes, and the contracts here name it so: how many entries the
//! directory lists, and the name and the text of each.

use vstd::prelude::*;
use crate::error::SyncError;
use crate::text::opt_view_of;

verus! {

/// `zip::ZipArchive`, carried as it is: nothing inside it is visible here.
#[verifier::external_type_specification]
#[verifier::external_body]
#[verifier::reject_recursive_types(R)]
pub struct ExZipArchive<R>(zip::ZipArchive<R>);

/// `std::io::Cursor`, the reader that an archive in memory is opened over.
#[verifier::external_type_specification]
#[verifier::external_body]
#[verifier::reject_recursive_types(T)]
pub struct ExCursor<T>(std::io::Cursor<T>);

/// `zip::result::ZipError`, the error with which `zip` refuses an archive.
#[verifier::external_type_specification]
#[verifier::external_body]
pub struct ExZipError(zip::result::ZipError);

/// The bytes that an opened archive reads from.
pub uninterp spec fn archive_source(archive: zip::ZipArchive<std::io::Cursor<Vec<u8>>>) -> Seq<u8>;

/// The number of entries that `zip` finds in the directory of an archive, or
/// `None` where it does not take the bytes for an archive.
pub uninterp spec fn zip_entry_count(bytes: Seq<u8>) -> Option<nat>;

/// The name that `zip` gives for the entry at `index`, or `None` where it
/// cannot open that entry.
pub uninterp spec fn zip_entry_name(bytes: Seq<u8>, index: nat) -> Option<Seq<char>>;

/// The content of the entry at `index` as `zip` reads it into a string, or
/// `None` where the entry cannot be opened, does not read to its end, or is
/// not UTF-8.
pub uninterp spec fn zip_entry_text(bytes: Seq<u8>, index: nat) -> Option<Seq<char>>;

/// One entry of an archive: its name and its content as text.
#[derive(Debug, Clone, PartialEq, Eq)]
pub struct ArchiveEntry {
    pub name: String,
    pub text: String,
}

pub ghost struct ArchiveEntryView {
    pub name: Seq<char>,
    pub text: Seq<char>,
}

impl View for ArchiveEntry {
    type V = ArchiveEntryView;

    open spec fn view(&self) -> ArchiveEntryView {
        ArchiveEntryView { name: self.name@, text: self.text@ }
    }
}

/// An entry that could not be read as text: its place in the archive, and
/// its name where the entry could at least be opened.
#[derive(Debug, Clone, PartialEq, Eq)]
pub struct EntryDecodeError {
    pub index: usize,
    pub name: Option<String>,
}

pub ghost struct EntryDecodeErrorView {
    pub index: nat,
    pub name: Option<Seq<char>>,
}

impl View for EntryDecodeError {
    type V = EntryDecodeErrorView;

    open spec fn view(&self) -> EntryDecodeErrorView {
        EntryDecodeErrorView { index: self.index as nat, name: opt_view_of(self.name) }
    }
}

/// What the extractor hands out for one entry.
pub type Extracted = Result<ArchiveEntry, EntryDecodeError>;

/// An extracted entry, taken by its view.
pub open spec fn extracted_view(entry: Extracted) -> Result<ArchiveEntryView, EntryDecodeErrorView> {
    match entry {
        Ok(found) => Ok(found@),
        Err(error) => Err(error@),
    }
}

/// The extracted entries of a list, each taken by its view.
pub open spec fn extracted_views(entries: Seq<Extracted>) -> Seq<
    Result<ArchiveEntryView, EntryDecodeErrorView>,
> {
    Seq::new(entries.len(), |i: int| extracted_view(entries[i]))
}

/// The entry at `index` of the archive in `bytes`: its name and text where
/// both can be read, else the error that names the place.
pub open spec fn entry_of(bytes: Seq<u8>, index: nat) -> Result<
    ArchiveEntryView,
    EntryDecodeErrorView,
> {
    match (zip_entry_name(bytes, index), zip_entry_text(bytes, index)) {
        (Some(name), Some(text)) => Ok(ArchiveEntryView { name, text }),
        (name, _) => Err(EntryDecodeErrorView { index, name }),
    }
}

/// The entries of the archive in `bytes`, in directory order, or `None`
/// where the bytes are no archive.
pub open spec fn entries_of(bytes: Seq<u8>) -> Option<
    Seq<Result<ArchiveEntryView, EntryDecodeErrorView>>,
> {
    match zip_entry_count(bytes) {
        None => None,
        Some(count) => Some(Seq::new(count, |i: int| entry_of(bytes, i as nat))),
    }
}

/// Opens an archive over its bytes with `zip::ZipArchive::new` on a
/// `std::io::Cursor`. The contract claims that the outcome depends on the
/// bytes alone, and that an opened archive reads from the bytes given.
#[verifier::external_body]
fn open_archive(bytes: Vec<u8>) -> (opened: Result<
    zip::ZipArchive<std::io::Cursor<Vec<u8>>>,
    zip::result::ZipError,
>)
    ensures
        match opened {
            Ok(archive) => archive_source(archive) == bytes@ && zip_entry_count(bytes@) is Some,
            Err(_) => zip_entry_count(bytes@) is None,
        },
{
    zip::ZipArchive::new(std::io::Cursor::new(bytes))
}

/// Asks `zip::ZipArchive::len` for the number of entries in the directory.
#[verifier::external_body]
fn archive_len(archive: &zip::ZipArchive<std::io::Cursor<Vec<u8>>>) -> (count: usize)
    ensures
        zip_entry_count(archive_source(*archive)) == Some(count as nat),
{
    archive.len()
}

/// Opens the entry at `index` with `zip::ZipArchive::by_index_decrypt` and an
/// empty password, takes its `name()`, and reads it to its end with
/// `read_to_string`. The name is `None` where the entry cannot be opened (an
/// index past the directory, a broken header, a method or an encryption that
/// `zip` does not handle); the text is `None` there too, and where reading
/// fails or the content is not UTF-8. The archive's bytes stay as they are.
///
/// `by_index` is not used: on an entry that carries an AES field without the
/// encryption flag it panics, where `by_index_decrypt` reports the entry.
/// With stored and deflated entries as the only methods built in, `zip` has a
/// reader for every entry that it opens, and the call does not unwind.
#[verifier::external_body]
fn read_entry(archive: &mut zip::ZipArchive<std::io::Cursor<Vec<u8>>>, index: usize) -> (entry: (
    Option<String>,
    Option<String>,
))
    ensures
        archive_source(*final(archive)) == archive_source(*old(archive)),
        opt_view_of(entry.0) == zip_entry_name(archive_source(*old(archive)), index as nat),
        opt_view_of(entry.1) == zip_entry_text(archive_source(*old(archive)), index as nat),
    no_unwind
{
    match archive.by_index_decrypt(index, &[]) {
        Ok(Ok(mut file)) => {
            let name = file.name().to_string();
            let mut text = String::new();
            match std::io::Read::read_to_string(&mut file, &mut text) {
                Ok(_) => (Some(name), Some(text)),
                Err(_) => (Some(name), None),
            }
        },
        _ => (None, None),
    }
}

/// An archive being read, entry after entry.
pub struct ArchiveReader {
    archive: zip::ZipArchive<std::io::Cursor<Vec<u8>>>,
    count: usize,
    position: usize,
}

impl ArchiveReader {
    #[verifier::type_invariant]
    spec fn inv(self) -> bool {
        &&& zip_entry_count(archive_source(self.archive)) == Some(self.count as nat)
        &&& self.position <= self.count
    }

    /// The bytes of the archive.
    pub closed spec fn source(self) -> Seq<u8> {
        archive_source(self.archive)
    }

    /// The number of entries in the archive's directory.
    pub closed spec fn count(self) -> nat {
        self.count as nat
    }

    /// The number of entries handed out so far.
    pub closed spec fn position(self) -> nat {
        self.position as nat
    }

    /// Opens an archive. Bytes that are no zip archive are refused; an
    /// archive that opens stands before its first entry.
    pub fn open(bytes: Vec<u8>) -> (opened: Result<ArchiveReader, SyncError>)
        ensures
            match opened {
                Ok(reader) => {
                    &&& reader.source() == bytes@
                    &&& reader.position() == 0
                    &&& zip_entry_count(bytes@) == Some(reader.count())
                },
                Err(error) => error == SyncError::ArchiveCorrupt && zip_entry_count(bytes@) is None,
            },
    {
        match open_archive(bytes) {
            Ok(archive) => {
                let count = archive_len(&archive);
                Ok(ArchiveReader { archive, count, position: 0 })
            },
            Err(_) => Err(SyncError::ArchiveCorrupt),
        }
    }

    /// The number of entries in the archive's directory.
    pub fn len(&self) -> (count: usize)
        ensures
            count == self.count(),
            zip_entry_count(self.source()) == Some(self.count()),
            self.position() <= self.count(),
    {
        proof {
            use_type_invariant(self);
        }
        self.count
    }

    /// The number of entries not handed out yet.
    pub fn remaining(&self) -> (left: usize)
        ensures
            left == self.count() - self.position(),
    {
        proof {
            use_type_invariant(self);
        }
        self.count - self.position
    }

    /// Hands out the next entry, or `None` after the last. An entry that
    /// cannot be read as text is handed out as an error and the reader moves
    /// on: the entries after it are still read.
    pub fn next_entry(&mut self) -> (next: Option<Extracted>)
        ensures
            final(self).source() == old(self).source(),
            final(self).count() == old(self).count(),
            match next {
                Some(entry) => {
                    &&& old(self).position() < old(self).count()
                    &&& final(self).position() == old(self).position() + 1
                    &&& extracted_view(entry) == entry_of(old(self).source(), old(self).position())
                },
                None => {
                    &&& old(self).position() == old(self).count()
                    &&& final(self).position() == old(self).position()
                },
            },
    {
        proof {
            use_type_invariant(&*self);
        }
        if self.position >= self.count {
            return None;
        }
        let index = self.position;
        let (name, text) = read_entry(&mut self.archive, index);
        self.position = index + 1;
        match (name, text) {
            (Some(name), Some(text)) => Some(Ok(ArchiveEntry { name, text })),
            (name, _) => Some(Err(EntryDecodeError { index, name })),
        }
    }
}

/// Extracts every entry of an archive, in directory order.
///
/// Bytes that are no archive fail the extraction as a whole. An entry that
/// cannot be read as text stands in the result as an error, in its place.
pub fn extract_entries(bytes: Vec<u8>) -> (outcome: Result<Vec<Extracted>, SyncError>)
    ensures
        match outcome {
            Ok(entries) => entries_of(bytes@) == Some(extracted_views(entries@)),
            Err(error) => error == SyncError::ArchiveCorrupt && entries_of(bytes@) is None,
        },
{
    let ghost source = bytes@;
    let mut reader = match ArchiveReader::open(bytes) {
        Ok(reader) => reader,
        Err(error) => { return Err(error); },
    };
    let count = reader.len();
    let mut entries: Vec<Extracted> = Vec::new();
    while reader.remaining() > 0
        invariant
            reader.source() == source,
            reader.count() == count,
            zip_entry_count(source) == Some(count as nat),
            entries.len() == reader.position(),
            reader.position() <= count,
            forall|i: int|
                0 <= i < entries.len() ==> extracted_view(#[trigger] entries[i]) == entry_of(
                    source,
                    i as nat,
                ),
        decreases count - reader.position(),
    {
        if let Some(entry) = reader.next_entry() {
            entries.push(entry);
        }
    }
    assert(entries_of(source).unwrap() =~= extracted_views(entries@));
    Ok(entries)
}

} // verus!
