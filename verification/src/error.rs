//! What can go wrong, per advisory and per run.

use vstd::prelude::*;
use vstd::string::StringExecFns;

verus! {

/// A field of the advisory schema or of an object listing, named where a
/// document fails on it.
#[derive(Debug, Clone, Copy, PartialEq, Eq, Structural)]
pub enum Field {
    SchemaVersion,
    Id,
    Modified,
    Published,
    Withdrawn,
    Aliases,
    Related,
    Summary,
    Details,
    Severity,
    Affected,
    References,
    Credits,
    DatabaseSpecific,
    EcosystemSpecific,
    Type,
    Score,
    Package,
    Ecosystem,
    Name,
    Purl,
    Ranges,
    Versions,
    Repo,
    Events,
    Url,
    Contact,
    Functions,
    Keywords,
    Categories,
    CweIds,
    GithubReviewed,
    Items,
    TimeCreated,
    Updated,
    NextPageToken,
}

impl Field {
    /// The member name under which the field stands in a document.
    pub open spec fn key(self) -> Seq<char> {
        match self {
            Field::SchemaVersion => "schema_version"@,
            Field::Id => "id"@,
            Field::Modified => "modified"@,
            Field::Published => "published"@,
            Field::Withdrawn => "withdrawn"@,
            Field::Aliases => "aliases"@,
            Field::Related => "related"@,
            Field::Summary => "summary"@,
            Field::Details => "details"@,
            Field::Severity => "severity"@,
            Field::Affected => "affected"@,
            Field::References => "references"@,
            Field::Credits => "credits"@,
            Field::DatabaseSpecific => "database_specific"@,
            Field::EcosystemSpecific => "ecosystem_specific"@,
            Field::Type => "type"@,
            Field::Score => "score"@,
            Field::Package => "package"@,
            Field::Ecosystem => "ecosystem"@,
            Field::Name => "name"@,
            Field::Purl => "purl"@,
            Field::Ranges => "ranges"@,
            Field::Versions => "versions"@,
            Field::Repo => "repo"@,
            Field::Events => "events"@,
            Field::Url => "url"@,
            Field::Contact => "contact"@,
            Field::Functions => "functions"@,
            Field::Keywords => "keywords"@,
            Field::Categories => "categories"@,
            Field::CweIds => "cwe_ids"@,
            Field::GithubReviewed => "github_reviewed"@,
            Field::Items => "items"@,
            Field::TimeCreated => "timeCreated"@,
            Field::Updated => "updated"@,
            Field::NextPageToken => "nextPageToken"@,
        }
    }

    /// The member name under which the field stands in a document.
    pub fn wire_name(self) -> (name: &'static str)
        ensures
            name@ == self.key(),
    {
        match self {
            Field::SchemaVersion => "schema_version",
            Field::Id => "id",
            Field::Modified => "modified",
            Field::Published => "published",
            Field::Withdrawn => "withdrawn",
            Field::Aliases => "aliases",
            Field::Related => "related",
            Field::Summary => "summary",
            Field::Details => "details",
            Field::Severity => "severity",
            Field::Affected => "affected",
            Field::References => "references",
            Field::Credits => "credits",
            Field::DatabaseSpecific => "database_specific",
            Field::EcosystemSpecific => "ecosystem_specific",
            Field::Type => "type",
            Field::Score => "score",
            Field::Package => "package",
            Field::Ecosystem => "ecosystem",
            Field::Name => "name",
            Field::Purl => "purl",
            Field::Ranges => "ranges",
            Field::Versions => "versions",
            Field::Repo => "repo",
            Field::Events => "events",
            Field::Url => "url",
            Field::Contact => "contact",
            Field::Functions => "functions",
            Field::Keywords => "keywords",
            Field::Categories => "categories",
            Field::CweIds => "cwe_ids",
            Field::GithubReviewed => "github_reviewed",
            Field::Items => "items",
            Field::TimeCreated => "timeCreated",
            Field::Updated => "updated",
            Field::NextPageToken => "nextPageToken",
        }
    }
}

/// Why a document does not have the shape asked of it.
#[derive(Debug, Clone, Copy, PartialEq, Eq, Structural)]
pub enum SchemaCause {
    /// The text is not JSON.
    Malformed,
    /// The document, or a part that has fields, is not a JSON object.
    NotAnObject,
    /// A required field is absent or `null`.
    Missing(Field),
    /// A field is present with a value of another kind than its own.
    WrongType(Field),
    /// A timestamp field holds a text that is no timestamp.
    BadTimestamp(Field),
    /// An event is not a single known kind with a version.
    UnknownEvent,
    /// The list of affected packages is empty.
    NoAffected,
    /// An affected entry names neither ranges nor versions.
    VacuousAffected,
    /// A range closes an interval that no event opened.
    EventOrder,
}

impl SchemaCause {
    /// The cause in words.
    pub open spec fn description(self) -> Seq<char> {
        match self {
            SchemaCause::Malformed => "document is not valid JSON"@,
            SchemaCause::NotAnObject => "expected a JSON object"@,
            SchemaCause::Missing(field) => "missing required field: "@ + field.key(),
            SchemaCause::WrongType(field) => "unexpected kind of value in field: "@ + field.key(),
            SchemaCause::BadTimestamp(field) => "not a timestamp in field: "@ + field.key(),
            SchemaCause::UnknownEvent => "event is not one known kind with a version"@,
            SchemaCause::NoAffected => "no affected package"@,
            SchemaCause::VacuousAffected => "affected entry has neither ranges nor versions"@,
            SchemaCause::EventOrder => "range closes an interval that was never introduced"@,
        }
    }

    /// The cause in words.
    pub fn describe(&self) -> (words: String)
        ensures
            words@ == self.description(),
    {
        match self {
            SchemaCause::Malformed => String::from_str("document is not valid JSON"),
            SchemaCause::NotAnObject => String::from_str("expected a JSON object"),
            SchemaCause::Missing(field) => String::from_str("missing required field: ").concat(
                field.wire_name(),
            ),
            SchemaCause::WrongType(field) => String::from_str(
                "unexpected kind of value in field: ",
            ).concat(field.wire_name()),
            SchemaCause::BadTimestamp(field) => String::from_str(
                "not a timestamp in field: ",
            ).concat(field.wire_name()),
            SchemaCause::UnknownEvent => String::from_str(
                "event is not one known kind with a version",
            ),
            SchemaCause::NoAffected => String::from_str("no affected package"),
            SchemaCause::VacuousAffected => String::from_str(
                "affected entry has neither ranges nor versions",
            ),
            SchemaCause::EventOrder => String::from_str(
                "range closes an interval that was never introduced",
            ),
        }
    }
}

/// A document that is not an advisory record: its `id` where the document
/// has one (empty otherwise), and why it was refused.
#[derive(Debug, Clone, PartialEq, Eq)]
pub struct SchemaError {
    pub id: String,
    pub cause: SchemaCause,
}

pub ghost struct SchemaErrorView {
    pub id: Seq<char>,
    pub cause: SchemaCause,
}

impl View for SchemaError {
    type V = SchemaErrorView;

    open spec fn view(&self) -> SchemaErrorView {
        SchemaErrorView { id: self.id@, cause: self.cause }
    }
}

impl SchemaError {
    /// The error in words: the cause, and the document's `id` where it has one.
    pub fn message(&self) -> (words: String)
        ensures
            words@ == self.cause.description() + " (id: "@ + self.id@ + ")"@,
    {
        let words = self.cause.describe().concat(" (id: ").concat(self.id.as_str()).concat(")");
        words
    }
}

/// A failure that ends a run: nothing of the run is kept and the watermark
/// stays where it was.
#[derive(Debug, Clone, Copy, PartialEq, Eq, Structural)]
pub enum SyncError {
    /// A request did not reach the store or came back without a body.
    Transport,
    /// A listing page is not a listing.
    MalformedResponse,
    /// The bootstrap archive is not a zip archive.
    ArchiveCorrupt,
}

impl SyncError {
    /// The failure in words.
    pub open spec fn description(self) -> Seq<char> {
        match self {
            SyncError::Transport => "transport failure"@,
            SyncError::MalformedResponse => "listing response is malformed"@,
            SyncError::ArchiveCorrupt => "archive is corrupt"@,
        }
    }

    /// The failure in words.
    pub fn describe(&self) -> (words: String)
        ensures
            words@ == self.description(),
    {
        match self {
            SyncError::Transport => String::from_str("transport failure"),
            SyncError::MalformedResponse => String::from_str("listing response is malformed"),
            SyncError::ArchiveCorrupt => String::from_str("archive is corrupt"),
        }
    }
}

} // verus!
