//! The advisory record and its parts, each with the mathematical value that
//! the contracts of this crate speak of.
//!
//! Every enumeration of the upstream schema has a catch-all variant that
//! carries a spelling this crate does not know, so that a record with a newer
//! tag is still read.

use vstd::prelude::*;
use vstd::string::StringExecFns;
use crate::text::{opt_view_of, opt_views_of, text_is, views_of};
use crate::timestamp::Timestamp;

verus! {

/// The package ecosystem of an affected package.
#[derive(Debug, Clone, PartialEq, Eq)]
#[non_exhaustive]
pub enum Ecosystem {
    Go,
    Npm,
    OssFuzz,
    PyPI,
    RubyGems,
    CratesIO,
    Packagist,
    Maven,
    NuGet,
    Linux,
    Debian,
    Hex,
    Android,
    /// An ecosystem under a spelling that is none of the above.
    Other(String),
}

pub ghost enum EcosystemView {
    Go,
    Npm,
    OssFuzz,
    PyPI,
    RubyGems,
    CratesIO,
    Packagist,
    Maven,
    NuGet,
    Linux,
    Debian,
    Hex,
    Android,
    Other(Seq<char>),
}

impl View for Ecosystem {
    type V = EcosystemView;

    open spec fn view(&self) -> EcosystemView {
        match self {
            Ecosystem::Go => EcosystemView::Go,
            Ecosystem::Npm => EcosystemView::Npm,
            Ecosystem::OssFuzz => EcosystemView::OssFuzz,
            Ecosystem::PyPI => EcosystemView::PyPI,
            Ecosystem::RubyGems => EcosystemView::RubyGems,
            Ecosystem::CratesIO => EcosystemView::CratesIO,
            Ecosystem::Packagist => EcosystemView::Packagist,
            Ecosystem::Maven => EcosystemView::Maven,
            Ecosystem::NuGet => EcosystemView::NuGet,
            Ecosystem::Linux => EcosystemView::Linux,
            Ecosystem::Debian => EcosystemView::Debian,
            Ecosystem::Hex => EcosystemView::Hex,
            Ecosystem::Android => EcosystemView::Android,
            Ecosystem::Other(name) => EcosystemView::Other(name@),
        }
    }
}

/// The ecosystem that a spelling of the upstream schema stands for.
pub open spec fn ecosystem_of(text: Seq<char>) -> EcosystemView {
    if text == "Go"@ {
        EcosystemView::Go
    } else if text == "npm"@ {
        EcosystemView::Npm
    } else if text == "OSS-Fuzz"@ {
        EcosystemView::OssFuzz
    } else if text == "PyPI"@ {
        EcosystemView::PyPI
    } else if text == "RubyGems"@ {
        EcosystemView::RubyGems
    } else if text == "crates.io"@ {
        EcosystemView::CratesIO
    } else if text == "Packagist"@ {
        EcosystemView::Packagist
    } else if text == "Maven"@ {
        EcosystemView::Maven
    } else if text == "NuGet"@ {
        EcosystemView::NuGet
    } else if text == "Linux"@ {
        EcosystemView::Linux
    } else if text == "Debian"@ {
        EcosystemView::Debian
    } else if text == "Hex"@ {
        EcosystemView::Hex
    } else if text == "Android"@ {
        EcosystemView::Android
    } else {
        EcosystemView::Other(text)
    }
}

impl EcosystemView {
    /// The upstream spelling of the value.
    pub open spec fn spelling(self) -> Seq<char> {
        match self {
            EcosystemView::Go => "Go"@,
            EcosystemView::Npm => "npm"@,
            EcosystemView::OssFuzz => "OSS-Fuzz"@,
            EcosystemView::PyPI => "PyPI"@,
            EcosystemView::RubyGems => "RubyGems"@,
            EcosystemView::CratesIO => "crates.io"@,
            EcosystemView::Packagist => "Packagist"@,
            EcosystemView::Maven => "Maven"@,
            EcosystemView::NuGet => "NuGet"@,
            EcosystemView::Linux => "Linux"@,
            EcosystemView::Debian => "Debian"@,
            EcosystemView::Hex => "Hex"@,
            EcosystemView::Android => "Android"@,
            EcosystemView::Other(name) => name,
        }
    }
}

/// Reading a spelling and writing it again gives the spelling back, letter
/// for letter.
pub proof fn lemma_ecosystem_of_spelling(text: Seq<char>)
    ensures
        ecosystem_of(text).spelling() == text,
{
}

impl Ecosystem {
    /// The upstream spelling of the value.
    pub fn wire_name(&self) -> (name: String)
        ensures
            name@ == self@.spelling(),
    {
        match self {
            Ecosystem::Go => String::from_str("Go"),
            Ecosystem::Npm => String::from_str("npm"),
            Ecosystem::OssFuzz => String::from_str("OSS-Fuzz"),
            Ecosystem::PyPI => String::from_str("PyPI"),
            Ecosystem::RubyGems => String::from_str("RubyGems"),
            Ecosystem::CratesIO => String::from_str("crates.io"),
            Ecosystem::Packagist => String::from_str("Packagist"),
            Ecosystem::Maven => String::from_str("Maven"),
            Ecosystem::NuGet => String::from_str("NuGet"),
            Ecosystem::Linux => String::from_str("Linux"),
            Ecosystem::Debian => String::from_str("Debian"),
            Ecosystem::Hex => String::from_str("Hex"),
            Ecosystem::Android => String::from_str("Android"),
            Ecosystem::Other(name) => name.clone(),
        }
    }

    /// Reads an ecosystem from its upstream spelling.
    pub fn from_wire(text: &String) -> (ecosystem: Ecosystem)
        ensures
            ecosystem@ == ecosystem_of(text@),
    {
        if text_is(text, "Go") {
            Ecosystem::Go
        } else if text_is(text, "npm") {
            Ecosystem::Npm
        } else if text_is(text, "OSS-Fuzz") {
            Ecosystem::OssFuzz
        } else if text_is(text, "PyPI") {
            Ecosystem::PyPI
        } else if text_is(text, "RubyGems") {
            Ecosystem::RubyGems
        } else if text_is(text, "crates.io") {
            Ecosystem::CratesIO
        } else if text_is(text, "Packagist") {
            Ecosystem::Packagist
        } else if text_is(text, "Maven") {
            Ecosystem::Maven
        } else if text_is(text, "NuGet") {
            Ecosystem::NuGet
        } else if text_is(text, "Linux") {
            Ecosystem::Linux
        } else if text_is(text, "Debian") {
            Ecosystem::Debian
        } else if text_is(text, "Hex") {
            Ecosystem::Hex
        } else if text_is(text, "Android") {
            Ecosystem::Android
        } else {
            Ecosystem::Other(text.clone())
        }
    }
}

/// The advisory database that a range's extra data names.
#[derive(Debug, Clone, PartialEq, Eq)]
#[non_exhaustive]
pub enum Database {
    Go,
    Osv,
    Pysec,
    Rustsec,
    Gsd,
    Ghsa,
    Lbsec,
    /// A database under a spelling that is none of the above.
    Other(String),
}

pub ghost enum DatabaseView {
    Go,
    Osv,
    Pysec,
    Rustsec,
    Gsd,
    Ghsa,
    Lbsec,
    Other(Seq<char>),
}

impl View for Database {
    type V = DatabaseView;

    open spec fn view(&self) -> DatabaseView {
        match self {
            Database::Go => DatabaseView::Go,
            Database::Osv => DatabaseView::Osv,
            Database::Pysec => DatabaseView::Pysec,
            Database::Rustsec => DatabaseView::Rustsec,
            Database::Gsd => DatabaseView::Gsd,
            Database::Ghsa => DatabaseView::Ghsa,
            Database::Lbsec => DatabaseView::Lbsec,
            Database::Other(name) => DatabaseView::Other(name@),
        }
    }
}

/// The database that a spelling of the upstream schema stands for.
pub open spec fn database_of(text: Seq<char>) -> DatabaseView {
    if text == "GO"@ {
        DatabaseView::Go
    } else if text == "OSV"@ {
        DatabaseView::Osv
    } else if text == "PYSEC"@ {
        DatabaseView::Pysec
    } else if text == "RUSTSEC"@ {
        DatabaseView::Rustsec
    } else if text == "GSD"@ {
        DatabaseView::Gsd
    } else if text == "GHSA"@ {
        DatabaseView::Ghsa
    } else if text == "LBSEC"@ {
        DatabaseView::Lbsec
    } else {
        DatabaseView::Other(text)
    }
}

impl DatabaseView {
    /// The upstream spelling of the value.
    pub open spec fn spelling(self) -> Seq<char> {
        match self {
            DatabaseView::Go => "GO"@,
            DatabaseView::Osv => "OSV"@,
            DatabaseView::Pysec => "PYSEC"@,
            DatabaseView::Rustsec => "RUSTSEC"@,
            DatabaseView::Gsd => "GSD"@,
            DatabaseView::Ghsa => "GHSA"@,
            DatabaseView::Lbsec => "LBSEC"@,
            DatabaseView::Other(name) => name,
        }
    }
}

/// Reading a spelling and writing it again gives the spelling back, letter
/// for letter.
pub proof fn lemma_database_of_spelling(text: Seq<char>)
    ensures
        database_of(text).spelling() == text,
{
}

impl Database {
    /// The upstream spelling of the value.
    pub fn wire_name(&self) -> (name: String)
        ensures
            name@ == self@.spelling(),
    {
        match self {
            Database::Go => String::from_str("GO"),
            Database::Osv => String::from_str("OSV"),
            Database::Pysec => String::from_str("PYSEC"),
            Database::Rustsec => String::from_str("RUSTSEC"),
            Database::Gsd => String::from_str("GSD"),
            Database::Ghsa => String::from_str("GHSA"),
            Database::Lbsec => String::from_str("LBSEC"),
            Database::Other(name) => name.clone(),
        }
    }

    /// Reads a database from its upstream spelling.
    pub fn from_wire(text: &String) -> (database: Database)
        ensures
            database@ == database_of(text@),
    {
        if text_is(text, "GO") {
            Database::Go
        } else if text_is(text, "OSV") {
            Database::Osv
        } else if text_is(text, "PYSEC") {
            Database::Pysec
        } else if text_is(text, "RUSTSEC") {
            Database::Rustsec
        } else if text_is(text, "GSD") {
            Database::Gsd
        } else if text_is(text, "GHSA") {
            Database::Ghsa
        } else if text_is(text, "LBSEC") {
            Database::Lbsec
        } else {
            Database::Other(text.clone())
        }
    }
}

/// How the events of a range are to be read.
#[derive(Debug, Clone, PartialEq, Eq)]
pub enum RangeType {
    Unspecified,
    Git,
    Semver,
    Ecosystem,
    /// A range type under a spelling that is none of the above.
    Other(String),
}

pub ghost enum RangeTypeView {
    Unspecified,
    Git,
    Semver,
    Ecosystem,
    Other(Seq<char>),
}

impl View for RangeType {
    type V = RangeTypeView;

    open spec fn view(&self) -> RangeTypeView {
        match self {
            RangeType::Unspecified => RangeTypeView::Unspecified,
            RangeType::Git => RangeTypeView::Git,
            RangeType::Semver => RangeTypeView::Semver,
            RangeType::Ecosystem => RangeTypeView::Ecosystem,
            RangeType::Other(name) => RangeTypeView::Other(name@),
        }
    }
}

/// The range type that a spelling of the upstream schema stands for.
pub open spec fn range_type_of(text: Seq<char>) -> RangeTypeView {
    if text == "UNSPECIFIED"@ {
        RangeTypeView::Unspecified
    } else if text == "GIT"@ {
        RangeTypeView::Git
    } else if text == "SEMVER"@ {
        RangeTypeView::Semver
    } else if text == "ECOSYSTEM"@ {
        RangeTypeView::Ecosystem
    } else {
        RangeTypeView::Other(text)
    }
}

impl RangeTypeView {
    /// The upstream spelling of the value.
    pub open spec fn spelling(self) -> Seq<char> {
        match self {
            RangeTypeView::Unspecified => "UNSPECIFIED"@,
            RangeTypeView::Git => "GIT"@,
            RangeTypeView::Semver => "SEMVER"@,
            RangeTypeView::Ecosystem => "ECOSYSTEM"@,
            RangeTypeView::Other(name) => name,
        }
    }
}

/// Reading a spelling and writing it again gives the spelling back, letter
/// for letter.
pub proof fn lemma_range_type_of_spelling(text: Seq<char>)
    ensures
        range_type_of(text).spelling() == text,
{
}

impl RangeType {
    /// The upstream spelling of the value.
    pub fn wire_name(&self) -> (name: String)
        ensures
            name@ == self@.spelling(),
    {
        match self {
            RangeType::Unspecified => String::from_str("UNSPECIFIED"),
            RangeType::Git => String::from_str("GIT"),
            RangeType::Semver => String::from_str("SEMVER"),
            RangeType::Ecosystem => String::from_str("ECOSYSTEM"),
            RangeType::Other(name) => name.clone(),
        }
    }

    /// Reads a range type from its upstream spelling.
    pub fn from_wire(text: &String) -> (range_type: RangeType)
        ensures
            range_type@ == range_type_of(text@),
    {
        if text_is(text, "UNSPECIFIED") {
            RangeType::Unspecified
        } else if text_is(text, "GIT") {
            RangeType::Git
        } else if text_is(text, "SEMVER") {
            RangeType::Semver
        } else if text_is(text, "ECOSYSTEM") {
            RangeType::Ecosystem
        } else {
            RangeType::Other(text.clone())
        }
    }
}

/// One step on the version line of a range.
#[derive(Debug, Clone, PartialEq, Eq)]
#[non_exhaustive]
pub enum Event {
    Introduced(String),
    Fixed(String),
    Limit(String),
    LastAffected(String),
}

pub ghost enum EventView {
    Introduced(Seq<char>),
    Fixed(Seq<char>),
    Limit(Seq<char>),
    LastAffected(Seq<char>),
}

impl View for Event {
    type V = EventView;

    open spec fn view(&self) -> EventView {
        match self {
            Event::Introduced(v) => EventView::Introduced(v@),
            Event::Fixed(v) => EventView::Fixed(v@),
            Event::Limit(v) => EventView::Limit(v@),
            Event::LastAffected(v) => EventView::LastAffected(v@),
        }
    }
}

impl EventView {
    /// Whether the event ends an interval: every event but `Introduced` does.
    pub open spec fn closes(self) -> bool {
        !(self is Introduced)
    }

    /// The member name under which the event stands in a document.
    pub open spec fn kind(self) -> Seq<char> {
        match self {
            EventView::Introduced(_) => "introduced"@,
            EventView::Fixed(_) => "fixed"@,
            EventView::Limit(_) => "limit"@,
            EventView::LastAffected(_) => "last_affected"@,
        }
    }

    /// The version that the event names.
    pub open spec fn version(self) -> Seq<char> {
        match self {
            EventView::Introduced(v) => v,
            EventView::Fixed(v) => v,
            EventView::Limit(v) => v,
            EventView::LastAffected(v) => v,
        }
    }
}

/// The event that a member name and a version make, if the name is one of
/// the four kinds.
pub open spec fn event_named(kind: Seq<char>, version: Seq<char>) -> Option<EventView> {
    if kind == "introduced"@ {
        Some(EventView::Introduced(version))
    } else if kind == "fixed"@ {
        Some(EventView::Fixed(version))
    } else if kind == "limit"@ {
        Some(EventView::Limit(version))
    } else if kind == "last_affected"@ {
        Some(EventView::LastAffected(version))
    } else {
        None
    }
}

/// An event reads back from its kind and its version.
pub proof fn lemma_event_reads_back(event: EventView)
    ensures
        event_named(event.kind(), event.version()) == Some(event),
{
    reveal_strlit("introduced");
    reveal_strlit("fixed");
    reveal_strlit("limit");
    reveal_strlit("last_affected");
    assert("introduced"@.len() == 10);
    assert("fixed"@.len() == 5);
    assert("limit"@[0] == 'l');
    assert("fixed"@[0] == 'f');
    assert("last_affected"@.len() == 13);
}

/// Whether every closing event of the list ends an interval that is open
/// where it stands: the event just before it is an `Introduced`.
///
/// An interval is opened by `Introduced` and stays open until the next
/// closing event, so `[Introduced, Fixed, Introduced, Limit]` is in order and
/// neither `[Fixed]` nor `[Introduced, Fixed, Limit]` is.
pub open spec fn events_ordered(events: Seq<EventView>) -> bool {
    forall|i: int|
        0 <= i < events.len() && (#[trigger] events[i]).closes() ==> i > 0 && events[i - 1] is Introduced
}

impl Event {
    /// The member name under which the event stands in a document.
    pub fn kind(&self) -> (name: &'static str)
        ensures
            name@ == self@.kind(),
    {
        match self {
            Event::Introduced(_) => "introduced",
            Event::Fixed(_) => "fixed",
            Event::Limit(_) => "limit",
            Event::LastAffected(_) => "last_affected",
        }
    }

    /// The version that the event names.
    pub fn version(&self) -> (version: &String)
        ensures
            version@ == self@.version(),
    {
        match self {
            Event::Introduced(v) => v,
            Event::Fixed(v) => v,
            Event::Limit(v) => v,
            Event::LastAffected(v) => v,
        }
    }

    /// Whether the event ends an interval.
    pub fn is_closing(&self) -> (yes: bool)
        ensures
            yes == self@.closes(),
    {
        match self {
            Event::Introduced(_) => false,
            _ => true,
        }
    }
}

/// The scoring system of a severity entry.
#[derive(Debug, Clone, PartialEq, Eq)]
pub enum SeverityType {
    Unspecified,
    CVSSv3,
    /// A scoring system under a spelling that is none of the above.
    Other(String),
}

pub ghost enum SeverityTypeView {
    Unspecified,
    CVSSv3,
    Other(Seq<char>),
}

impl View for SeverityType {
    type V = SeverityTypeView;

    open spec fn view(&self) -> SeverityTypeView {
        match self {
            SeverityType::Unspecified => SeverityTypeView::Unspecified,
            SeverityType::CVSSv3 => SeverityTypeView::CVSSv3,
            SeverityType::Other(name) => SeverityTypeView::Other(name@),
        }
    }
}

/// The scoring system that a spelling of the upstream schema stands for.
pub open spec fn severity_type_of(text: Seq<char>) -> SeverityTypeView {
    if text == "UNSPECIFIED"@ {
        SeverityTypeView::Unspecified
    } else if text == "CVSS_V3"@ {
        SeverityTypeView::CVSSv3
    } else {
        SeverityTypeView::Other(text)
    }
}

impl SeverityTypeView {
    /// The upstream spelling of the value.
    pub open spec fn spelling(self) -> Seq<char> {
        match self {
            SeverityTypeView::Unspecified => "UNSPECIFIED"@,
            SeverityTypeView::CVSSv3 => "CVSS_V3"@,
            SeverityTypeView::Other(name) => name,
        }
    }
}

/// Reading a spelling and writing it again gives the spelling back, letter
/// for letter.
pub proof fn lemma_severity_type_of_spelling(text: Seq<char>)
    ensures
        severity_type_of(text).spelling() == text,
{
}

impl SeverityType {
    /// The upstream spelling of the value.
    pub fn wire_name(&self) -> (name: String)
        ensures
            name@ == self@.spelling(),
    {
        match self {
            SeverityType::Unspecified => String::from_str("UNSPECIFIED"),
            SeverityType::CVSSv3 => String::from_str("CVSS_V3"),
            SeverityType::Other(name) => name.clone(),
        }
    }

    /// Reads a scoring system from its upstream spelling.
    pub fn from_wire(text: &String) -> (severity_type: SeverityType)
        ensures
            severity_type@ == severity_type_of(text@),
    {
        if text_is(text, "UNSPECIFIED") {
            SeverityType::Unspecified
        } else if text_is(text, "CVSS_V3") {
            SeverityType::CVSSv3
        } else {
            SeverityType::Other(text.clone())
        }
    }
}

/// A severity score under one scoring system.
#[derive(Debug, Clone, PartialEq, Eq)]
pub struct Severity {
    pub severity_type: SeverityType,
    pub score: String,
}

pub ghost struct SeverityView {
    pub severity_type: SeverityTypeView,
    pub score: Seq<char>,
}

impl View for Severity {
    type V = SeverityView;

    open spec fn view(&self) -> SeverityView {
        SeverityView { severity_type: self.severity_type@, score: self.score@ }
    }
}

/// The package that an affected entry is about.
#[derive(Debug, Clone, PartialEq, Eq)]
pub struct Package {
    pub ecosystem: Ecosystem,
    pub name: String,
    pub purl: Option<String>,
}

pub ghost struct PackageView {
    pub ecosystem: EcosystemView,
    pub name: Seq<char>,
    pub purl: Option<Seq<char>>,
}

impl View for Package {
    type V = PackageView;

    open spec fn view(&self) -> PackageView {
        PackageView {
            ecosystem: self.ecosystem@,
            name: self.name@,
            purl: opt_view_of(self.purl),
        }
    }
}

/// A range of affected versions, as an ordered list of events.
#[derive(Debug, Clone, PartialEq, Eq)]
pub struct Ranges {
    pub range_type: Option<RangeType>,
    pub repo: Option<String>,
    pub events: Vec<Event>,
    pub database_specific: Option<Database>,
}

pub ghost struct RangesView {
    pub range_type: Option<RangeTypeView>,
    pub repo: Option<Seq<char>>,
    pub events: Seq<EventView>,
    pub database_specific: Option<DatabaseView>,
}

impl View for Ranges {
    type V = RangesView;

    open spec fn view(&self) -> RangesView {
        RangesView {
            range_type: opt_view_of(self.range_type),
            repo: opt_view_of(self.repo),
            events: views_of(self.events@),
            database_specific: opt_view_of(self.database_specific),
        }
    }
}

impl RangesView {
    /// A range is well formed when its events are in order.
    pub open spec fn wf(self) -> bool {
        events_ordered(self.events)
    }
}

impl Ranges {
    /// Whether no closing event of the range stands without an open interval.
    pub fn events_well_ordered(&self) -> (yes: bool)
        ensures
            yes == self@.wf(),
    {
        let ghost events = views_of(self.events@);
        let mut open = false;
        let mut i: usize = 0;
        while i < self.events.len()
            invariant
                i <= self.events.len(),
                events == views_of(self.events@),
                open == (i > 0 && events[i - 1] is Introduced),
                events_ordered(events.take(i as int)),
            decreases self.events.len() - i,
        {
            let closing = self.events[i].is_closing();
            assert(events[i as int] == self.events[i as int]@);
            if closing && !open {
                return false;
            }
            assert(events_ordered(events.take(i + 1))) by {
                assert forall|k: int|
                    0 <= k < i + 1 && (#[trigger] events.take(i + 1)[k]).closes() implies k > 0
                    && events.take(i + 1)[k - 1] is Introduced by {
                    if k < i {
                        assert(events.take(i as int)[k] == events.take(i + 1)[k]);
                    }
                }
            }
            open = !closing;
            i += 1;
        }
        assert(events.take(i as int) =~= events);
        true
    }
}

/// Side data of an affected entry that its ecosystem defines.
#[derive(Debug, Clone, PartialEq, Eq)]
pub struct EcosystemSpecific {
    pub functions: Option<Vec<String>>,
    pub keywords: Option<Vec<String>>,
    pub categories: Option<Vec<String>>,
    pub severity: Option<String>,
}

pub ghost struct EcosystemSpecificView {
    pub functions: Option<Seq<Seq<char>>>,
    pub keywords: Option<Seq<Seq<char>>>,
    pub categories: Option<Seq<Seq<char>>>,
    pub severity: Option<Seq<char>>,
}

impl View for EcosystemSpecific {
    type V = EcosystemSpecificView;

    open spec fn view(&self) -> EcosystemSpecificView {
        EcosystemSpecificView {
            functions: opt_views_of(self.functions),
            keywords: opt_views_of(self.keywords),
            categories: opt_views_of(self.categories),
            severity: opt_view_of(self.severity),
        }
    }
}

/// Side data that the advisory database defines.
#[derive(Debug, Clone, PartialEq, Eq)]
pub struct DatabaseSpecific {
    pub cwe_ids: Option<Vec<String>>,
    pub github_reviewed: Option<bool>,
    pub categories: Option<Vec<String>>,
    pub severity: Option<String>,
}

pub ghost struct DatabaseSpecificView {
    pub cwe_ids: Option<Seq<Seq<char>>>,
    pub github_reviewed: Option<bool>,
    pub categories: Option<Seq<Seq<char>>>,
    pub severity: Option<Seq<char>>,
}

impl View for DatabaseSpecific {
    type V = DatabaseSpecificView;

    open spec fn view(&self) -> DatabaseSpecificView {
        DatabaseSpecificView {
            cwe_ids: opt_views_of(self.cwe_ids),
            github_reviewed: self.github_reviewed,
            categories: opt_views_of(self.categories),
            severity: opt_view_of(self.severity),
        }
    }
}

/// The scope of a vulnerability within one package.
#[derive(Debug, Clone, PartialEq, Eq)]
pub struct Affected {
    pub package: Package,
    pub ranges: Option<Vec<Ranges>>,
    pub versions: Option<Vec<String>>,
    pub ecosystem_specific: Option<EcosystemSpecific>,
    pub database_specific: Option<DatabaseSpecific>,
}

pub ghost struct AffectedView {
    pub package: PackageView,
    pub ranges: Option<Seq<RangesView>>,
    pub versions: Option<Seq<Seq<char>>>,
    pub ecosystem_specific: Option<EcosystemSpecificView>,
    pub database_specific: Option<DatabaseSpecificView>,
}

impl View for Affected {
    type V = AffectedView;

    open spec fn view(&self) -> AffectedView {
        AffectedView {
            package: self.package@,
            ranges: opt_views_of(self.ranges),
            versions: opt_views_of(self.versions),
            ecosystem_specific: opt_view_of(self.ecosystem_specific),
            database_specific: opt_view_of(self.database_specific),
        }
    }
}

/// Whether every range of the list is well formed.
pub open spec fn ranges_ordered(ranges: Seq<RangesView>) -> bool {
    forall|i: int| 0 <= i < ranges.len() ==> (#[trigger] ranges[i]).wf()
}

impl AffectedView {
    /// An entry that names neither ranges nor versions says nothing.
    pub open spec fn vacuous(self) -> bool {
        self.ranges is None && self.versions is None
    }

    /// An entry is well formed when it says something and each of its ranges
    /// is well formed.
    pub open spec fn wf(self) -> bool {
        &&& !self.vacuous()
        &&& self.ranges matches Some(ranges) ==> ranges_ordered(ranges)
    }
}

/// The kind of document a reference points to.
#[derive(Debug, Clone, PartialEq, Eq)]
pub enum ReferenceType {
    Undefined,
    Web,
    Advisory,
    Report,
    Fix,
    Package,
    Article,
    /// A kind under a spelling that is none of the above.
    Other(String),
}

pub ghost enum ReferenceTypeView {
    Undefined,
    Web,
    Advisory,
    Report,
    Fix,
    Package,
    Article,
    Other(Seq<char>),
}

impl View for ReferenceType {
    type V = ReferenceTypeView;

    open spec fn view(&self) -> ReferenceTypeView {
        match self {
            ReferenceType::Undefined => ReferenceTypeView::Undefined,
            ReferenceType::Web => ReferenceTypeView::Web,
            ReferenceType::Advisory => ReferenceTypeView::Advisory,
            ReferenceType::Report => ReferenceTypeView::Report,
            ReferenceType::Fix => ReferenceTypeView::Fix,
            ReferenceType::Package => ReferenceTypeView::Package,
            ReferenceType::Article => ReferenceTypeView::Article,
            ReferenceType::Other(name) => ReferenceTypeView::Other(name@),
        }
    }
}

/// The reference kind that a spelling of the upstream schema stands for.
pub open spec fn reference_type_of(text: Seq<char>) -> ReferenceTypeView {
    if text == "NONE"@ {
        ReferenceTypeView::Undefined
    } else if text == "WEB"@ {
        ReferenceTypeView::Web
    } else if text == "ADVISORY"@ {
        ReferenceTypeView::Advisory
    } else if text == "REPORT"@ {
        ReferenceTypeView::Report
    } else if text == "FIX"@ {
        ReferenceTypeView::Fix
    } else if text == "PACKAGE"@ {
        ReferenceTypeView::Package
    } else if text == "ARTICLE"@ {
        ReferenceTypeView::Article
    } else {
        ReferenceTypeView::Other(text)
    }
}

impl ReferenceTypeView {
    /// The upstream spelling of the value.
    pub open spec fn spelling(self) -> Seq<char> {
        match self {
            ReferenceTypeView::Undefined => "NONE"@,
            ReferenceTypeView::Web => "WEB"@,
            ReferenceTypeView::Advisory => "ADVISORY"@,
            ReferenceTypeView::Report => "REPORT"@,
            ReferenceTypeView::Fix => "FIX"@,
            ReferenceTypeView::Package => "PACKAGE"@,
            ReferenceTypeView::Article => "ARTICLE"@,
            ReferenceTypeView::Other(name) => name,
        }
    }
}

/// Reading a spelling and writing it again gives the spelling back, letter
/// for letter.
pub proof fn lemma_reference_type_of_spelling(text: Seq<char>)
    ensures
        reference_type_of(text).spelling() == text,
{
}

impl ReferenceType {
    /// The upstream spelling of the value.
    pub fn wire_name(&self) -> (name: String)
        ensures
            name@ == self@.spelling(),
    {
        match self {
            ReferenceType::Undefined => String::from_str("NONE"),
            ReferenceType::Web => String::from_str("WEB"),
            ReferenceType::Advisory => String::from_str("ADVISORY"),
            ReferenceType::Report => String::from_str("REPORT"),
            ReferenceType::Fix => String::from_str("FIX"),
            ReferenceType::Package => String::from_str("PACKAGE"),
            ReferenceType::Article => String::from_str("ARTICLE"),
            ReferenceType::Other(name) => name.clone(),
        }
    }

    /// Reads a reference kind from its upstream spelling.
    pub fn from_wire(text: &String) -> (reference_type: ReferenceType)
        ensures
            reference_type@ == reference_type_of(text@),
    {
        if text_is(text, "NONE") {
            ReferenceType::Undefined
        } else if text_is(text, "WEB") {
            ReferenceType::Web
        } else if text_is(text, "ADVISORY") {
            ReferenceType::Advisory
        } else if text_is(text, "REPORT") {
            ReferenceType::Report
        } else if text_is(text, "FIX") {
            ReferenceType::Fix
        } else if text_is(text, "PACKAGE") {
            ReferenceType::Package
        } else if text_is(text, "ARTICLE") {
            ReferenceType::Article
        } else {
            ReferenceType::Other(text.clone())
        }
    }
}

/// A pointer to a document about the vulnerability.
#[derive(Debug, Clone, PartialEq, Eq)]
pub struct References {
    pub reference_type: ReferenceType,
    pub url: String,
}

pub ghost struct ReferencesView {
    pub reference_type: ReferenceTypeView,
    pub url: Seq<char>,
}

impl View for References {
    type V = ReferencesView;

    open spec fn view(&self) -> ReferencesView {
        ReferencesView { reference_type: self.reference_type@, url: self.url@ }
    }
}

/// Someone credited with the advisory.
#[derive(Debug, Clone, PartialEq, Eq)]
pub struct Credits {
    pub name: String,
    pub contact: Vec<String>,
}

pub ghost struct CreditsView {
    pub name: Seq<char>,
    pub contact: Seq<Seq<char>>,
}

impl View for Credits {
    type V = CreditsView;

    open spec fn view(&self) -> CreditsView {
        CreditsView { name: self.name@, contact: views_of(self.contact@) }
    }
}

/// One advisory, normalized.
#[derive(Debug, Clone, PartialEq, Eq)]
pub struct OvfFormat {
    pub schema_version: String,
    pub id: String,
    pub modified: Timestamp,
    pub published: String,
    pub withdrawn: Option<Timestamp>,
    pub aliases: Option<Vec<String>>,
    pub related: Option<Vec<String>>,
    pub summary: Option<String>,
    pub details: Option<String>,
    pub severity: Option<Vec<Severity>>,
    pub affected: Vec<Affected>,
    pub references: Option<Vec<References>>,
    pub credits: Option<Vec<Credits>>,
    pub database_specific: Option<DatabaseSpecific>,
}

pub ghost struct OvfFormatView {
    pub schema_version: Seq<char>,
    pub id: Seq<char>,
    pub modified: Timestamp,
    pub published: Seq<char>,
    pub withdrawn: Option<Timestamp>,
    pub aliases: Option<Seq<Seq<char>>>,
    pub related: Option<Seq<Seq<char>>>,
    pub summary: Option<Seq<char>>,
    pub details: Option<Seq<char>>,
    pub severity: Option<Seq<SeverityView>>,
    pub affected: Seq<AffectedView>,
    pub references: Option<Seq<ReferencesView>>,
    pub credits: Option<Seq<CreditsView>>,
    pub database_specific: Option<DatabaseSpecificView>,
}

impl View for OvfFormat {
    type V = OvfFormatView;

    open spec fn view(&self) -> OvfFormatView {
        OvfFormatView {
            schema_version: self.schema_version@,
            id: self.id@,
            modified: self.modified,
            published: self.published@,
            withdrawn: self.withdrawn,
            aliases: opt_views_of(self.aliases),
            related: opt_views_of(self.related),
            summary: opt_view_of(self.summary),
            details: opt_view_of(self.details),
            severity: opt_views_of(self.severity),
            affected: views_of(self.affected@),
            references: opt_views_of(self.references),
            credits: opt_views_of(self.credits),
            database_specific: opt_view_of(self.database_specific),
        }
    }
}

/// Whether every entry of the list is well formed.
pub open spec fn affected_wf(affected: Seq<AffectedView>) -> bool {
    forall|i: int| 0 <= i < affected.len() ==> (#[trigger] affected[i]).wf()
}

impl OvfFormatView {
    /// A record is well formed when it has at least one affected entry and
    /// each of them is well formed.
    pub open spec fn wf(self) -> bool {
        &&& self.affected.len() >= 1
        &&& affected_wf(self.affected)
    }
}

} // verus!
