//! The record parser: from one JSON document to one advisory record.
//!
//! Each part of the schema has a spec function that says what a document is
//! worth as that part (`..._of`) and an executable decoder proved to compute
//! it. A field that is present and not `null` must have the kind of value the
//! schema gives it; a member the schema does not know is passed over; and the
//! first field that fails, in the order of the schema, names the cause.

use vstd::prelude::*;
use crate::error::{Field, SchemaCause, SchemaError, SchemaErrorView};
use crate::fields::{
    decode_all, decode_list, lemma_decode_all_items, opt_outcome_view, optional_flag,
    optional_flag_of, optional_items_of, optional_list, optional_list_of, optional_text,
    optional_text_of, optional_texts, optional_texts_of, outcome_view, required_items,
    required_items_of, required_list_of, required_text, required_text_of, required_texts,
    required_texts_of,
};
use crate::json::{json_document, parse_json, Json, JsonView};
use crate::schema::ovf_schema::{
    database_of, ecosystem_of, event_named, events_ordered, range_type_of, reference_type_of,
    severity_type_of, Affected, AffectedView, Credits, CreditsView, Database, DatabaseSpecific,
    DatabaseSpecificView, Ecosystem, EcosystemSpecific, EcosystemSpecificView, Event, EventView,
    OvfFormat, OvfFormatView, Package, PackageView, RangeType, Ranges, RangesView, ReferenceType,
    References, ReferencesView, Severity, SeverityType, SeverityView,
};
use crate::text::{opt_view_of, text_is};
use crate::timestamp::{parse_utc_instant, timestamp_of, Timestamp};

verus! {

/// What a document is worth as a severity entry.
pub open spec fn severity_of(doc: JsonView) -> Result<SeverityView, SchemaCause> {
    if !(doc is Object) {
        Err(SchemaCause::NotAnObject)
    } else {
        match required_text_of(doc, Field::Type) {
            Err(cause) => Err(cause),
            Ok(kind) => match required_text_of(doc, Field::Score) {
                Err(cause) => Err(cause),
                Ok(score) => Ok(SeverityView { severity_type: severity_type_of(kind), score }),
            },
        }
    }
}

/// [`severity_of`] as a value.
pub open spec fn severity_item() -> spec_fn(JsonView) -> Result<SeverityView, SchemaCause> {
    |doc: JsonView| severity_of(doc)
}

/// Decodes one severity entry.
pub fn decode_severity(doc: &Json) -> (outcome: Result<Severity, SchemaCause>)
    ensures
        outcome_view(outcome) == severity_of(doc@),
{
    if !doc.is_object() {
        return Err(SchemaCause::NotAnObject);
    }
    let kind = required_text(doc, Field::Type)?;
    let score = required_text(doc, Field::Score)?;
    Ok(Severity { severity_type: SeverityType::from_wire(&kind), score })
}

/// What a document is worth as the package of an affected entry.
pub open spec fn package_of(doc: JsonView) -> Result<PackageView, SchemaCause> {
    if !(doc is Object) {
        Err(SchemaCause::NotAnObject)
    } else {
        match required_text_of(doc, Field::Ecosystem) {
            Err(cause) => Err(cause),
            Ok(ecosystem) => match required_text_of(doc, Field::Name) {
                Err(cause) => Err(cause),
                Ok(name) => match optional_text_of(doc, Field::Purl) {
                    Err(cause) => Err(cause),
                    Ok(purl) => Ok(PackageView { ecosystem: ecosystem_of(ecosystem), name, purl }),
                },
            },
        }
    }
}

/// Decodes the package of an affected entry.
pub fn decode_package(doc: &Json) -> (outcome: Result<Package, SchemaCause>)
    ensures
        outcome_view(outcome) == package_of(doc@),
{
    if !doc.is_object() {
        return Err(SchemaCause::NotAnObject);
    }
    let ecosystem = required_text(doc, Field::Ecosystem)?;
    let name = required_text(doc, Field::Name)?;
    let purl = optional_text(doc, Field::Purl)?;
    Ok(Package { ecosystem: Ecosystem::from_wire(&ecosystem), name, purl })
}

/// What a document is worth as an event: an object with one member, whose
/// name is the kind and whose value is the version.
pub open spec fn event_of(doc: JsonView) -> Result<EventView, SchemaCause> {
    match doc.members() {
        None => Err(SchemaCause::NotAnObject),
        Some(members) => if members.len() != 1 {
            Err(SchemaCause::UnknownEvent)
        } else {
            match members[0].value.text() {
                None => Err(SchemaCause::UnknownEvent),
                Some(version) => match event_named(members[0].name, version) {
                    None => Err(SchemaCause::UnknownEvent),
                    Some(event) => Ok(event),
                },
            }
        },
    }
}

/// [`event_of`] as a value.
pub open spec fn event_item() -> spec_fn(JsonView) -> Result<EventView, SchemaCause> {
    |doc: JsonView| event_of(doc)
}

/// Decodes one event.
pub fn decode_event(doc: &Json) -> (outcome: Result<Event, SchemaCause>)
    ensures
        outcome_view(outcome) == event_of(doc@),
{
    match doc {
        Json::Object(members) => {
            assert(doc@.members().unwrap().len() == members.len());
            if members.len() != 1 {
                return Err(SchemaCause::UnknownEvent);
            }
            assert(doc@.members().unwrap()[0] == members[0]@);
            match members[0].value.as_text() {
                None => Err(SchemaCause::UnknownEvent),
                Some(version) => {
                    let kind = &members[0].name;
                    if text_is(kind, "introduced") {
                        Ok(Event::Introduced(version.clone()))
                    } else if text_is(kind, "fixed") {
                        Ok(Event::Fixed(version.clone()))
                    } else if text_is(kind, "limit") {
                        Ok(Event::Limit(version.clone()))
                    } else if text_is(kind, "last_affected") {
                        Ok(Event::LastAffected(version.clone()))
                    } else {
                        Err(SchemaCause::UnknownEvent)
                    }
                },
            }
        },
        _ => Err(SchemaCause::NotAnObject),
    }
}

/// What a document is worth as a range of affected versions. The events must
/// be in order.
pub open spec fn range_of(doc: JsonView) -> Result<RangesView, SchemaCause> {
    if !(doc is Object) {
        Err(SchemaCause::NotAnObject)
    } else {
        match optional_text_of(doc, Field::Type) {
            Err(cause) => Err(cause),
            Ok(kind) => match optional_text_of(doc, Field::Repo) {
                Err(cause) => Err(cause),
                Ok(repo) => match required_items_of(doc, Field::Events) {
                    Err(cause) => Err(cause),
                    Ok(items) => match decode_all(items, event_item()) {
                        Err(cause) => Err(cause),
                        Ok(events) => match optional_text_of(doc, Field::DatabaseSpecific) {
                            Err(cause) => Err(cause),
                            Ok(database) => if !events_ordered(events) {
                                Err(SchemaCause::EventOrder)
                            } else {
                                Ok(
                                    RangesView {
                                        range_type: match kind {
                                            Some(k) => Some(range_type_of(k)),
                                            None => None,
                                        },
                                        repo,
                                        events,
                                        database_specific: match database {
                                            Some(d) => Some(database_of(d)),
                                            None => None,
                                        },
                                    },
                                )
                            },
                        },
                    },
                },
            },
        }
    }
}

/// [`range_of`] as a value.
pub open spec fn range_item() -> spec_fn(JsonView) -> Result<RangesView, SchemaCause> {
    |doc: JsonView| range_of(doc)
}

/// Decodes one range of affected versions.
pub fn decode_range(doc: &Json) -> (outcome: Result<Ranges, SchemaCause>)
    ensures
        outcome_view(outcome) == range_of(doc@),
{
    if !doc.is_object() {
        return Err(SchemaCause::NotAnObject);
    }
    let kind = optional_text(doc, Field::Type)?;
    let repo = optional_text(doc, Field::Repo)?;
    let items = required_items(doc, Field::Events)?;
    let events = decode_list(items, decode_event, Ghost(event_item()))?;
    let database = optional_text(doc, Field::DatabaseSpecific)?;
    let range = Ranges {
        range_type: match &kind {
            Some(k) => Some(RangeType::from_wire(k)),
            None => None,
        },
        repo,
        events,
        database_specific: match &database {
            Some(d) => Some(Database::from_wire(d)),
            None => None,
        },
    };
    if !range.events_well_ordered() {
        return Err(SchemaCause::EventOrder);
    }
    Ok(range)
}

/// What a document is worth as the side data of an ecosystem.
pub open spec fn ecosystem_specific_of(doc: JsonView) -> Result<
    EcosystemSpecificView,
    SchemaCause,
> {
    if !(doc is Object) {
        Err(SchemaCause::NotAnObject)
    } else {
        match optional_texts_of(doc, Field::Functions) {
            Err(cause) => Err(cause),
            Ok(functions) => match optional_texts_of(doc, Field::Keywords) {
                Err(cause) => Err(cause),
                Ok(keywords) => match optional_texts_of(doc, Field::Categories) {
                    Err(cause) => Err(cause),
                    Ok(categories) => match optional_text_of(doc, Field::Severity) {
                        Err(cause) => Err(cause),
                        Ok(severity) => Ok(
                            EcosystemSpecificView { functions, keywords, categories, severity },
                        ),
                    },
                },
            },
        }
    }
}

/// Decodes the side data of an ecosystem.
pub fn decode_ecosystem_specific(doc: &Json) -> (outcome: Result<EcosystemSpecific, SchemaCause>)
    ensures
        outcome_view(outcome) == ecosystem_specific_of(doc@),
{
    if !doc.is_object() {
        return Err(SchemaCause::NotAnObject);
    }
    let functions = optional_texts(doc, Field::Functions)?;
    let keywords = optional_texts(doc, Field::Keywords)?;
    let categories = optional_texts(doc, Field::Categories)?;
    let severity = optional_text(doc, Field::Severity)?;
    Ok(EcosystemSpecific { functions, keywords, categories, severity })
}

/// What a document is worth as the side data of a database.
pub open spec fn database_specific_of(doc: JsonView) -> Result<DatabaseSpecificView, SchemaCause> {
    if !(doc is Object) {
        Err(SchemaCause::NotAnObject)
    } else {
        match optional_texts_of(doc, Field::CweIds) {
            Err(cause) => Err(cause),
            Ok(cwe_ids) => match optional_flag_of(doc, Field::GithubReviewed) {
                Err(cause) => Err(cause),
                Ok(github_reviewed) => match optional_texts_of(doc, Field::Categories) {
                    Err(cause) => Err(cause),
                    Ok(categories) => match optional_text_of(doc, Field::Severity) {
                        Err(cause) => Err(cause),
                        Ok(severity) => Ok(
                            DatabaseSpecificView { cwe_ids, github_reviewed, categories, severity },
                        ),
                    },
                },
            },
        }
    }
}

/// Decodes the side data of a database.
pub fn decode_database_specific(doc: &Json) -> (outcome: Result<DatabaseSpecific, SchemaCause>)
    ensures
        outcome_view(outcome) == database_specific_of(doc@),
{
    if !doc.is_object() {
        return Err(SchemaCause::NotAnObject);
    }
    let cwe_ids = optional_texts(doc, Field::CweIds)?;
    let github_reviewed = optional_flag(doc, Field::GithubReviewed)?;
    let categories = optional_texts(doc, Field::Categories)?;
    let severity = optional_text(doc, Field::Severity)?;
    Ok(DatabaseSpecific { cwe_ids, github_reviewed, categories, severity })
}

/// The optional field `database_specific` of a record or an affected entry.
pub open spec fn optional_database_specific_of(doc: JsonView) -> Result<
    Option<DatabaseSpecificView>,
    SchemaCause,
> {
    match doc.field(Field::DatabaseSpecific.key()) {
        None => Ok(None),
        Some(value) => match database_specific_of(value) {
            Err(cause) => Err(cause),
            Ok(data) => Ok(Some(data)),
        },
    }
}

/// Reads the optional field `database_specific` of a record or an affected
/// entry.
pub fn optional_database_specific(doc: &Json) -> (outcome: Result<
    Option<DatabaseSpecific>,
    SchemaCause,
>)
    ensures
        opt_outcome_view(outcome) == optional_database_specific_of(doc@),
{
    match doc.get_field(Field::DatabaseSpecific.wire_name()) {
        None => Ok(None),
        Some(value) => match decode_database_specific(value) {
            Err(cause) => Err(cause),
            Ok(data) => Ok(Some(data)),
        },
    }
}

/// The optional field `ecosystem_specific` of an affected entry.
pub open spec fn optional_ecosystem_specific_of(doc: JsonView) -> Result<
    Option<EcosystemSpecificView>,
    SchemaCause,
> {
    match doc.field(Field::EcosystemSpecific.key()) {
        None => Ok(None),
        Some(value) => match ecosystem_specific_of(value) {
            Err(cause) => Err(cause),
            Ok(data) => Ok(Some(data)),
        },
    }
}

/// The required field `package` of an affected entry.
pub open spec fn required_package_of(doc: JsonView) -> Result<PackageView, SchemaCause> {
    match doc.field(Field::Package.key()) {
        None => Err(SchemaCause::Missing(Field::Package)),
        Some(value) => package_of(value),
    }
}

/// What a document is worth as an affected entry. The entry must name ranges
/// or versions.
pub open spec fn affected_of(doc: JsonView) -> Result<AffectedView, SchemaCause> {
    if !(doc is Object) {
        Err(SchemaCause::NotAnObject)
    } else {
        match required_package_of(doc) {
            Err(cause) => Err(cause),
            Ok(package) => match optional_list_of(doc, Field::Ranges, range_item()) {
                Err(cause) => Err(cause),
                Ok(ranges) => match optional_texts_of(doc, Field::Versions) {
                    Err(cause) => Err(cause),
                    Ok(versions) => match optional_ecosystem_specific_of(doc) {
                        Err(cause) => Err(cause),
                        Ok(ecosystem_specific) => match optional_database_specific_of(doc) {
                            Err(cause) => Err(cause),
                            Ok(database_specific) => if ranges is None && versions is None {
                                Err(SchemaCause::VacuousAffected)
                            } else {
                                Ok(
                                    AffectedView {
                                        package,
                                        ranges,
                                        versions,
                                        ecosystem_specific,
                                        database_specific,
                                    },
                                )
                            },
                        },
                    },
                },
            },
        }
    }
}

/// [`affected_of`] as a value.
pub open spec fn affected_item() -> spec_fn(JsonView) -> Result<AffectedView, SchemaCause> {
    |doc: JsonView| affected_of(doc)
}

/// Decodes one affected entry.
pub fn decode_affected(doc: &Json) -> (outcome: Result<Affected, SchemaCause>)
    ensures
        outcome_view(outcome) == affected_of(doc@),
{
    if !doc.is_object() {
        return Err(SchemaCause::NotAnObject);
    }
    let package = match doc.get_field(Field::Package.wire_name()) {
        None => { return Err(SchemaCause::Missing(Field::Package)); },
        Some(package_doc) => decode_package(package_doc)?,
    };
    let ranges = optional_list(doc, Field::Ranges, decode_range, Ghost(range_item()))?;
    let versions = optional_texts(doc, Field::Versions)?;
    let ecosystem_specific = match doc.get_field(Field::EcosystemSpecific.wire_name()) {
        None => None,
        Some(value) => Some(decode_ecosystem_specific(value)?),
    };
    let database_specific = optional_database_specific(doc)?;
    if ranges.is_none() && versions.is_none() {
        return Err(SchemaCause::VacuousAffected);
    }
    Ok(Affected { package, ranges, versions, ecosystem_specific, database_specific })
}

/// What a document is worth as a reference.
pub open spec fn reference_of(doc: JsonView) -> Result<ReferencesView, SchemaCause> {
    if !(doc is Object) {
        Err(SchemaCause::NotAnObject)
    } else {
        match required_text_of(doc, Field::Type) {
            Err(cause) => Err(cause),
            Ok(kind) => match required_text_of(doc, Field::Url) {
                Err(cause) => Err(cause),
                Ok(url) => Ok(ReferencesView { reference_type: reference_type_of(kind), url }),
            },
        }
    }
}

/// [`reference_of`] as a value.
pub open spec fn reference_item() -> spec_fn(JsonView) -> Result<ReferencesView, SchemaCause> {
    |doc: JsonView| reference_of(doc)
}

/// Decodes one reference.
pub fn decode_reference(doc: &Json) -> (outcome: Result<References, SchemaCause>)
    ensures
        outcome_view(outcome) == reference_of(doc@),
{
    if !doc.is_object() {
        return Err(SchemaCause::NotAnObject);
    }
    let kind = required_text(doc, Field::Type)?;
    let url = required_text(doc, Field::Url)?;
    Ok(References { reference_type: ReferenceType::from_wire(&kind), url })
}

/// What a document is worth as a credit.
pub open spec fn credit_of(doc: JsonView) -> Result<CreditsView, SchemaCause> {
    if !(doc is Object) {
        Err(SchemaCause::NotAnObject)
    } else {
        match required_text_of(doc, Field::Name) {
            Err(cause) => Err(cause),
            Ok(name) => match required_texts_of(doc, Field::Contact) {
                Err(cause) => Err(cause),
                Ok(contact) => Ok(CreditsView { name, contact }),
            },
        }
    }
}

/// [`credit_of`] as a value.
pub open spec fn credit_item() -> spec_fn(JsonView) -> Result<CreditsView, SchemaCause> {
    |doc: JsonView| credit_of(doc)
}

/// Decodes one credit.
pub fn decode_credit(doc: &Json) -> (outcome: Result<Credits, SchemaCause>)
    ensures
        outcome_view(outcome) == credit_of(doc@),
{
    if !doc.is_object() {
        return Err(SchemaCause::NotAnObject);
    }
    let name = required_text(doc, Field::Name)?;
    let contact = required_texts(doc, Field::Contact)?;
    Ok(Credits { name, contact })
}

/// A required field that holds a timestamp.
pub open spec fn required_timestamp_of(doc: JsonView, field: Field) -> Result<
    Timestamp,
    SchemaCause,
> {
    match required_text_of(doc, field) {
        Err(cause) => Err(cause),
        Ok(text) => match timestamp_of(text) {
            Some(instant) => Ok(instant),
            None => Err(SchemaCause::BadTimestamp(field)),
        },
    }
}

/// An optional field that holds a timestamp.
pub open spec fn optional_timestamp_of(doc: JsonView, field: Field) -> Result<
    Option<Timestamp>,
    SchemaCause,
> {
    match optional_text_of(doc, field) {
        Err(cause) => Err(cause),
        Ok(None) => Ok(None),
        Ok(Some(text)) => match timestamp_of(text) {
            Some(instant) => Ok(Some(instant)),
            None => Err(SchemaCause::BadTimestamp(field)),
        },
    }
}

/// Reads a required field that holds a timestamp.
pub fn required_timestamp(doc: &Json, field: Field) -> (outcome: Result<Timestamp, SchemaCause>)
    ensures
        outcome == required_timestamp_of(doc@, field),
{
    let text = required_text(doc, field)?;
    match parse_utc_instant(text.as_str()) {
        Some(instant) => Ok(instant),
        None => Err(SchemaCause::BadTimestamp(field)),
    }
}

/// Reads an optional field that holds a timestamp.
pub fn optional_timestamp(doc: &Json, field: Field) -> (outcome: Result<
    Option<Timestamp>,
    SchemaCause,
>)
    ensures
        outcome == optional_timestamp_of(doc@, field),
{
    match optional_text(doc, field)? {
        None => Ok(None),
        Some(text) => match parse_utc_instant(text.as_str()) {
            Some(instant) => Ok(Some(instant)),
            None => Err(SchemaCause::BadTimestamp(field)),
        },
    }
}

/// What a document is worth as an advisory record: the record, or the cause
/// of the first field that fails, in the order of the schema. A record with
/// no affected entry is refused last.
pub open spec fn record_of(doc: JsonView) -> Result<OvfFormatView, SchemaCause> {
    if !(doc is Object) {
        Err(SchemaCause::NotAnObject)
    } else {
        match required_text_of(doc, Field::SchemaVersion) {
            Err(cause) => Err(cause),
            Ok(schema_version) => match required_text_of(doc, Field::Id) {
                Err(cause) => Err(cause),
                Ok(id) => match required_timestamp_of(doc, Field::Modified) {
                    Err(cause) => Err(cause),
                    Ok(modified) => match required_text_of(doc, Field::Published) {
                        Err(cause) => Err(cause),
                        Ok(published) => match optional_timestamp_of(doc, Field::Withdrawn) {
                            Err(cause) => Err(cause),
                            Ok(withdrawn) => match record_lists_of(doc) {
                                Err(cause) => Err(cause),
                                Ok(lists) => if lists.affected.len() == 0 {
                                    Err(SchemaCause::NoAffected)
                                } else {
                                    Ok(
                                        OvfFormatView {
                                            schema_version,
                                            id,
                                            modified,
                                            published,
                                            withdrawn,
                                            aliases: lists.aliases,
                                            related: lists.related,
                                            summary: lists.summary,
                                            details: lists.details,
                                            severity: lists.severity,
                                            affected: lists.affected,
                                            references: lists.references,
                                            credits: lists.credits,
                                            database_specific: lists.database_specific,
                                        },
                                    )
                                },
                            },
                        },
                    },
                },
            },
        }
    }
}

/// The fields of a record that follow its timestamps.
pub ghost struct RecordLists {
    pub aliases: Option<Seq<Seq<char>>>,
    pub related: Option<Seq<Seq<char>>>,
    pub summary: Option<Seq<char>>,
    pub details: Option<Seq<char>>,
    pub severity: Option<Seq<SeverityView>>,
    pub affected: Seq<AffectedView>,
    pub references: Option<Seq<ReferencesView>>,
    pub credits: Option<Seq<CreditsView>>,
    pub database_specific: Option<DatabaseSpecificView>,
}

/// What a document is worth as the fields of a record from `aliases` on.
pub open spec fn record_lists_of(doc: JsonView) -> Result<RecordLists, SchemaCause> {
    match optional_texts_of(doc, Field::Aliases) {
        Err(cause) => Err(cause),
        Ok(aliases) => match optional_texts_of(doc, Field::Related) {
            Err(cause) => Err(cause),
            Ok(related) => match optional_text_of(doc, Field::Summary) {
                Err(cause) => Err(cause),
                Ok(summary) => match optional_text_of(doc, Field::Details) {
                    Err(cause) => Err(cause),
                    Ok(details) => match optional_list_of(doc, Field::Severity, severity_item()) {
                        Err(cause) => Err(cause),
                        Ok(severity) => match required_list_of(
                            doc,
                            Field::Affected,
                            affected_item(),
                        ) {
                            Err(cause) => Err(cause),
                            Ok(affected) => match optional_list_of(
                                doc,
                                Field::References,
                                reference_item(),
                            ) {
                                Err(cause) => Err(cause),
                                Ok(references) => match optional_list_of(
                                    doc,
                                    Field::Credits,
                                    credit_item(),
                                ) {
                                    Err(cause) => Err(cause),
                                    Ok(credits) => match optional_database_specific_of(doc) {
                                        Err(cause) => Err(cause),
                                        Ok(database_specific) => Ok(
                                            RecordLists {
                                                aliases,
                                                related,
                                                summary,
                                                details,
                                                severity,
                                                affected,
                                                references,
                                                credits,
                                                database_specific,
                                            },
                                        ),
                                    },
                                },
                            },
                        },
                    },
                },
            },
        },
    }
}

/// Decodes one advisory record from a parsed document.
pub fn decode_record(doc: &Json) -> (outcome: Result<OvfFormat, SchemaCause>)
    ensures
        outcome_view(outcome) == record_of(doc@),
        outcome matches Ok(record) ==> record@.wf(),
{
    if !doc.is_object() {
        return Err(SchemaCause::NotAnObject);
    }
    let schema_version = required_text(doc, Field::SchemaVersion)?;
    let id = required_text(doc, Field::Id)?;
    let modified = required_timestamp(doc, Field::Modified)?;
    let published = required_text(doc, Field::Published)?;
    let withdrawn = optional_timestamp(doc, Field::Withdrawn)?;
    let aliases = optional_texts(doc, Field::Aliases)?;
    let related = optional_texts(doc, Field::Related)?;
    let summary = optional_text(doc, Field::Summary)?;
    let details = optional_text(doc, Field::Details)?;
    let severity = optional_list(doc, Field::Severity, decode_severity, Ghost(severity_item()))?;
    let items = required_items(doc, Field::Affected)?;
    let affected = decode_list(items, decode_affected, Ghost(affected_item()))?;
    let references = optional_list(
        doc,
        Field::References,
        decode_reference,
        Ghost(reference_item()),
    )?;
    let credits = optional_list(doc, Field::Credits, decode_credit, Ghost(credit_item()))?;
    let database_specific = optional_database_specific(doc)?;
    if affected.len() == 0 {
        return Err(SchemaCause::NoAffected);
    }
    let record = OvfFormat {
        schema_version,
        id,
        modified,
        published,
        withdrawn,
        aliases,
        related,
        summary,
        details,
        severity,
        affected,
        references,
        credits,
        database_specific,
    };
    proof {
        lemma_record_well_formed(doc@);
    }
    Ok(record)
}

/// A range that decodes has its events in order.
pub proof fn lemma_range_well_formed(doc: JsonView)
    requires
        range_of(doc) is Ok,
    ensures
        range_of(doc).unwrap().wf(),
{
}

/// An affected entry that decodes is well formed: it names ranges or
/// versions, and each of its ranges has its events in order.
pub proof fn lemma_affected_well_formed(doc: JsonView)
    requires
        affected_of(doc) is Ok,
    ensures
        affected_of(doc).unwrap().wf(),
{
    let entry = affected_of(doc).unwrap();
    if entry.ranges is Some {
        let items = optional_items_of(doc, Field::Ranges).unwrap().unwrap();
        lemma_decode_all_items(items, range_item());
        assert forall|i: int| 0 <= i < entry.ranges.unwrap().len() implies (
        #[trigger] entry.ranges.unwrap()[i]).wf() by {
            assert(range_of(items[i]) == Ok::<RangesView, SchemaCause>(entry.ranges.unwrap()[i]));
            lemma_range_well_formed(items[i]);
        }
    }
}

/// A record that decodes is well formed: it has an affected entry, and each
/// of them is well formed.
pub proof fn lemma_record_well_formed(doc: JsonView)
    requires
        record_of(doc) is Ok,
    ensures
        record_of(doc).unwrap().wf(),
{
    let record = record_of(doc).unwrap();
    let items = required_items_of(doc, Field::Affected).unwrap();
    lemma_decode_all_items(items, affected_item());
    assert forall|i: int| 0 <= i < record.affected.len() implies (#[trigger] record.affected[i]).wf() by {
        assert(affected_of(items[i]) == Ok::<AffectedView, SchemaCause>(record.affected[i]));
        lemma_affected_well_formed(items[i]);
    }
}

/// The `id` of a document, as far as it has one: the member `id` where the
/// document is an object and the member is a string, else the empty string.
pub open spec fn document_id(doc: JsonView) -> Seq<char> {
    match doc.member("id"@) {
        Some(value) => match value.text() {
            Some(id) => id,
            None => Seq::empty(),
        },
        None => Seq::empty(),
    }
}

/// What a parsed text is worth as an advisory record, where `parsed` is what
/// parsing made of the text (`None` for a text that is not JSON).
pub open spec fn record_of_document(parsed: Option<JsonView>) -> Result<
    OvfFormatView,
    SchemaErrorView,
> {
    match parsed {
        None => Err(SchemaErrorView { id: Seq::empty(), cause: SchemaCause::Malformed }),
        Some(doc) => match record_of(doc) {
            Ok(record) => Ok(record),
            Err(cause) => Err(SchemaErrorView { id: document_id(doc), cause }),
        },
    }
}

/// What a JSON text is worth as an advisory record.
pub open spec fn record_of_text(text: Seq<char>) -> Result<OvfFormatView, SchemaErrorView> {
    record_of_document(json_document(text))
}

/// The outcome of the record parser, taken by its views.
pub open spec fn record_outcome_view(outcome: Result<OvfFormat, SchemaError>) -> Result<
    OvfFormatView,
    SchemaErrorView,
> {
    match outcome {
        Ok(record) => Ok(record@),
        Err(error) => Err(error@),
    }
}

/// Reads the `id` of a document, as far as it has one.
pub fn extract_id(doc: &Json) -> (id: String)
    ensures
        id@ == document_id(doc@),
{
    match doc.get("id") {
        Some(value) => match value.as_text() {
            Some(id) => id.clone(),
            None => String::new(),
        },
        None => String::new(),
    }
}

/// Turns what parsing made of a text into an advisory record, or into the
/// error that names the document and the cause.
pub fn read_document(parsed: Option<Json>) -> (outcome: Result<OvfFormat, SchemaError>)
    ensures
        record_outcome_view(outcome) == record_of_document(opt_view_of(parsed)),
        outcome matches Ok(record) ==> record@.wf(),
{
    match parsed {
        None => Err(SchemaError { id: String::new(), cause: SchemaCause::Malformed }),
        Some(doc) => match decode_record(&doc) {
            Ok(record) => Ok(record),
            Err(cause) => Err(SchemaError { id: extract_id(&doc), cause }),
        },
    }
}

/// Parses one JSON text into an advisory record.
///
/// The text is refused where it is not JSON, where a required field is
/// missing, where a field holds another kind of value than its own, where no
/// package is affected, where an affected entry names neither ranges nor
/// versions, and where a range closes an interval that was never introduced.
/// An enumeration value this crate does not know is kept as it is spelled.
pub fn parse_record(text: &str) -> (outcome: Result<OvfFormat, SchemaError>)
    ensures
        record_outcome_view(outcome) == record_of_text(text@),
        outcome matches Ok(record) ==> record@.wf(),
{
    read_document(parse_json(text))
}

} // verus!
