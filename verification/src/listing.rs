//! The object listing of the remote store: one page of it as a document, and
//! the paging that collects a whole listing.

use vstd::prelude::*;
use crate::error::{Field, SchemaCause, SyncError};
use crate::fields::{
    decode_list, optional_text, optional_text_of, outcome_view, required_items,
    required_list_of, required_text, required_text_of,
};
use crate::json::{json_document, parse_json, Json, JsonView};
use crate::text::{opt_view_of, views_of};
use crate::timestamp::{listing_seconds_of, parse_rfc2822_seconds};
use crate::url::{listing_url, listing_url_of};

verus! {

/// What the store says of one object: its name and when it was created and
/// last updated, in seconds since the epoch.
#[derive(Debug, Clone, PartialEq, Eq)]
pub struct BucketObject {
    pub name: String,
    pub time_created: i64,
    pub updated: i64,
}

pub ghost struct BucketObjectView {
    pub name: Seq<char>,
    pub time_created: int,
    pub updated: int,
}

impl View for BucketObject {
    type V = BucketObjectView;

    open spec fn view(&self) -> BucketObjectView {
        BucketObjectView {
            name: self.name@,
            time_created: self.time_created as int,
            updated: self.updated as int,
        }
    }
}

impl BucketObject {
    /// A copy of the metadata.
    pub fn duplicate(&self) -> (copy: BucketObject)
        ensures
            copy == *self,
    {
        BucketObject {
            name: self.name.clone(),
            time_created: self.time_created,
            updated: self.updated,
        }
    }
}

/// One page of a listing: its objects in order, and the token that asks for
/// the page after it, if there is one.
#[derive(Debug, Clone, PartialEq, Eq)]
pub struct BucketObjectList {
    pub nextpagetoken: Option<String>,
    pub items: Vec<BucketObject>,
}

pub ghost struct BucketObjectListView {
    pub nextpagetoken: Option<Seq<char>>,
    pub items: Seq<BucketObjectView>,
}

impl View for BucketObjectList {
    type V = BucketObjectListView;

    open spec fn view(&self) -> BucketObjectListView {
        BucketObjectListView {
            nextpagetoken: opt_view_of(self.nextpagetoken),
            items: views_of(self.items@),
        }
    }
}

/// A required field that holds a listing timestamp.
pub open spec fn listing_time_of(doc: JsonView, field: Field) -> Result<int, SchemaCause> {
    match required_text_of(doc, field) {
        Err(cause) => Err(cause),
        Ok(text) => match listing_seconds_of(text) {
            Some(seconds) => Ok(seconds as int),
            None => Err(SchemaCause::BadTimestamp(field)),
        },
    }
}

/// What a document is worth as the metadata of one object.
pub open spec fn bucket_object_of(doc: JsonView) -> Result<BucketObjectView, SchemaCause> {
    if !(doc is Object) {
        Err(SchemaCause::NotAnObject)
    } else {
        match required_text_of(doc, Field::Name) {
            Err(cause) => Err(cause),
            Ok(name) => match listing_time_of(doc, Field::TimeCreated) {
                Err(cause) => Err(cause),
                Ok(time_created) => match listing_time_of(doc, Field::Updated) {
                    Err(cause) => Err(cause),
                    Ok(updated) => Ok(BucketObjectView { name, time_created, updated }),
                },
            },
        }
    }
}

/// [`bucket_object_of`] as a value.
pub open spec fn bucket_object_item() -> spec_fn(JsonView) -> Result<
    BucketObjectView,
    SchemaCause,
> {
    |doc: JsonView| bucket_object_of(doc)
}

/// What a document is worth as a page of a listing.
pub open spec fn listing_page_of(doc: JsonView) -> Result<BucketObjectListView, SchemaCause> {
    if !(doc is Object) {
        Err(SchemaCause::NotAnObject)
    } else {
        match required_list_of(doc, Field::Items, bucket_object_item()) {
            Err(cause) => Err(cause),
            Ok(items) => match optional_text_of(doc, Field::NextPageToken) {
                Err(cause) => Err(cause),
                Ok(nextpagetoken) => Ok(BucketObjectListView { nextpagetoken, items }),
            },
        }
    }
}

/// What parsing made of the body of a listing response, as a page: any
/// failure makes the response malformed.
pub open spec fn listing_of_document(parsed: Option<JsonView>) -> Result<
    BucketObjectListView,
    SyncError,
> {
    match parsed {
        None => Err(SyncError::MalformedResponse),
        Some(doc) => match listing_page_of(doc) {
            Ok(page) => Ok(page),
            Err(_) => Err(SyncError::MalformedResponse),
        },
    }
}

/// What the body of a listing response is worth as a page.
pub open spec fn listing_of_text(text: Seq<char>) -> Result<BucketObjectListView, SyncError> {
    listing_of_document(json_document(text))
}

/// The outcome of reading a page, taken by its view.
pub open spec fn page_outcome_view(outcome: Result<BucketObjectList, SyncError>) -> Result<
    BucketObjectListView,
    SyncError,
> {
    match outcome {
        Ok(page) => Ok(page@),
        Err(error) => Err(error),
    }
}

fn listing_time(doc: &Json, field: Field) -> (outcome: Result<i64, SchemaCause>)
    ensures
        match outcome {
            Ok(seconds) => listing_time_of(doc@, field) == Ok::<int, SchemaCause>(seconds as int),
            Err(cause) => listing_time_of(doc@, field) == Err::<int, SchemaCause>(cause),
        },
{
    let text = required_text(doc, field)?;
    match parse_rfc2822_seconds(text.as_str()) {
        Some(seconds) => Ok(seconds),
        None => Err(SchemaCause::BadTimestamp(field)),
    }
}

/// Decodes the metadata of one object.
pub fn decode_bucket_object(doc: &Json) -> (outcome: Result<BucketObject, SchemaCause>)
    ensures
        outcome_view(outcome) == bucket_object_of(doc@),
{
    if !doc.is_object() {
        return Err(SchemaCause::NotAnObject);
    }
    let name = required_text(doc, Field::Name)?;
    let time_created = listing_time(doc, Field::TimeCreated)?;
    let updated = listing_time(doc, Field::Updated)?;
    Ok(BucketObject { name, time_created, updated })
}

/// Decodes one page of a listing.
pub fn decode_listing_page(doc: &Json) -> (outcome: Result<BucketObjectList, SchemaCause>)
    ensures
        outcome_view(outcome) == listing_page_of(doc@),
{
    if !doc.is_object() {
        return Err(SchemaCause::NotAnObject);
    }
    let entries = required_items(doc, Field::Items)?;
    let items = decode_list(entries, decode_bucket_object, Ghost(bucket_object_item()))?;
    let nextpagetoken = optional_text(doc, Field::NextPageToken)?;
    Ok(BucketObjectList { nextpagetoken, items })
}

/// Turns what parsing made of a response body into a page of a listing.
pub fn read_listing_document(parsed: Option<Json>) -> (outcome: Result<
    BucketObjectList,
    SyncError,
>)
    ensures
        page_outcome_view(outcome) == listing_of_document(opt_view_of(parsed)),
{
    match parsed {
        None => Err(SyncError::MalformedResponse),
        Some(doc) => match decode_listing_page(&doc) {
            Ok(page) => Ok(page),
            Err(_) => Err(SyncError::MalformedResponse),
        },
    }
}

/// Parses the body of a listing response into a page.
pub fn parse_listing_page(text: &str) -> (outcome: Result<BucketObjectList, SyncError>)
    ensures
        page_outcome_view(outcome) == listing_of_text(text@),
{
    read_listing_document(parse_json(text))
}

/// A listing being collected page by page. Pages are asked for strictly in
/// order: the address of each page after the first is made from the token
/// of the page before it.
#[derive(Debug, Clone, PartialEq, Eq)]
pub struct ListingSession {
    /// The ecosystem whose objects are listed.
    pub ecosystem: String,
    /// The objects of the pages taken in so far, in order.
    pub objects: Vec<BucketObject>,
    /// The token of the page to ask for next; `None` before the first page.
    pub token: Option<String>,
    /// Whether the last page has been taken in.
    pub complete: bool,
}

pub ghost struct ListingSessionView {
    pub ecosystem: Seq<char>,
    pub objects: Seq<BucketObjectView>,
    pub token: Option<Seq<char>>,
    pub complete: bool,
}

impl View for ListingSession {
    type V = ListingSessionView;

    open spec fn view(&self) -> ListingSessionView {
        ListingSessionView {
            ecosystem: self.ecosystem@,
            objects: views_of(self.objects@),
            token: opt_view_of(self.token),
            complete: self.complete,
        }
    }
}

impl ListingSessionView {
    /// A session before its first page.
    pub open spec fn start(ecosystem: Seq<char>) -> ListingSessionView {
        ListingSessionView { ecosystem, objects: Seq::empty(), token: None, complete: false }
    }

    /// The address of the page to fetch next, or `None` once the listing is
    /// complete.
    pub open spec fn request(self) -> Option<Seq<char>> {
        if self.complete {
            None
        } else {
            Some(listing_url_of(self.ecosystem, self.token))
        }
    }

    /// The session after one more page: its objects follow those already
    /// held, and the listing is complete when the page names no next page.
    /// A complete session takes in nothing more.
    pub open spec fn absorb(self, page: BucketObjectListView) -> ListingSessionView {
        if self.complete {
            self
        } else {
            ListingSessionView {
                ecosystem: self.ecosystem,
                objects: self.objects + page.items,
                token: page.nextpagetoken,
                complete: page.nextpagetoken is None,
            }
        }
    }

    /// The session after the first `k` of a sequence of pages.
    pub open spec fn absorb_within(self, pages: Seq<BucketObjectListView>, k: int) -> ListingSessionView
        decreases k,
    {
        if k <= 0 {
            self
        } else {
            self.absorb_within(pages, k - 1).absorb(pages[k - 1])
        }
    }
}

/// The objects of the first `k` pages, one page after the other.
pub open spec fn objects_within(pages: Seq<BucketObjectListView>, k: int) -> Seq<BucketObjectView>
    decreases k,
{
    if k <= 0 {
        Seq::empty()
    } else {
        objects_within(pages, k - 1) + pages[k - 1].items
    }
}

/// While every page names a next one, the session holds the objects of all
/// pages taken in, asks for the page after the last, and is not complete.
pub proof fn lemma_listing_goes_on(
    ecosystem: Seq<char>,
    pages: Seq<BucketObjectListView>,
    k: int,
)
    requires
        0 <= k <= pages.len(),
        forall|i: int| 0 <= i < k ==> (#[trigger] pages[i]).nextpagetoken is Some,
    ensures
        ListingSessionView::start(ecosystem).absorb_within(pages, k) == (ListingSessionView {
            ecosystem,
            objects: objects_within(pages, k),
            token: if k == 0 {
                None
            } else {
                pages[k - 1].nextpagetoken
            },
            complete: false,
        }),
    decreases k,
{
    if k > 0 {
        lemma_listing_goes_on(ecosystem, pages, k - 1);
    } else {
        assert(objects_within(pages, 0) =~= Seq::<BucketObjectView>::empty());
    }
}

/// Listing is complete exactly at the first page without a token: a
/// listing whose pages all name a next page but the last holds, after the
/// last page, the objects of every page in order, and is complete.
pub proof fn lemma_listing_collects_every_page(
    ecosystem: Seq<char>,
    pages: Seq<BucketObjectListView>,
)
    requires
        pages.len() >= 1,
        forall|i: int| 0 <= i < pages.len() - 1 ==> (#[trigger] pages[i]).nextpagetoken is Some,
        pages[pages.len() - 1].nextpagetoken is None,
    ensures
        ListingSessionView::start(ecosystem).absorb_within(pages, pages.len() as int) == (
        ListingSessionView {
            ecosystem,
            objects: objects_within(pages, pages.len() as int),
            token: None,
            complete: true,
        }),
{
    lemma_listing_goes_on(ecosystem, pages, pages.len() - 1);
}

impl ListingSession {
    /// A session for the listing of `ecosystem`, before its first page.
    pub fn start(ecosystem: String) -> (session: ListingSession)
        ensures
            session@ == ListingSessionView::start(ecosystem@),
    {
        let session = ListingSession {
            ecosystem,
            objects: Vec::new(),
            token: None,
            complete: false,
        };
        assert(views_of(session.objects@) =~= Seq::<BucketObjectView>::empty());
        session
    }

    /// The address of the page to fetch next, or `None` once the listing is
    /// complete.
    pub fn next_request(&self) -> (url: Option<String>)
        ensures
            opt_view_of(url) == self@.request(),
    {
        if self.complete {
            None
        } else {
            Some(listing_url(self.ecosystem.as_str(), self.token.as_ref()))
        }
    }

    /// Takes in one more page.
    pub fn absorb(self, page: BucketObjectList) -> (next: ListingSession)
        ensures
            next@ == self@.absorb(page@),
    {
        if self.complete {
            return self;
        }
        let ghost held = views_of(self.objects@);
        let ghost added = views_of(page.items@);
        let complete = page.nextpagetoken.is_none();
        let mut objects = self.objects;
        let mut items = page.items;
        objects.append(&mut items);
        assert(views_of(objects@) =~= held + added);
        ListingSession { ecosystem: self.ecosystem, objects, token: page.nextpagetoken, complete }
    }

    /// Takes in the body of the response to the last request. A body that
    /// is no listing page fails the listing as a whole: what was collected
    /// so far is dropped with the session.
    pub fn accept_page(self, body: &str) -> (outcome: Result<ListingSession, SyncError>)
        ensures
            match outcome {
                Ok(next) => listing_of_text(body@) is Ok && next@ == self@.absorb(
                    listing_of_text(body@).unwrap(),
                ),
                Err(error) => listing_of_text(body@) == Err::<BucketObjectListView, SyncError>(
                    error,
                ),
            },
    {
        match parse_listing_page(body) {
            Ok(page) => Ok(self.absorb(page)),
            Err(error) => Err(error),
        }
    }
}

} // verus!
