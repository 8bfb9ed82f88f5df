//! The sync controller: one run for one ecosystem, as a machine that hands
//! out what to fetch and takes the responses back.
//!
//! A run that is not due ends at once and leaves the state as it is. A run
//! from a watermark of zero fetches the full archive; any other run collects
//! the listing, selects what changed and fetches those objects. Either way a
//! run that comes through returns the records, the errors of the entries
//! that gave none, and the state with the new watermark. A run that fails
//! returns the state unchanged.
//!
//! A run owns the state of its ecosystem from its beginning to its end, so
//! that no second run of the same ecosystem can start from that state
//! meanwhile; runs of different ecosystems share nothing.

use vstd::prelude::*;
use crate::archive::{
    entries_of, extracted_view, extracted_views, ArchiveEntry, ArchiveEntryView,
    EntryDecodeErrorView, Extracted,
};
use crate::delta::{
    changed_since, last_seen, lemma_nothing_selected, lemma_selected_exactly, select_objects,
    selected_objects,
};
use crate::error::SyncError;
use crate::listing::{BucketObject, BucketObjectView, ListingSession, ListingSessionView, listing_of_text};
use crate::pipeline::{
    archive_batch_of, batch_of, extract_osv_json_data, normalize, Batch, BatchView,
};
use crate::text::{opt_view_of, opt_views_of, views_of};
use crate::url::{
    archive_url, archive_url_of, listing_url, listing_url_of, object_url, object_url_of,
};
use crate::{is_due, mode_at, SyncMode, VulnListing, VulnListingView, MIN_SYNC_INTERVAL};

verus! {

/// The larger of two integers.
pub open spec fn larger(a: int, b: int) -> int {
    if a >= b {
        a
    } else {
        b
    }
}

/// The largest of `floor` and the creation and update times of the first
/// `k` objects.
pub open spec fn newest_within(objects: Seq<BucketObjectView>, floor: int, k: int) -> int
    decreases k,
{
    if k <= 0 {
        floor
    } else {
        larger(
            newest_within(objects, floor, k - 1),
            larger(objects[k - 1].time_created, objects[k - 1].updated),
        )
    }
}

/// The watermark after a run that came through: the largest of the time at
/// which the run started and every timestamp of an object it touched, and
/// never less than the watermark before.
pub open spec fn new_watermark(old: int, now: int, touched: Seq<BucketObjectView>) -> int {
    larger(old, newest_within(touched, now, touched.len() as int))
}

/// `newest_within` is the maximum: it is not below the floor nor below any
/// of the timestamps, and it is the floor or one of the timestamps.
pub proof fn lemma_newest_is_maximum(objects: Seq<BucketObjectView>, floor: int, k: int)
    requires
        0 <= k <= objects.len(),
    ensures
        newest_within(objects, floor, k) >= floor,
        forall|i: int|
            0 <= i < k ==> newest_within(objects, floor, k) >= (#[trigger] objects[i]).time_created
                && newest_within(objects, floor, k) >= objects[i].updated,
        newest_within(objects, floor, k) == floor || exists|i: int|
            0 <= i < k && (newest_within(objects, floor, k) == (#[trigger] objects[i]).time_created
                || newest_within(objects, floor, k) == objects[i].updated),
    decreases k,
{
    if k > 0 {
        lemma_newest_is_maximum(objects, floor, k - 1);
        let before = newest_within(objects, floor, k - 1);
        let here = newest_within(objects, floor, k);
        if here != floor {
            if here == before {
                let i = choose|i: int|
                    0 <= i < k - 1 && (before == (#[trigger] objects[i]).time_created || before
                        == objects[i].updated);
                assert(here == objects[i].time_created || here == objects[i].updated);
            } else {
                assert(here == objects[k - 1].time_created || here == objects[k - 1].updated);
            }
        }
    }
}

/// For a run that is due, the new watermark is the largest of the start of
/// the run and the timestamps touched: the old watermark lies below the
/// start and does not count.
pub proof fn lemma_new_watermark_of_due_run(old: int, now: int, touched: Seq<BucketObjectView>)
    requires
        is_due(old, now),
    ensures
        new_watermark(old, now, touched) == newest_within(touched, now, touched.len() as int),
        new_watermark(old, now, touched) >= now,
        new_watermark(old, now, touched) > old,
{
    lemma_newest_is_maximum(touched, now, touched.len() as int);
}

/// Nothing is fetched twice: of a listing whose changes a run has
/// fetched, nothing is selected from the watermark that the run leaves.
pub proof fn lemma_nothing_fetched_twice(listing: Seq<BucketObjectView>, old: int, now: int)
    ensures
        selected_objects(
            listing,
            new_watermark(old, now, selected_objects(listing, old)),
        ) == Seq::<BucketObjectView>::empty(),
{
    let fetched = selected_objects(listing, old);
    let watermark = new_watermark(old, now, fetched);
    lemma_newest_is_maximum(fetched, now, fetched.len() as int);
    assert forall|i: int| 0 <= i < listing.len() && last_seen(listing, i) implies !changed_since(
        #[trigger] listing[i],
        watermark,
    ) by {
        if changed_since(listing[i], watermark) {
            assert(changed_since(listing[i], old));
            lemma_selected_exactly(listing, old, listing[i]);
            assert(fetched.contains(listing[i]));
            let at = choose|at: int| 0 <= at < fetched.len() && fetched[at] == listing[i];
            assert(watermark >= fetched[at].time_created && watermark >= fetched[at].updated);
        }
    }
    lemma_nothing_selected(listing, watermark, listing.len() as int);
}

/// The largest of `floor` and the timestamps of a list of objects.
pub fn newest_timestamp(objects: &Vec<BucketObject>, floor: i64) -> (newest: i64)
    ensures
        newest == newest_within(views_of(objects@), floor as int, objects.len() as int),
{
    let ghost all = views_of(objects@);
    let mut newest = floor;
    let mut i: usize = 0;
    while i < objects.len()
        invariant
            i <= objects.len(),
            all == views_of(objects@),
            newest == newest_within(all, floor as int, i as int),
        decreases objects.len() - i,
    {
        assert(all[i as int] == objects[i as int]@);
        if objects[i].time_created > newest {
            newest = objects[i].time_created;
        }
        if objects[i].updated > newest {
            newest = objects[i].updated;
        }
        i += 1;
    }
    newest
}

/// What a run leaves behind: the state to go on from, the kind of run it
/// was, and its yield. A run that was not due yields an empty batch. A run
/// that failed has the state it started from.
#[derive(Debug, PartialEq, Eq)]
pub struct SyncOutcome {
    pub state: VulnListing,
    pub mode: SyncMode,
    pub result: Result<Batch, SyncError>,
}

pub ghost struct SyncOutcomeView {
    pub state: VulnListingView,
    pub mode: SyncMode,
    pub result: Result<BatchView, SyncError>,
}

impl View for SyncOutcome {
    type V = SyncOutcomeView;

    open spec fn view(&self) -> SyncOutcomeView {
        SyncOutcomeView {
            state: self.state@,
            mode: self.mode,
            result: match self.result {
                Ok(batch) => Ok(batch@),
                Err(error) => Err(error),
            },
        }
    }
}

impl SyncOutcomeView {
    /// Whether the run fetched and came through.
    pub open spec fn succeeded(self) -> bool {
        self.mode != SyncMode::NotDue && self.result is Ok
    }
}

/// The outcome of a run that was not due.
pub open spec fn not_due_outcome_of(state: VulnListingView) -> SyncOutcomeView {
    SyncOutcomeView {
        state,
        mode: SyncMode::NotDue,
        result: Ok(BatchView { records: Seq::empty(), errors: Seq::empty() }),
    }
}

/// The outcome of a run of kind `mode` that failed.
pub open spec fn failed_outcome_of(
    state: VulnListingView,
    mode: SyncMode,
    error: SyncError,
) -> SyncOutcomeView {
    SyncOutcomeView { state, mode, result: Err(error) }
}

/// The outcome of a bootstrap started at `now`, given what the fetch of the
/// archive brought (`None` where it failed).
pub open spec fn bootstrap_outcome_of(
    state: VulnListingView,
    now: int,
    fetched: Option<Seq<u8>>,
) -> SyncOutcomeView {
    match fetched {
        None => failed_outcome_of(state, SyncMode::Bootstrap, SyncError::Transport),
        Some(bytes) => match archive_batch_of(bytes) {
            Err(error) => failed_outcome_of(state, SyncMode::Bootstrap, error),
            Ok(batch) => SyncOutcomeView {
                state: VulnListingView {
                    ecosystem: state.ecosystem,
                    last_synced_at: new_watermark(state.last_synced_at, now, Seq::empty()),
                },
                mode: SyncMode::Bootstrap,
                result: Ok(batch),
            },
        },
    }
}

/// The raw entries that the bodies of the selected objects make: each body
/// under the name of its object.
pub open spec fn object_entries_of(selected: Seq<BucketObjectView>, bodies: Seq<Seq<char>>) -> Seq<
    Result<ArchiveEntryView, EntryDecodeErrorView>,
> {
    Seq::new(
        selected.len(),
        |i: int|
            Ok::<ArchiveEntryView, EntryDecodeErrorView>(
                ArchiveEntryView { name: selected[i].name, text: bodies[i] },
            ),
    )
}

/// The outcome of an incremental run started at `now`, given the objects
/// selected and what their fetches brought (`None` where one failed). There
/// must be one body for each object.
pub open spec fn incremental_outcome_of(
    state: VulnListingView,
    now: int,
    selected: Seq<BucketObjectView>,
    fetched: Option<Seq<Seq<char>>>,
) -> SyncOutcomeView {
    match fetched {
        None => failed_outcome_of(state, SyncMode::Incremental, SyncError::Transport),
        Some(bodies) => if bodies.len() != selected.len() {
            failed_outcome_of(state, SyncMode::Incremental, SyncError::Transport)
        } else {
            SyncOutcomeView {
                state: VulnListingView {
                    ecosystem: state.ecosystem,
                    last_synced_at: new_watermark(state.last_synced_at, now, selected),
                },
                mode: SyncMode::Incremental,
                result: Ok(batch_of(object_entries_of(selected, bodies))),
            }
        },
    }
}

fn later_of(a: i64, b: i64) -> (later: i64)
    ensures
        later == larger(a as int, b as int),
{
    if a >= b {
        a
    } else {
        b
    }
}

/// Ends a run that was not due: nothing fetched, the state as it was.
pub fn finish_not_due(state: VulnListing) -> (outcome: SyncOutcome)
    ensures
        outcome@ == not_due_outcome_of(state@),
{
    let batch = Batch { records: Vec::new(), errors: Vec::new() };
    assert(batch@.records =~= Seq::empty());
    assert(batch@.errors =~= Seq::empty());
    SyncOutcome { state, mode: SyncMode::NotDue, result: Ok(batch) }
}

/// Ends a bootstrap: unpacks the archive that was fetched, parses its
/// entries and moves the watermark to the start of the run. Without an
/// archive, or with bytes that are none, the run has failed and the state
/// stays as it was.
pub fn finish_bootstrap(state: VulnListing, now: i64, fetched: Option<Vec<u8>>) -> (outcome:
    SyncOutcome)
    ensures
        outcome@ == bootstrap_outcome_of(state@, now as int, opt_view_of(fetched)),
{
    match fetched {
        None => SyncOutcome {
            state,
            mode: SyncMode::Bootstrap,
            result: Err(SyncError::Transport),
        },
        Some(bytes) => match extract_osv_json_data(bytes) {
            Err(error) => SyncOutcome { state, mode: SyncMode::Bootstrap, result: Err(error) },
            Ok(batch) => {
                let watermark = later_of(state.last_synced_at, now);
                SyncOutcome {
                    state: VulnListing { ecosystem: state.ecosystem, last_synced_at: watermark },
                    mode: SyncMode::Bootstrap,
                    result: Ok(batch),
                }
            },
        },
    }
}

/// Pairs each selected object with the body fetched for it.
fn object_entries(selected: &Vec<BucketObject>, bodies: &Vec<String>) -> (entries: Vec<
    Extracted,
>)
    requires
        bodies.len() == selected.len(),
    ensures
        extracted_views(entries@) == object_entries_of(views_of(selected@), views_of(bodies@)),
{
    let mut entries: Vec<Extracted> = Vec::new();
    let mut i: usize = 0;
    while i < selected.len()
        invariant
            i <= selected.len(),
            bodies.len() == selected.len(),
            entries.len() == i,
            forall|k: int|
                0 <= k < i ==> extracted_view(#[trigger] entries[k]) == Ok::<
                    ArchiveEntryView,
                    EntryDecodeErrorView,
                >(ArchiveEntryView { name: selected[k].name@, text: bodies[k]@ }),
        decreases selected.len() - i,
    {
        entries.push(Ok(ArchiveEntry { name: selected[i].name.clone(), text: bodies[i].clone() }));
        i += 1;
    }
    assert(extracted_views(entries@) =~= object_entries_of(
        views_of(selected@),
        views_of(bodies@),
    ));
    entries
}

/// Ends an incremental run: parses the body of every selected object and
/// moves the watermark to the largest of the start of the run and the
/// timestamps of the objects selected. Without the bodies, or with another
/// number of them than objects, the run has failed and the state stays as
/// it was.
pub fn finish_incremental(
    state: VulnListing,
    now: i64,
    selected: &Vec<BucketObject>,
    fetched: Option<Vec<String>>,
) -> (outcome: SyncOutcome)
    ensures
        outcome@ == incremental_outcome_of(
            state@,
            now as int,
            views_of(selected@),
            opt_views_of(fetched),
        ),
{
    match fetched {
        None => SyncOutcome {
            state,
            mode: SyncMode::Incremental,
            result: Err(SyncError::Transport),
        },
        Some(bodies) => {
            if bodies.len() != selected.len() {
                SyncOutcome { state, mode: SyncMode::Incremental, result: Err(SyncError::Transport) }
            } else {
                let entries = object_entries(selected, &bodies);
                let batch = normalize(&entries);
                let watermark = later_of(state.last_synced_at, newest_timestamp(selected, now));
                SyncOutcome {
                    state: VulnListing { ecosystem: state.ecosystem, last_synced_at: watermark },
                    mode: SyncMode::Incremental,
                    result: Ok(batch),
                }
            }
        },
    }
}

/// What a run asks its driver to fetch.
#[derive(Debug, Clone, PartialEq, Eq)]
pub enum Request {
    /// The bytes of the full archive, at this address.
    Archive(String),
    /// The body of one page of the listing, at this address.
    Page(String),
    /// The bodies of the selected objects, one for each address and in the
    /// order of the addresses. The fetches do not depend on each other.
    Objects(Vec<String>),
}

pub ghost enum RequestView {
    Archive(Seq<char>),
    Page(Seq<char>),
    Objects(Seq<Seq<char>>),
}

impl View for Request {
    type V = RequestView;

    open spec fn view(&self) -> RequestView {
        match self {
            Request::Archive(url) => RequestView::Archive(url@),
            Request::Page(url) => RequestView::Page(url@),
            Request::Objects(urls) => RequestView::Objects(views_of(urls@)),
        }
    }
}

/// What the driver brings back.
#[derive(Debug, Clone, PartialEq, Eq)]
pub enum Response {
    /// The fetch, or one of the fetches, failed.
    Failed,
    Archive(Vec<u8>),
    Page(String),
    Objects(Vec<String>),
}

pub ghost enum ResponseView {
    Failed,
    Archive(Seq<u8>),
    Page(Seq<char>),
    Objects(Seq<Seq<char>>),
}

impl View for Response {
    type V = ResponseView;

    open spec fn view(&self) -> ResponseView {
        match self {
            Response::Failed => ResponseView::Failed,
            Response::Archive(bytes) => ResponseView::Archive(bytes@),
            Response::Page(body) => ResponseView::Page(body@),
            Response::Objects(bodies) => ResponseView::Objects(views_of(bodies@)),
        }
    }
}

/// A run in progress. `now` is the time at which the run started.
#[derive(Debug, PartialEq, Eq)]
pub enum SyncRun {
    /// A bootstrap that waits for the archive.
    AwaitingArchive { state: VulnListing, now: i64 },
    /// An incremental run that waits for a page of the listing.
    AwaitingPage { state: VulnListing, now: i64, session: ListingSession },
    /// An incremental run that waits for the bodies of the objects selected.
    AwaitingObjects { state: VulnListing, now: i64, selected: Vec<BucketObject> },
    /// A run that has ended.
    Finished(SyncOutcome),
}

pub ghost enum SyncRunView {
    AwaitingArchive { state: VulnListingView, now: int },
    AwaitingPage { state: VulnListingView, now: int, session: ListingSessionView },
    AwaitingObjects { state: VulnListingView, now: int, selected: Seq<BucketObjectView> },
    Finished(SyncOutcomeView),
}

impl View for SyncRun {
    type V = SyncRunView;

    open spec fn view(&self) -> SyncRunView {
        match self {
            SyncRun::AwaitingArchive { state, now } => SyncRunView::AwaitingArchive {
                state: state@,
                now: *now as int,
            },
            SyncRun::AwaitingPage { state, now, session } => SyncRunView::AwaitingPage {
                state: state@,
                now: *now as int,
                session: session@,
            },
            SyncRun::AwaitingObjects { state, now, selected } => SyncRunView::AwaitingObjects {
                state: state@,
                now: *now as int,
                selected: views_of(selected@),
            },
            SyncRun::Finished(outcome) => SyncRunView::Finished(outcome@),
        }
    }
}

/// The addresses of the contents of a sequence of objects, in order.
pub open spec fn object_urls_of(objects: Seq<BucketObjectView>) -> Seq<Seq<char>> {
    Seq::new(objects.len(), |i: int| object_url_of(objects[i].name))
}

/// A run as it begins at `now`: ended at once where nothing is due, else
/// waiting for the archive (bootstrap) or for the first page of the listing
/// (incremental).
pub open spec fn begin_of(state: VulnListingView, now: int) -> SyncRunView {
    match mode_at(state.last_synced_at, now) {
        SyncMode::NotDue => SyncRunView::Finished(not_due_outcome_of(state)),
        SyncMode::Bootstrap => SyncRunView::AwaitingArchive { state, now },
        SyncMode::Incremental => SyncRunView::AwaitingPage {
            state,
            now,
            session: ListingSessionView::start(state.ecosystem),
        },
    }
}

impl SyncRunView {
    /// What the run waits for; `None` once it has ended.
    pub open spec fn request(self) -> Option<RequestView> {
        match self {
            SyncRunView::AwaitingArchive { state, .. } => Some(
                RequestView::Archive(archive_url_of(state.ecosystem)),
            ),
            SyncRunView::AwaitingPage { session, .. } => Some(
                RequestView::Page(listing_url_of(session.ecosystem, session.token)),
            ),
            SyncRunView::AwaitingObjects { selected, .. } => Some(
                RequestView::Objects(object_urls_of(selected)),
            ),
            SyncRunView::Finished(_) => None,
        }
    }

    /// The run after a response.
    ///
    /// A response of another kind than the one waited for counts as a
    /// failed fetch. A failed fetch, a page that is no listing and an
    /// archive that is none end the run with the state it started from. A
    /// page that names a next page keeps the run waiting for that page; the
    /// last page selects what changed since the watermark of the state.
    pub open spec fn advance(self, response: ResponseView) -> SyncRunView {
        match self {
            SyncRunView::AwaitingArchive { state, now } => SyncRunView::Finished(
                bootstrap_outcome_of(
                    state,
                    now,
                    match response {
                        ResponseView::Archive(bytes) => Some(bytes),
                        _ => None,
                    },
                ),
            ),
            SyncRunView::AwaitingPage { state, now, session } => match response {
                ResponseView::Page(body) => match listing_of_text(body) {
                    Err(error) => SyncRunView::Finished(
                        failed_outcome_of(state, SyncMode::Incremental, error),
                    ),
                    Ok(page) => if session.absorb(page).complete {
                        SyncRunView::AwaitingObjects {
                            state,
                            now,
                            selected: selected_objects(
                                session.absorb(page).objects,
                                state.last_synced_at,
                            ),
                        }
                    } else {
                        SyncRunView::AwaitingPage { state, now, session: session.absorb(page) }
                    },
                },
                _ => SyncRunView::Finished(
                    failed_outcome_of(state, SyncMode::Incremental, SyncError::Transport),
                ),
            },
            SyncRunView::AwaitingObjects { state, now, selected } => SyncRunView::Finished(
                incremental_outcome_of(
                    state,
                    now,
                    selected,
                    match response {
                        ResponseView::Objects(bodies) => Some(bodies),
                        _ => None,
                    },
                ),
            ),
            SyncRunView::Finished(outcome) => SyncRunView::Finished(outcome),
        }
    }

    /// The state that the run holds: the one it started from while it
    /// waits, the one it leaves behind once it has ended.
    pub open spec fn state(self) -> VulnListingView {
        match self {
            SyncRunView::AwaitingArchive { state, .. } => state,
            SyncRunView::AwaitingPage { state, .. } => state,
            SyncRunView::AwaitingObjects { state, .. } => state,
            SyncRunView::Finished(outcome) => outcome.state,
        }
    }

    /// The run after the first `k` of a sequence of responses.
    pub open spec fn advance_within(self, responses: Seq<ResponseView>, k: int) -> SyncRunView
        decreases k,
    {
        if k <= 0 {
            self
        } else {
            self.advance_within(responses, k - 1).advance(responses[k - 1])
        }
    }

    /// Whether the run belongs to a sync started at `t0`: while it waits it
    /// remembers `t0`, and where it came through its watermark is not below
    /// `t0`.
    pub open spec fn started_at(self, t0: int) -> bool {
        match self {
            SyncRunView::AwaitingArchive { now, .. } => now == t0,
            SyncRunView::AwaitingPage { now, .. } => now == t0,
            SyncRunView::AwaitingObjects { now, .. } => now == t0,
            SyncRunView::Finished(outcome) => outcome.succeeded() ==> outcome.state.last_synced_at
                >= t0,
        }
    }
}

/// A whole sync: the run that begins at `now` from `state`, after the
/// responses of its driver.
pub open spec fn sync_of(
    state: VulnListingView,
    now: int,
    responses: Seq<ResponseView>,
) -> SyncRunView {
    begin_of(state, now).advance_within(responses, responses.len() as int)
}

/// One step of a run keeps the ecosystem and never moves the watermark
/// back; a step that ends the run in failure leaves the whole state as it
/// was.
pub proof fn lemma_step_never_rewinds(run: SyncRunView, response: ResponseView)
    ensures
        run.advance(response).state().ecosystem == run.state().ecosystem,
        run.advance(response).state().last_synced_at >= run.state().last_synced_at,
        !(run is Finished) && (run.advance(response) matches SyncRunView::Finished(outcome)
            && outcome.result is Err) ==> run.advance(response).state() == run.state(),
{
}

/// One step of a sync started at `t0` belongs to that sync.
pub proof fn lemma_step_keeps_start(run: SyncRunView, response: ResponseView, t0: int)
    requires
        run.started_at(t0),
    ensures
        run.advance(response).started_at(t0),
{
    match run {
        SyncRunView::AwaitingArchive { state, now } => {
            lemma_newest_is_maximum(Seq::<BucketObjectView>::empty(), now, 0);
        },
        SyncRunView::AwaitingObjects { state, now, selected } => {
            lemma_newest_is_maximum(selected, now, selected.len() as int);
        },
        _ => {},
    }
}

/// Watermark monotonicity, within a sync: whatever the responses, the
/// state of the run keeps its ecosystem and its watermark is never below
/// the one the sync began with; and the run belongs to the sync started at
/// `now`.
pub proof fn lemma_sync_never_rewinds(
    state: VulnListingView,
    now: int,
    responses: Seq<ResponseView>,
    k: int,
)
    requires
        0 <= k <= responses.len(),
    ensures
        begin_of(state, now).advance_within(responses, k).state().ecosystem == state.ecosystem,
        begin_of(state, now).advance_within(responses, k).state().last_synced_at
            >= state.last_synced_at,
        begin_of(state, now).advance_within(responses, k).started_at(now),
    decreases k,
{
    if k > 0 {
        lemma_sync_never_rewinds(state, now, responses, k - 1);
        let before = begin_of(state, now).advance_within(responses, k - 1);
        lemma_step_never_rewinds(before, responses[k - 1]);
        lemma_step_keeps_start(before, responses[k - 1], now);
    }
}

/// One sync after the other: each is given by its start time and the
/// responses of its driver, and each begins from the state that the one
/// before left. The state after the first `k` of them.
pub open spec fn state_after(
    state: VulnListingView,
    starts: Seq<int>,
    responses: Seq<Seq<ResponseView>>,
    k: int,
) -> VulnListingView
    decreases k,
{
    if k <= 0 {
        state
    } else {
        sync_of(state_after(state, starts, responses, k - 1), starts[k - 1], responses[k - 1]).state()
    }
}

/// Watermark monotonicity: over any sequence of syncs of one ecosystem,
/// each begun from the state that the one before left, the watermark never
/// decreases.
pub proof fn lemma_watermark_monotone(
    state: VulnListingView,
    starts: Seq<int>,
    responses: Seq<Seq<ResponseView>>,
    i: int,
    j: int,
)
    requires
        starts.len() == responses.len(),
        0 <= i <= j <= starts.len(),
    ensures
        state_after(state, starts, responses, i).last_synced_at <= state_after(
            state,
            starts,
            responses,
            j,
        ).last_synced_at,
    decreases j - i,
{
    if i < j {
        lemma_watermark_monotone(state, starts, responses, i, j - 1);
        let before = state_after(state, starts, responses, j - 1);
        lemma_sync_never_rewinds(
            before,
            starts[j - 1],
            responses[j - 1],
            responses[j - 1].len() as int,
        );
    }
}

/// Rate limit: after a sync that started at `t0` and came through, a sync
/// begun at any `t1` with `t0 < t1 < t0 + 4h` does nothing: it ends at once
/// with an empty batch and the state unchanged.
pub proof fn lemma_rate_limit(
    state: VulnListingView,
    t0: int,
    responses: Seq<ResponseView>,
    t1: int,
)
    requires
        sync_of(state, t0, responses) matches SyncRunView::Finished(outcome) && outcome.succeeded(),
        t0 < t1 < t0 + MIN_SYNC_INTERVAL,
    ensures
        begin_of(sync_of(state, t0, responses).state(), t1) == SyncRunView::Finished(
            not_due_outcome_of(sync_of(state, t0, responses).state()),
        ),
{
    lemma_sync_never_rewinds(state, t0, responses, responses.len() as int);
}

/// Branching: a sync that is due waits for the archive where the watermark
/// is zero, and for the first page of the listing where it is above zero.
pub proof fn lemma_due_sync_begins(state: VulnListingView, now: int)
    requires
        is_due(state.last_synced_at, now),
    ensures
        state.last_synced_at == 0 ==> begin_of(state, now) == (SyncRunView::AwaitingArchive {
            state,
            now,
        }),
        state.last_synced_at > 0 ==> begin_of(state, now) == (SyncRunView::AwaitingPage {
            state,
            now,
            session: ListingSessionView::start(state.ecosystem),
        }),
{
}

/// Partial failure isolation: a bootstrap whose archive opens and an
/// incremental run whose bodies all arrived come through whatever their
/// entries are worth, and move the watermark to the start of the run or
/// beyond.
pub proof fn lemma_item_failures_do_not_fail_the_run(
    state: VulnListingView,
    now: int,
    bytes: Seq<u8>,
    selected: Seq<BucketObjectView>,
    bodies: Seq<Seq<char>>,
)
    ensures
        entries_of(bytes) is Some ==> bootstrap_outcome_of(state, now, Some(bytes)).result
            is Ok && bootstrap_outcome_of(state, now, Some(bytes)).state.last_synced_at >= now,
        bodies.len() == selected.len() ==> incremental_outcome_of(
            state,
            now,
            selected,
            Some(bodies),
        ).result is Ok && incremental_outcome_of(
            state,
            now,
            selected,
            Some(bodies),
        ).state.last_synced_at >= now,
{
    lemma_newest_is_maximum(Seq::<BucketObjectView>::empty(), now, 0);
    lemma_newest_is_maximum(selected, now, selected.len() as int);
}

/// The addresses of the contents of a list of objects, in order.
pub fn object_urls(objects: &Vec<BucketObject>) -> (urls: Vec<String>)
    ensures
        views_of(urls@) == object_urls_of(views_of(objects@)),
{
    let mut urls: Vec<String> = Vec::new();
    let mut i: usize = 0;
    while i < objects.len()
        invariant
            i <= objects.len(),
            urls.len() == i,
            forall|k: int| 0 <= k < i ==> (#[trigger] urls[k])@ == object_url_of(objects[k].name@),
        decreases objects.len() - i,
    {
        urls.push(object_url(objects[i].name.as_str()));
        i += 1;
    }
    assert(views_of(urls@) =~= object_urls_of(views_of(objects@)));
    urls
}

impl SyncRun {
    /// Begins a run at `now` from `state`.
    pub fn begin(state: VulnListing, now: i64) -> (run: SyncRun)
        ensures
            run@ == begin_of(state@, now as int),
    {
        match state.mode_for(now) {
            SyncMode::NotDue => SyncRun::Finished(finish_not_due(state)),
            SyncMode::Bootstrap => SyncRun::AwaitingArchive { state, now },
            SyncMode::Incremental => {
                let session = ListingSession::start(state.ecosystem.clone());
                SyncRun::AwaitingPage { state, now, session }
            },
        }
    }

    /// What the driver is to fetch next; `None` once the run has ended.
    pub fn request(&self) -> (request: Option<Request>)
        ensures
            opt_view_of(request) == self@.request(),
    {
        match self {
            SyncRun::AwaitingArchive { state, .. } => Some(
                Request::Archive(archive_url(state.ecosystem.as_str())),
            ),
            SyncRun::AwaitingPage { session, .. } => Some(
                Request::Page(
                    listing_url(session.ecosystem.as_str(), session.token.as_ref()),
                ),
            ),
            SyncRun::AwaitingObjects { selected, .. } => Some(
                Request::Objects(object_urls(selected)),
            ),
            SyncRun::Finished(_) => None,
        }
    }

    /// Takes the response to the last request and moves the run on.
    pub fn advance(self, response: Response) -> (next: SyncRun)
        ensures
            next@ == self@.advance(response@),
    {
        match self {
            SyncRun::AwaitingArchive { state, now } => {
                let fetched = match response {
                    Response::Archive(bytes) => Some(bytes),
                    _ => None,
                };
                SyncRun::Finished(finish_bootstrap(state, now, fetched))
            },
            SyncRun::AwaitingPage { state, now, session } => match response {
                Response::Page(body) => match session.accept_page(body.as_str()) {
                    Err(error) => SyncRun::Finished(
                        SyncOutcome { state, mode: SyncMode::Incremental, result: Err(error) },
                    ),
                    Ok(next) => if next.complete {
                        let selected = select_objects(&next.objects, state.last_synced_at);
                        SyncRun::AwaitingObjects { state, now, selected }
                    } else {
                        SyncRun::AwaitingPage { state, now, session: next }
                    },
                },
                _ => SyncRun::Finished(
                    SyncOutcome {
                        state,
                        mode: SyncMode::Incremental,
                        result: Err(SyncError::Transport),
                    },
                ),
            },
            SyncRun::AwaitingObjects { state, now, selected } => {
                let fetched = match response {
                    Response::Objects(bodies) => Some(bodies),
                    _ => None,
                };
                SyncRun::Finished(finish_incremental(state, now, &selected, fetched))
            },
            SyncRun::Finished(outcome) => SyncRun::Finished(outcome),
        }
    }

    /// Gives the run up and hands its state back: the state it started from
    /// while it waits, so that a run cut short changes nothing, and the
    /// state it left behind once it has ended.
    pub fn abandon(self) -> (state: VulnListing)
        ensures
            state@ == self@.state(),
    {
        match self {
            SyncRun::AwaitingArchive { state, .. } => state,
            SyncRun::AwaitingPage { state, .. } => state,
            SyncRun::AwaitingObjects { state, .. } => state,
            SyncRun::Finished(outcome) => outcome.state,
        }
    }

    /// The outcome of a run that has ended; a run that still waits is
    /// handed back.
    pub fn into_outcome(self) -> (outcome: Result<SyncOutcome, SyncRun>)
        ensures
            match outcome {
                Ok(ended) => self == SyncRun::Finished(ended),
                Err(waiting) => waiting == self && !(self is Finished),
            },
    {
        match self {
            SyncRun::Finished(outcome) => Ok(outcome),
            waiting => Err(waiting),
        }
    }
}

} // verus!
