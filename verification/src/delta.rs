//! The delta filter: which objects of a listing are new or modified since a
//! watermark.

use vstd::prelude::*;
use crate::listing::{BucketObject, BucketObjectView};
use crate::text::views_of;

verus! {

/// Whether an object was created or updated after the watermark. A timestamp
/// equal to the watermark does not count.
pub open spec fn changed_since(object: BucketObjectView, watermark: int) -> bool {
    object.time_created > watermark || object.updated > watermark
}

/// Whether no later entry of the listing has the name of entry `i`: where a
/// name is listed more than once, the last entry is the one that counts.
pub open spec fn last_seen(listing: Seq<BucketObjectView>, i: int) -> bool {
    forall|j: int| i < j < listing.len() ==> (#[trigger] listing[j]).name != listing[i].name
}

/// Whether entry `i` of the listing is selected.
pub open spec fn selected_at(listing: Seq<BucketObjectView>, watermark: int, i: int) -> bool {
    last_seen(listing, i) && changed_since(listing[i], watermark)
}

/// The selected entries among the first `k` of the listing, in listing order.
pub open spec fn selected_within(
    listing: Seq<BucketObjectView>,
    watermark: int,
    k: int,
) -> Seq<BucketObjectView>
    decreases k,
{
    if k <= 0 {
        Seq::empty()
    } else if selected_at(listing, watermark, k - 1) {
        selected_within(listing, watermark, k - 1).push(listing[k - 1])
    } else {
        selected_within(listing, watermark, k - 1)
    }
}

/// The objects to fetch: each name once, with the metadata of its last
/// entry, where that entry changed since the watermark; in listing order.
pub open spec fn selected_objects(listing: Seq<BucketObjectView>, watermark: int) -> Seq<
    BucketObjectView,
> {
    selected_within(listing, watermark, listing.len() as int)
}

/// The names of a sequence of objects, in order.
pub open spec fn names_of(objects: Seq<BucketObjectView>) -> Seq<Seq<char>> {
    Seq::new(objects.len(), |i: int| objects[i].name)
}

/// The names to fetch.
pub open spec fn selected_names(listing: Seq<BucketObjectView>, watermark: int) -> Seq<Seq<char>> {
    names_of(selected_objects(listing, watermark))
}

/// An object is among the selected of the first `k` entries exactly when it
/// is one of those entries and that entry is selected.
pub proof fn lemma_selected_within_contains(
    listing: Seq<BucketObjectView>,
    watermark: int,
    k: int,
    object: BucketObjectView,
)
    requires
        0 <= k <= listing.len(),
    ensures
        selected_within(listing, watermark, k).contains(object) <==> exists|i: int|
            0 <= i < k && selected_at(listing, watermark, i) && listing[i] == object,
    decreases k,
{
    if k > 0 {
        lemma_selected_within_contains(listing, watermark, k - 1, object);
        let front = selected_within(listing, watermark, k - 1);
        if selected_at(listing, watermark, k - 1) {
            let all = front.push(listing[k - 1]);
            if all.contains(object) {
                let at = choose|at: int| 0 <= at < all.len() && all[at] == object;
                if at < front.len() {
                    assert(front[at] == object);
                    assert(front.contains(object));
                } else {
                    assert(selected_at(listing, watermark, k - 1) && listing[k - 1] == object);
                }
            }
            if exists|i: int| 0 <= i < k && selected_at(listing, watermark, i) && listing[i] == object {
                let i = choose|i: int|
                    0 <= i < k && selected_at(listing, watermark, i) && listing[i] == object;
                if i < k - 1 {
                    assert(front.contains(object));
                    let at = choose|at: int| 0 <= at < front.len() && front[at] == object;
                    assert(all[at] == object);
                } else {
                    assert(all[front.len() as int] == object);
                }
            }
        }
    }
}

/// Delta correctness: an object is selected exactly when it is the last
/// entry of its name in the listing and was created or updated after the
/// watermark.
pub proof fn lemma_selected_exactly(
    listing: Seq<BucketObjectView>,
    watermark: int,
    object: BucketObjectView,
)
    ensures
        selected_objects(listing, watermark).contains(object) <==> exists|i: int|
            0 <= i < listing.len() && last_seen(listing, i) && changed_since(
                listing[i],
                watermark,
            ) && listing[i] == object,
{
    lemma_selected_within_contains(listing, watermark, listing.len() as int, object);
    if selected_objects(listing, watermark).contains(object) {
        let i = choose|i: int|
            0 <= i < listing.len() && selected_at(listing, watermark, i) && listing[i] == object;
        assert(last_seen(listing, i) && changed_since(listing[i], watermark));
    }
    if exists|i: int|
        0 <= i < listing.len() && last_seen(listing, i) && changed_since(listing[i], watermark)
            && listing[i] == object {
        let i = choose|i: int|
            0 <= i < listing.len() && last_seen(listing, i) && changed_since(listing[i], watermark)
                && listing[i] == object;
        assert(selected_at(listing, watermark, i));
    }
}

/// Every selected entry among the first `k` sits at a listing index below
/// `k`, and the indices rise along the selection.
proof fn lemma_selected_within_sources(listing: Seq<BucketObjectView>, watermark: int, k: int)
    requires
        0 <= k <= listing.len(),
    ensures
        exists|source: Seq<int>|
            #![trigger source.len()]
            {
                &&& source.len() == selected_within(listing, watermark, k).len()
                &&& forall|a: int|
                    0 <= a < source.len() ==> 0 <= #[trigger] source[a] < k && selected_at(
                        listing,
                        watermark,
                        source[a],
                    ) && selected_within(listing, watermark, k)[a] == listing[source[a]]
                &&& forall|a: int, b: int|
                    0 <= a < b < source.len() ==> #[trigger] source[a] < #[trigger] source[b]
            },
    decreases k,
{
    if k <= 0 {
        let source = Seq::<int>::empty();
        assert(source.len() == selected_within(listing, watermark, k).len());
    } else {
        lemma_selected_within_sources(listing, watermark, k - 1);
        let front = selected_within(listing, watermark, k - 1);
        let before = choose|source: Seq<int>|
            #![trigger source.len()]
            {
                &&& source.len() == front.len()
                &&& forall|a: int|
                    0 <= a < source.len() ==> 0 <= #[trigger] source[a] < k - 1 && selected_at(
                        listing,
                        watermark,
                        source[a],
                    ) && front[a] == listing[source[a]]
                &&& forall|a: int, b: int|
                    0 <= a < b < source.len() ==> #[trigger] source[a] < #[trigger] source[b]
            };
        if selected_at(listing, watermark, k - 1) {
            let source = before.push(k - 1);
            assert(source.len() == selected_within(listing, watermark, k).len());
        } else {
            assert(before.len() == selected_within(listing, watermark, k).len());
        }
    }
}

/// No name is selected twice.
pub proof fn lemma_selected_names_distinct(listing: Seq<BucketObjectView>, watermark: int)
    ensures
        forall|a: int, b: int|
            0 <= a < b < selected_names(listing, watermark).len() ==> selected_names(
                listing,
                watermark,
            )[a] != selected_names(listing, watermark)[b],
{
    let k = listing.len() as int;
    let chosen = selected_objects(listing, watermark);
    lemma_selected_within_sources(listing, watermark, k);
    let source = choose|source: Seq<int>|
        #![trigger source.len()]
        {
            &&& source.len() == chosen.len()
            &&& forall|a: int|
                0 <= a < source.len() ==> 0 <= #[trigger] source[a] < k && selected_at(
                    listing,
                    watermark,
                    source[a],
                ) && chosen[a] == listing[source[a]]
            &&& forall|a: int, b: int|
                0 <= a < b < source.len() ==> #[trigger] source[a] < #[trigger] source[b]
        };
    assert forall|a: int, b: int|
        0 <= a < b < selected_names(listing, watermark).len() implies selected_names(
        listing,
        watermark,
    )[a] != selected_names(listing, watermark)[b] by {
        assert(source[a] < source[b]);
        assert(last_seen(listing, source[a]));
        assert(listing[source[b]].name != listing[source[a]].name);
    }
}

/// Where no entry that counts changed since the watermark, nothing among
/// the first `k` entries is selected.
pub proof fn lemma_nothing_selected(listing: Seq<BucketObjectView>, watermark: int, k: int)
    requires
        0 <= k <= listing.len(),
        forall|i: int|
            0 <= i < listing.len() && last_seen(listing, i) ==> !changed_since(
                #[trigger] listing[i],
                watermark,
            ),
    ensures
        selected_within(listing, watermark, k) == Seq::<BucketObjectView>::empty(),
    decreases k,
{
    if k > 0 {
        lemma_nothing_selected(listing, watermark, k - 1);
        assert(!selected_at(listing, watermark, k - 1)) by {
            if last_seen(listing, k - 1) {
                assert(!changed_since(listing[k - 1], watermark));
            }
        }
    }
}

/// Whether an object was created or updated after the watermark.
pub fn is_changed_since(object: &BucketObject, watermark: i64) -> (yes: bool)
    ensures
        yes == changed_since(object@, watermark as int),
{
    object.time_created > watermark || object.updated > watermark
}

/// Whether no later entry of the listing has the name of entry `i`.
fn is_last_seen(listing: &Vec<BucketObject>, i: usize) -> (yes: bool)
    requires
        i < listing.len(),
    ensures
        yes == last_seen(views_of(listing@), i as int),
{
    let ghost all = views_of(listing@);
    let mut j: usize = i + 1;
    while j < listing.len()
        invariant
            i < j <= listing.len(),
            all == views_of(listing@),
            forall|m: int| i < m < j ==> (#[trigger] all[m]).name != all[i as int].name,
        decreases listing.len() - j,
    {
        assert(all[j as int] == listing[j as int]@);
        assert(all[i as int] == listing[i as int]@);
        if listing[j].name == listing[i].name {
            return false;
        }
        j += 1;
    }
    true
}

/// Selects the objects to fetch, each with the metadata of its last entry.
pub fn select_objects(listing: &Vec<BucketObject>, watermark: i64) -> (chosen: Vec<BucketObject>)
    ensures
        views_of(chosen@) == selected_objects(views_of(listing@), watermark as int),
{
    let ghost all = views_of(listing@);
    let mut chosen: Vec<BucketObject> = Vec::new();
    let mut i: usize = 0;
    assert(views_of(chosen@) =~= Seq::<BucketObjectView>::empty());
    while i < listing.len()
        invariant
            i <= listing.len(),
            all == views_of(listing@),
            views_of(chosen@) == selected_within(all, watermark as int, i as int),
        decreases listing.len() - i,
    {
        assert(all[i as int] == listing[i as int]@);
        if is_changed_since(&listing[i], watermark) && is_last_seen(listing, i) {
            let ghost before = views_of(chosen@);
            chosen.push(listing[i].duplicate());
            assert(views_of(chosen@) =~= before.push(listing[i as int]@));
        }
        i += 1;
    }
    chosen
}

/// The delta filter: the names of the objects that are new or modified
/// since the watermark, each once, in listing order.
pub fn select(listing: &Vec<BucketObject>, watermark: i64) -> (names: Vec<String>)
    ensures
        views_of(names@) == selected_names(views_of(listing@), watermark as int),
{
    let chosen = select_objects(listing, watermark);
    object_names(&chosen)
}

/// The names of a list of objects, in order.
pub fn object_names(objects: &Vec<BucketObject>) -> (names: Vec<String>)
    ensures
        views_of(names@) == names_of(views_of(objects@)),
{
    let mut names: Vec<String> = Vec::new();
    let mut i: usize = 0;
    while i < objects.len()
        invariant
            i <= objects.len(),
            names.len() == i,
            forall|k: int| 0 <= k < i ==> (#[trigger] names[k])@ == objects[k].name@,
        decreases objects.len() - i,
    {
        names.push(objects[i].name.clone());
        i += 1;
    }
    assert(views_of(names@) =~= names_of(views_of(objects@)));
    names
}

} // verus!
