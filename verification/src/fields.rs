//! Reading the fields of a JSON object: what each kind of field is worth, and
//! the cause reported where it cannot be read.

use vstd::prelude::*;
use crate::error::{Field, SchemaCause};
use crate::json::{json_views, Json, JsonView};
use crate::text::{opt_view_of, opt_views_of, views_of};

verus! {

/// The outcome of a decoder, with the decoded value taken by its view.
pub open spec fn outcome_view<T: View>(outcome: Result<T, SchemaCause>) -> Result<
    T::V,
    SchemaCause,
> {
    match outcome {
        Ok(value) => Ok(value@),
        Err(cause) => Err(cause),
    }
}

/// The outcome of a decoder of an optional value, taken by its view.
pub open spec fn opt_outcome_view<T: View>(outcome: Result<Option<T>, SchemaCause>) -> Result<
    Option<T::V>,
    SchemaCause,
> {
    match outcome {
        Ok(value) => Ok(opt_view_of(value)),
        Err(cause) => Err(cause),
    }
}

/// The outcome of a decoder of a list, taken item by item.
pub open spec fn list_outcome_view<T: View>(outcome: Result<Vec<T>, SchemaCause>) -> Result<
    Seq<T::V>,
    SchemaCause,
> {
    match outcome {
        Ok(items) => Ok(views_of(items@)),
        Err(cause) => Err(cause),
    }
}

/// The outcome of a decoder of an optional list, taken item by item.
pub open spec fn opt_list_outcome_view<T: View>(
    outcome: Result<Option<Vec<T>>, SchemaCause>,
) -> Result<Option<Seq<T::V>>, SchemaCause> {
    match outcome {
        Ok(list) => Ok(opt_views_of(list)),
        Err(cause) => Err(cause),
    }
}

/// Decodes every item with `decode`, in order: the decoded items, or the
/// cause of the first item that fails.
pub open spec fn decode_all<T>(
    items: Seq<JsonView>,
    decode: spec_fn(JsonView) -> Result<T, SchemaCause>,
) -> Result<Seq<T>, SchemaCause>
    decreases items.len(),
{
    if items.len() == 0 {
        Ok(Seq::empty())
    } else {
        match decode_all(items.drop_last(), decode) {
            Err(cause) => Err(cause),
            Ok(front) => match decode(items.last()) {
                Err(cause) => Err(cause),
                Ok(value) => Ok(front.push(value)),
            },
        }
    }
}

/// A failure among the first `k` items is the failure of the whole list.
pub proof fn lemma_decode_all_fails_early<T>(
    items: Seq<JsonView>,
    decode: spec_fn(JsonView) -> Result<T, SchemaCause>,
    k: int,
)
    requires
        0 <= k <= items.len(),
        decode_all(items.take(k), decode) is Err,
    ensures
        decode_all(items, decode) == decode_all(items.take(k), decode),
    decreases items.len() - k,
{
    if k == items.len() {
        assert(items.take(k) =~= items);
    } else {
        assert(items.drop_last().take(k) =~= items.take(k));
        lemma_decode_all_fails_early(items.drop_last(), decode, k);
    }
}

/// One more item decoded after the first `k`.
pub proof fn lemma_decode_all_step<T>(
    items: Seq<JsonView>,
    decode: spec_fn(JsonView) -> Result<T, SchemaCause>,
    k: int,
)
    requires
        0 <= k < items.len(),
    ensures
        decode_all(items.take(k + 1), decode) == match decode_all(items.take(k), decode) {
            Err(cause) => Err(cause),
            Ok(front) => match decode(items[k]) {
                Err(cause) => Err(cause),
                Ok(value) => Ok(front.push(value)),
            },
        },
{
    assert(items.take(k + 1).drop_last() =~= items.take(k));
    assert(items.take(k + 1).last() == items[k]);
}

/// Where a list decodes, its items decode one by one to the items of the
/// outcome, in order.
pub proof fn lemma_decode_all_items<T>(
    items: Seq<JsonView>,
    decode: spec_fn(JsonView) -> Result<T, SchemaCause>,
)
    requires
        decode_all(items, decode) is Ok,
    ensures
        decode_all(items, decode).unwrap().len() == items.len(),
        forall|i: int|
            0 <= i < items.len() ==> decode(#[trigger] items[i]) == Ok::<T, SchemaCause>(
                decode_all(items, decode).unwrap()[i],
            ),
    decreases items.len(),
{
    if items.len() > 0 {
        lemma_decode_all_items(items.drop_last(), decode);
        assert forall|i: int| 0 <= i < items.len() implies decode(#[trigger] items[i]) == Ok::<
            T,
            SchemaCause,
        >(decode_all(items, decode).unwrap()[i]) by {
            if i < items.len() - 1 {
                assert(items.drop_last()[i] == items[i]);
            }
        }
    }
}

/// An optional field that is a list, each item decoded with `decode`.
pub open spec fn optional_list_of<T>(
    doc: JsonView,
    field: Field,
    decode: spec_fn(JsonView) -> Result<T, SchemaCause>,
) -> Result<Option<Seq<T>>, SchemaCause> {
    match optional_items_of(doc, field) {
        Err(cause) => Err(cause),
        Ok(None) => Ok(None),
        Ok(Some(items)) => match decode_all(items, decode) {
            Err(cause) => Err(cause),
            Ok(values) => Ok(Some(values)),
        },
    }
}

/// A required field that is a list, each item decoded with `decode`.
pub open spec fn required_list_of<T>(
    doc: JsonView,
    field: Field,
    decode: spec_fn(JsonView) -> Result<T, SchemaCause>,
) -> Result<Seq<T>, SchemaCause> {
    match required_items_of(doc, field) {
        Err(cause) => Err(cause),
        Ok(items) => decode_all(items, decode),
    }
}

/// The text of an item that has to be a string.
pub open spec fn text_item(field: Field) -> spec_fn(JsonView) -> Result<Seq<char>, SchemaCause> {
    |item: JsonView|
        match item.text() {
            Some(text) => Ok(text),
            None => Err(SchemaCause::WrongType(field)),
        }
}

/// The strings of a list whose items all have to be strings.
pub open spec fn texts_of(items: Seq<JsonView>, field: Field) -> Result<
    Seq<Seq<char>>,
    SchemaCause,
> {
    decode_all(items, text_item(field))
}

/// A required string field.
pub open spec fn required_text_of(doc: JsonView, field: Field) -> Result<Seq<char>, SchemaCause> {
    match doc.field(field.key()) {
        None => Err(SchemaCause::Missing(field)),
        Some(value) => match value.text() {
            Some(text) => Ok(text),
            None => Err(SchemaCause::WrongType(field)),
        },
    }
}

/// An optional string field: absent and `null` are both `None`.
pub open spec fn optional_text_of(doc: JsonView, field: Field) -> Result<
    Option<Seq<char>>,
    SchemaCause,
> {
    match doc.field(field.key()) {
        None => Ok(None),
        Some(value) => match value.text() {
            Some(text) => Ok(Some(text)),
            None => Err(SchemaCause::WrongType(field)),
        },
    }
}

/// An optional boolean field.
pub open spec fn optional_flag_of(doc: JsonView, field: Field) -> Result<
    Option<bool>,
    SchemaCause,
> {
    match doc.field(field.key()) {
        None => Ok(None),
        Some(value) => match value.flag() {
            Some(flag) => Ok(Some(flag)),
            None => Err(SchemaCause::WrongType(field)),
        },
    }
}

/// A required list field, undecoded.
pub open spec fn required_items_of(doc: JsonView, field: Field) -> Result<
    Seq<JsonView>,
    SchemaCause,
> {
    match doc.field(field.key()) {
        None => Err(SchemaCause::Missing(field)),
        Some(value) => match value.items() {
            Some(items) => Ok(items),
            None => Err(SchemaCause::WrongType(field)),
        },
    }
}

/// An optional list field, undecoded.
pub open spec fn optional_items_of(doc: JsonView, field: Field) -> Result<
    Option<Seq<JsonView>>,
    SchemaCause,
> {
    match doc.field(field.key()) {
        None => Ok(None),
        Some(value) => match value.items() {
            Some(items) => Ok(Some(items)),
            None => Err(SchemaCause::WrongType(field)),
        },
    }
}

/// A required field that is a list of strings.
pub open spec fn required_texts_of(doc: JsonView, field: Field) -> Result<
    Seq<Seq<char>>,
    SchemaCause,
> {
    required_list_of(doc, field, text_item(field))
}

/// An optional field that is a list of strings.
pub open spec fn optional_texts_of(doc: JsonView, field: Field) -> Result<
    Option<Seq<Seq<char>>>,
    SchemaCause,
> {
    optional_list_of(doc, field, text_item(field))
}

/// Reads a required string field.
pub fn required_text(doc: &Json, field: Field) -> (outcome: Result<String, SchemaCause>)
    ensures
        outcome_view(outcome) == required_text_of(doc@, field),
{
    match doc.get_field(field.wire_name()) {
        None => Err(SchemaCause::Missing(field)),
        Some(value) => match value.as_text() {
            Some(text) => Ok(text.clone()),
            None => Err(SchemaCause::WrongType(field)),
        },
    }
}

/// Reads an optional string field.
pub fn optional_text(doc: &Json, field: Field) -> (outcome: Result<Option<String>, SchemaCause>)
    ensures
        opt_outcome_view(outcome) == optional_text_of(doc@, field),
{
    match doc.get_field(field.wire_name()) {
        None => Ok(None),
        Some(value) => match value.as_text() {
            Some(text) => Ok(Some(text.clone())),
            None => Err(SchemaCause::WrongType(field)),
        },
    }
}

/// Reads an optional boolean field.
pub fn optional_flag(doc: &Json, field: Field) -> (outcome: Result<Option<bool>, SchemaCause>)
    ensures
        outcome == optional_flag_of(doc@, field),
{
    match doc.get_field(field.wire_name()) {
        None => Ok(None),
        Some(value) => match value.as_flag() {
            Some(flag) => Ok(Some(flag)),
            None => Err(SchemaCause::WrongType(field)),
        },
    }
}

/// Reads a required list field and hands out its items undecoded.
pub fn required_items<'a>(doc: &'a Json, field: Field) -> (outcome: Result<
    &'a Vec<Json>,
    SchemaCause,
>)
    ensures
        match outcome {
            Ok(items) => required_items_of(doc@, field) == Ok::<Seq<JsonView>, SchemaCause>(
                json_views(items@),
            ),
            Err(cause) => required_items_of(doc@, field) == Err::<Seq<JsonView>, SchemaCause>(
                cause,
            ),
        },
{
    match doc.get_field(field.wire_name()) {
        None => Err(SchemaCause::Missing(field)),
        Some(value) => match value.as_items() {
            Some(items) => Ok(items),
            None => Err(SchemaCause::WrongType(field)),
        },
    }
}

/// Reads an optional list field and hands out its items undecoded.
pub fn optional_items<'a>(doc: &'a Json, field: Field) -> (outcome: Result<
    Option<&'a Vec<Json>>,
    SchemaCause,
>)
    ensures
        match outcome {
            Ok(Some(items)) => optional_items_of(doc@, field) == Ok::<
                Option<Seq<JsonView>>,
                SchemaCause,
            >(Some(json_views(items@))),
            Ok(None) => optional_items_of(doc@, field) == Ok::<Option<Seq<JsonView>>, SchemaCause>(
                None,
            ),
            Err(cause) => optional_items_of(doc@, field) == Err::<
                Option<Seq<JsonView>>,
                SchemaCause,
            >(cause),
        },
{
    match doc.get_field(field.wire_name()) {
        None => Ok(None),
        Some(value) => match value.as_items() {
            Some(items) => Ok(Some(items)),
            None => Err(SchemaCause::WrongType(field)),
        },
    }
}

/// Reads a list whose items all have to be strings.
pub fn text_list(items: &Vec<Json>, field: Field) -> (outcome: Result<Vec<String>, SchemaCause>)
    ensures
        list_outcome_view(outcome) == texts_of(json_views(items@), field),
{
    let ghost all = json_views(items@);
    let mut texts: Vec<String> = Vec::new();
    let mut i: usize = 0;
    assert(all.take(0) =~= Seq::<JsonView>::empty());
    assert(views_of(texts@) =~= Seq::<Seq<char>>::empty());
    while i < items.len()
        invariant
            i <= items.len(),
            all == json_views(items@),
            texts_of(all.take(i as int), field) == Ok::<Seq<Seq<char>>, SchemaCause>(
                views_of(texts@),
            ),
        decreases items.len() - i,
    {
        proof {
            lemma_decode_all_step(all, text_item(field), i as int);
            assert(all[i as int] == items[i as int]@);
        }
        match items[i].as_text() {
            Some(text) => {
                let ghost before = views_of(texts@);
                texts.push(text.clone());
                assert(views_of(texts@) =~= before.push(text@));
            },
            None => {
                proof {
                    lemma_decode_all_fails_early(all, text_item(field), i + 1);
                }
                return Err(SchemaCause::WrongType(field));
            },
        }
        i += 1;
    }
    assert(all.take(i as int) =~= all);
    Ok(texts)
}

/// Reads a required field that is a list of strings.
pub fn required_texts(doc: &Json, field: Field) -> (outcome: Result<Vec<String>, SchemaCause>)
    ensures
        list_outcome_view(outcome) == required_texts_of(doc@, field),
{
    match required_items(doc, field) {
        Err(cause) => Err(cause),
        Ok(items) => text_list(items, field),
    }
}

/// Reads an optional field that is a list of strings.
pub fn optional_texts(doc: &Json, field: Field) -> (outcome: Result<
    Option<Vec<String>>,
    SchemaCause,
>)
    ensures
        opt_list_outcome_view(outcome) == optional_texts_of(doc@, field),
{
    match optional_items(doc, field) {
        Err(cause) => Err(cause),
        Ok(None) => Ok(None),
        Ok(Some(items)) => match text_list(items, field) {
            Err(cause) => Err(cause),
            Ok(texts) => Ok(Some(texts)),
        },
    }
}

/// Decodes every item of a list with `decode_item`, stopping at the first
/// item that fails.
pub(crate) fn decode_list<T: View, F: Fn(&Json) -> Result<T, SchemaCause>>(
    items: &Vec<Json>,
    decode_item: F,
    Ghost(decode): Ghost<spec_fn(JsonView) -> Result<T::V, SchemaCause>>,
) -> (outcome: Result<Vec<T>, SchemaCause>)
    requires
        forall|item: &Json| call_requires(decode_item, (item,)),
        forall|item: &Json, out: Result<T, SchemaCause>|
            call_ensures(decode_item, (item,), out) ==> outcome_view(out) == decode(item@),
    ensures
        list_outcome_view(outcome) == decode_all(json_views(items@), decode),
{
    let ghost all = json_views(items@);
    let mut decoded: Vec<T> = Vec::new();
    let mut i: usize = 0;
    assert(all.take(0) =~= Seq::<JsonView>::empty());
    assert(views_of(decoded@) =~= Seq::<T::V>::empty());
    while i < items.len()
        invariant
            i <= items.len(),
            all == json_views(items@),
            forall|item: &Json| call_requires(decode_item, (item,)),
            forall|item: &Json, out: Result<T, SchemaCause>|
                call_ensures(decode_item, (item,), out) ==> outcome_view(out) == decode(item@),
            decode_all(all.take(i as int), decode) == Ok::<Seq<T::V>, SchemaCause>(
                views_of(decoded@),
            ),
        decreases items.len() - i,
    {
        proof {
            lemma_decode_all_step(all, decode, i as int);
            assert(all[i as int] == items[i as int]@);
        }
        match decode_item(&items[i]) {
            Ok(value) => {
                let ghost before = views_of(decoded@);
                decoded.push(value);
                assert(views_of(decoded@) =~= before.push(value@));
            },
            Err(cause) => {
                proof {
                    lemma_decode_all_fails_early(all, decode, i + 1);
                }
                return Err(cause);
            },
        }
        i += 1;
    }
    assert(all.take(i as int) =~= all);
    Ok(decoded)
}

/// Reads an optional field that is a list and decodes its items with
/// `decode_item`.
pub(crate) fn optional_list<T: View, F: Fn(&Json) -> Result<T, SchemaCause>>(
    doc: &Json,
    field: Field,
    decode_item: F,
    Ghost(decode): Ghost<spec_fn(JsonView) -> Result<T::V, SchemaCause>>,
) -> (outcome: Result<Option<Vec<T>>, SchemaCause>)
    requires
        forall|item: &Json| call_requires(decode_item, (item,)),
        forall|item: &Json, out: Result<T, SchemaCause>|
            call_ensures(decode_item, (item,), out) ==> outcome_view(out) == decode(item@),
    ensures
        opt_list_outcome_view(outcome) == optional_list_of(doc@, field, decode),
{
    match optional_items(doc, field)? {
        None => Ok(None),
        Some(items) => Ok(Some(decode_list(items, decode_item, Ghost(decode))?)),
    }
}

} // verus!
