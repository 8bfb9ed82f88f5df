//! Small helpers on strings and on the views of optional and repeated values.

use vstd::prelude::*;
use vstd::string::StringExecFns;

verus! {

/// The views of a sequence of values, item by item.
pub open spec fn views_of<T: View>(items: Seq<T>) -> Seq<T::V> {
    Seq::new(items.len(), |i: int| items[i]@)
}

/// The view of an optional value.
pub open spec fn opt_view_of<T: View>(value: Option<T>) -> Option<T::V> {
    match value {
        Some(v) => Some(v@),
        None => None,
    }
}

/// The views of an optional list of values.
pub open spec fn opt_views_of<T: View>(list: Option<Vec<T>>) -> Option<Seq<T::V>> {
    match list {
        Some(items) => Some(views_of(items@)),
        None => None,
    }
}

/// Whether `text` spells exactly `word`.
pub fn text_is(text: &String, word: &str) -> (same: bool)
    ensures
        same == (text@ == word@),
{
    let other = String::from_str(word);
    *text == other
}

} // verus!
