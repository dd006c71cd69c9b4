//! Lists of texts: the roles, tags and identifiers that entities carry.

use rayon::iter::{IntoParallelRefIterator, ParallelIterator};
use vstd::prelude::*;

verus! {

/// The characters of each borrowed text, in order.
pub open spec fn borrowed_texts(items: Seq<&str>) -> Seq<Seq<char>> {
    Seq::new(items.len(), |i: int| items[i]@)
}

/// The characters of each owned text, in order.
pub open spec fn owned_texts(items: Seq<String>) -> Seq<Seq<char>> {
    Seq::new(items.len(), |i: int| items[i]@)
}

/// The length of `text` in bytes of UTF-8, which is what lengths of entity
/// fields are measured in.
pub open spec fn byte_len(text: Seq<char>) -> nat {
    vstd::utf8::encode_utf8(text).len()
}

/// The length of `text` in bytes.
pub fn text_len(text: &str) -> (len: usize)
    ensures
        len == byte_len(text@),
{
    text.as_bytes().len()
}

/// An owned copy of `text`.
pub fn to_owned_text(text: &str) -> (owned: String)
    ensures
        owned@ == text@,
{
    text.to_owned()
}

/// Copies every text with rayon's `par_iter().map(..).collect()`, which may
/// spread the copies over worker threads.
/// Trusted: collecting an indexed parallel iterator into a `Vec` puts the
/// result for the item at each position at that same position, so the copies
/// stand in the order of `items`, one for each.
#[verifier::external_body]
pub(crate) fn to_owned_texts(items: &Vec<&str>) -> (owned: Vec<String>)
    ensures
        owned_texts(owned@) == borrowed_texts(items@),
{
    items.par_iter().map(|&item| to_owned_text(item)).collect()
}

} // verus!
