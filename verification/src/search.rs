//! The search filter of the record list: a record is listed where the query,
//! without regard to case, occurs in its site or in its user name.

use crate::entry::{EntryView, PasswordEntry};
use vstd::prelude::*;

verus! {

/// The text that `str::to_lowercase` returns for a text.
pub uninterp spec fn lowercase_of(text: Seq<char>) -> Seq<char>;

/// `str::to_lowercase`: the lowercase form of the text, by Unicode's rules.
pub assume_specification[ str::to_lowercase ](text: &str) -> (r: String)
    ensures
        r@ == lowercase_of(text@),
;

/// `needle` stands in `text` from the position `start` on.
pub open spec fn occurs_at(needle: Seq<char>, text: Seq<char>, start: int) -> bool {
    &&& 0 <= start
    &&& start + needle.len() <= text.len()
    &&& text.subrange(start, start + needle.len()) == needle
}

/// `needle` stands somewhere in `text`. The empty text stands in every text.
pub open spec fn occurs_in(needle: Seq<char>, text: Seq<char>) -> bool {
    exists|start: int| occurs_at(needle, text, start)
}

/// `str::contains` with a string as the pattern: whether the pattern equals
/// some part of the text, both taken as sequences of characters.
#[verifier::external_body]
fn text_contains(text: &str, needle: &str) -> (r: bool)
    ensures
        r == occurs_in(needle@, text@),
{
    text.contains(needle)
}

/// Whether a record is listed under a query: always under the empty query,
/// else where the lowercase query occurs in the lowercase site or in the
/// lowercase user name.
pub open spec fn listed(entry: EntryView, query: Seq<char>) -> bool {
    ||| query.len() == 0
    ||| occurs_in(lowercase_of(query), lowercase_of(entry.site))
    ||| occurs_in(lowercase_of(query), lowercase_of(entry.username))
}

/// Whether the query occurs in the site or in the user name, as the three
/// texts are given: no case is folded here.
pub fn occurs_in_either(query: &str, site: &str, username: &str) -> (r: bool)
    ensures
        r == (occurs_in(query@, site@) || occurs_in(query@, username@)),
{
    text_contains(site, query) || text_contains(username, query)
}

/// Whether the record is listed under the query.
pub fn matches_search(entry: &PasswordEntry, query: &str) -> (r: bool)
    ensures
        r == listed(entry@, query@),
{
    if query.is_empty() {
        return true;
    }
    let wanted = query.to_lowercase();
    let site = entry.site.as_str().to_lowercase();
    let username = entry.username.as_str().to_lowercase();
    occurs_in_either(wanted.as_str(), site.as_str(), username.as_str())
}

} // verus!
