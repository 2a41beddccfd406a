//! The boundary to the regular-expression engine.

use vstd::prelude::*;

verus! {

/// Where the regular-expression engine finds `pattern` in `text`: `None` when
/// the engine rejects the pattern, else the matches in the order in which the
/// engine reports them, each as the positions of its first character and of
/// the character after its last, counted in characters of `text`.
pub uninterp spec fn regex_find_spans(pattern: Seq<char>, text: Seq<char>) -> Option<
    Seq<(int, int)>,
>;

/// Whether `spans` lie inside a text of `len` characters, one after the
/// other from left to right, without overlapping.
pub open spec fn spans_in_order(spans: Seq<(int, int)>, len: int) -> bool {
    &&& forall|i: int| 0 <= i < spans.len() ==> 0 <= (#[trigger] spans[i]).0 <= spans[i].1 <= len
    &&& forall|i: int, j: int|
        0 <= i < j < spans.len() ==> (#[trigger] spans[i]).1 <= (#[trigger] spans[j]).0
}

/// The pieces of `text` that `spans` delimit, in the same order.
pub open spec fn texts_at(text: Seq<char>, spans: Seq<(int, int)>) -> Seq<Seq<char>> {
    Seq::new(spans.len(), |i: int| text.subrange(spans[i].0, spans[i].1))
}

/// The character sequences that a vector of strings holds.
pub open spec fn texts_view(texts: Seq<String>) -> Seq<Seq<char>> {
    Seq::new(texts.len(), |i: int| texts[i]@)
}

/// Whether the matches of `pattern` in `text`, if the engine accepts the
/// pattern, lie in `text` from left to right without overlapping.
pub open spec fn found_in_order(pattern: Seq<char>, text: Seq<char>) -> bool {
    match regex_find_spans(pattern, text) {
        Some(spans) => spans_in_order(spans, text.len() as int),
        None => true,
    }
}

/// What the regular-expression engine finds for `pattern` in `text`: `None`
/// when the engine rejects the pattern, else the matched pieces of `text`.
pub open spec fn regex_find_all(pattern: Seq<char>, text: Seq<char>) -> Option<Seq<Seq<char>>> {
    match regex_find_spans(pattern, text) {
        Some(spans) => Some(texts_at(text, spans)),
        None => None,
    }
}

/// Compiles `pattern` with `regex::Regex::new` and collects what
/// `Regex::find_iter` yields on `text`, each match as the substring that
/// `Match::as_str` gives. The contract names the places of the matches and
/// claims of them what the engine documents: a pattern it refuses to compile
/// gives `None`; otherwise the matches are successive and non-overlapping,
/// each starts and ends between two characters of `text`, and the strings
/// returned are the pieces of `text` in those places.
#[verifier::external_body]
pub(crate) fn find_all(pattern: &str, text: &str) -> (found: Option<Vec<String>>)
    ensures
        match found {
            Some(texts) => regex_find_spans(pattern@, text@) matches Some(spans) && spans_in_order(
                spans,
                text@.len() as int,
            ) && texts_view(texts@) == texts_at(text@, spans),
            None => regex_find_spans(pattern@, text@) is None,
        },
{
    match regex::Regex::new(pattern) {
        Ok(compiled) => Some(compiled.find_iter(text).map(|m| m.as_str().to_string()).collect()),
        Err(_) => None,
    }
}

} // verus!
