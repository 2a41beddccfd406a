//! The redaction cache: the last non-empty detection result.

use vstd::prelude::*;
use crate::types::{matches_view, MatchView, SensitiveMatch};

verus! {

/// What the cache holds after it is offered `fresh`: `fresh` itself when it
/// is non-empty, otherwise what it held before.
pub open spec fn cache_after(cached: Seq<MatchView>, fresh: Seq<MatchView>) -> Seq<MatchView> {
    if fresh.len() > 0 {
        fresh
    } else {
        cached
    }
}

/// What the cache holds after it is offered each of `results` in turn.
pub open spec fn cache_after_all(cached: Seq<MatchView>, results: Seq<Seq<MatchView>>) -> Seq<
    MatchView,
>
    decreases results.len(),
{
    if results.len() == 0 {
        cached
    } else {
        cache_after(cache_after_all(cached, results.drop_last()), results.last())
    }
}

/// Holds the matches that are currently redacted.
pub struct RedactionCache {
    matches: Vec<SensitiveMatch>,
}

impl View for RedactionCache {
    type V = Seq<MatchView>;

    closed spec fn view(&self) -> Seq<MatchView> {
        matches_view(self.matches@)
    }
}

impl RedactionCache {
    /// A cache that holds nothing.
    pub fn new() -> (cache: RedactionCache)
        ensures
            cache@ == Seq::<MatchView>::empty(),
    {
        let cache = RedactionCache { matches: Vec::new() };
        assert(cache@ =~= Seq::<MatchView>::empty());
        cache
    }

    /// Replaces the cached matches by `new_matches` when that is non-empty,
    /// and leaves the cache as it is otherwise.
    pub fn update(&mut self, new_matches: Vec<SensitiveMatch>)
        ensures
            final(self)@ == cache_after(old(self)@, matches_view(new_matches@)),
    {
        if !new_matches.is_empty() {
            self.matches = new_matches;
        }
    }

    /// The cached matches.
    pub fn matches(&self) -> (matches: &Vec<SensitiveMatch>)
        ensures
            matches_view(matches@) == self@,
    {
        &self.matches
    }

    /// Whether the cache holds nothing.
    pub fn is_empty(&self) -> (empty: bool)
        ensures
            empty == (self@.len() == 0),
    {
        self.matches.is_empty()
    }

    /// How many matches the cache holds.
    pub fn len(&self) -> (len: usize)
        ensures
            len == self@.len(),
    {
        self.matches.len()
    }
}

/// Offering the cache empty results, however many, leaves it as it was.
pub proof fn lemma_empty_results_keep_cache(cached: Seq<MatchView>, results: Seq<Seq<MatchView>>)
    requires
        forall|i: int| 0 <= i < results.len() ==> (#[trigger] results[i]).len() == 0,
    ensures
        cache_after_all(cached, results) == cached,
    decreases results.len(),
{
    if results.len() > 0 {
        lemma_empty_results_keep_cache(cached, results.drop_last());
    }
}

/// After one non-empty result, followed by any number of empty ones, the
/// cache holds exactly that non-empty result.
pub proof fn lemma_cache_keeps_last_detection(
    cached: Seq<MatchView>,
    detected: Seq<MatchView>,
    later: Seq<Seq<MatchView>>,
)
    requires
        detected.len() > 0,
        forall|i: int| 0 <= i < later.len() ==> (#[trigger] later[i]).len() == 0,
    ensures
        cache_after_all(cache_after(cached, detected), later) == detected,
        cache_after_all(cache_after(cached, detected), later) == cache_after(cached, detected),
{
    lemma_empty_results_keep_cache(cache_after(cached, detected), later);
}

/// The cache never loses matches to an empty result: whatever it is offered,
/// it is empty afterwards only if it was empty before and was offered nothing.
pub proof fn lemma_cache_never_cleared(cached: Seq<MatchView>, fresh: Seq<MatchView>)
    ensures
        cache_after(cached, fresh).len() == 0 ==> cached.len() == 0 && fresh.len() == 0,
{
}

} // verus!
