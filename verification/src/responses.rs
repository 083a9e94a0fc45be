//! Response post-processing: what the client keeps of a service answer.
//!
//! The client never reorders, filters or invents entries; it only projects
//! fields out of a response and normalizes persona strings, where the empty
//! string stands for "no persona name available".

use vstd::prelude::*;

use crate::messages::{
    LeaderboardEntry, LeaderboardRequestView, LeaderboardResponse, LeaderboardResponseView,
};

verus! {

/// The normalization applied to one persona string from the service: the
/// empty string stands for an absent name, and any non-empty string is kept
/// unchanged as a present name.
pub open spec fn spec_normalize_name(name: Seq<char>) -> Option<Seq<char>> {
    if name.len() == 0 {
        None
    } else {
        Some(name)
    }
}

/// The normalization applied to a whole persona response, position by
/// position.
pub open spec fn spec_normalize_names(names: Seq<Seq<char>>) -> Seq<Option<Seq<char>>> {
    names.map_values(|name: Seq<char>| spec_normalize_name(name))
}

/// The service's documented bound on a range answer: when the requested
/// window is proper, it holds no more entries than the window has room for.
pub open spec fn response_within_window(
    response: LeaderboardResponseView,
    request: LeaderboardRequestView,
) -> bool {
    request.start_index <= request.end_index ==> response.entries.len() <= request.end_index
        - request.start_index + 1
}

/// The service's documented bound on any answer: a sub-range never holds more
/// entries than the whole leaderboard.
pub open spec fn response_within_total(response: LeaderboardResponseView) -> bool {
    response.entries.len() <= response.total_entries
}

/// What an entry count call keeps of the response: `total_entries` alone, the
/// size of the whole leaderboard regardless of the requested sub-range.
pub fn entry_count_from(response: &LeaderboardResponse) -> (count: i32)
    ensures
        count == response.total_entries,
{
    response.total_entries
}

/// What a fetch of every entry keeps of the response: the entry sequence
/// alone, unchanged, with the count discarded.
pub fn entries_from(response: LeaderboardResponse) -> (entries: Vec<LeaderboardEntry>)
    ensures
        entries@ == response.entries@,
{
    response.entries
}

/// Normalizes one persona string from the service.
pub fn normalize_persona_name(name: String) -> (r: Option<String>)
    ensures
        r.deep_view() == spec_normalize_name(name@),
{
    if name.as_str().is_empty() {
        None
    } else {
        Some(name)
    }
}

/// Normalizes a whole persona response: one optional name per returned
/// string, in the same order.
pub fn normalize_persona_names(names: Vec<String>) -> (r: Vec<Option<String>>)
    ensures
        r.deep_view() == spec_normalize_names(names.deep_view()),
{
    let ghost all: Seq<Seq<char>> = names.deep_view();
    let mut remaining: Vec<String> = names;
    let mut normalized: Vec<Option<String>> = Vec::new();
    while remaining.len() > 0
        invariant
            normalized@.len() + remaining@.len() == all.len(),
            forall|i: int|
                0 <= i < normalized@.len() ==> normalized@[i].deep_view() == spec_normalize_name(
                    all[i],
                ),
            forall|j: int|
                0 <= j < remaining@.len() ==> remaining@[j]@ == all[normalized@.len() + j],
        decreases remaining@.len(),
    {
        let name = remaining.remove(0);
        normalized.push(normalize_persona_name(name));
    }
    proof {
        assert(normalized.deep_view() =~= spec_normalize_names(all));
    }
    normalized
}

} // verus!
