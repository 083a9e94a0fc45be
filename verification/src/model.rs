//! A ghost model of one request/response exchange, and the laws of the
//! client built on it.
//!
//! The remote service owns all storage and ranking, so nothing can be proved
//! about the values it answers with; what can be proved is how the client
//! behaves around it. A service is modeled as a function from request to
//! response, standing for the answer one exchange yields; each client
//! operation is then the composition of the request it sends
//! ([`crate::requests`]) and the projection it keeps of the answer
//! ([`crate::responses`]).

use vstd::prelude::*;

use crate::messages::{LeaderboardEntryView, LeaderboardResponseView};
use crate::requests::{spec_all_request, spec_count_request, spec_range_request};
use crate::responses::{
    response_within_total, response_within_window, spec_normalize_name, spec_normalize_names,
};

verus! {

/// A leaderboard service, modeled as the answer each request yields.
pub type LeaderboardService = spec_fn(crate::messages::LeaderboardRequestView) -> LeaderboardResponseView;

/// A persona service, modeled as the strings a batch of identities yields.
pub type PersonaService = spec_fn(Seq<u64>) -> Seq<Seq<char>>;

/// What an entry count call returns against the given service: the
/// `total_entries` of the answer to the count request.
pub open spec fn spec_entry_count(service: LeaderboardService, name: Seq<char>) -> int {
    service(spec_count_request(name)).total_entries
}

/// What a range call returns against the given service: the answer to the
/// range request, unchanged.
pub open spec fn spec_entries_range(
    service: LeaderboardService,
    name: Seq<char>,
    start_index: int,
    end_index: int,
) -> LeaderboardResponseView {
    service(spec_range_request(name, start_index, end_index))
}

/// What a fetch of every entry returns against the given service: the entries
/// of the answer to the widest request, with the count discarded.
pub open spec fn spec_entries_all(service: LeaderboardService, name: Seq<char>) -> Seq<
    LeaderboardEntryView,
> {
    service(spec_all_request(name)).entries
}

/// What a persona call returns against the given service: the answered
/// strings, each normalized.
pub open spec fn spec_persona_names(service: PersonaService, steam_ids: Seq<u64>) -> Seq<
    Option<Seq<char>>,
> {
    spec_normalize_names(service(steam_ids))
}

/// Counting sends the sentinel window: against any service, the entry count
/// of a leaderboard equals `total_entries` of a direct range call with both
/// indices zero.
pub proof fn lemma_entry_count_matches_range(service: LeaderboardService, name: Seq<char>)
    ensures
        spec_entry_count(service, name) == spec_entries_range(service, name, 0, 0).total_entries,
{
}

/// A range call hands the service's entries back unchanged, so when the
/// service honors a proper window, the call returns at most
/// `end_index - start_index + 1` entries.
pub proof fn lemma_range_entries_within_window(
    service: LeaderboardService,
    name: Seq<char>,
    start_index: int,
    end_index: int,
)
    requires
        start_index <= end_index,
        response_within_window(
            spec_entries_range(service, name, start_index, end_index),
            spec_range_request(name, start_index, end_index),
        ),
    ensures
        spec_entries_range(service, name, start_index, end_index).entries.len() <= end_index
            - start_index + 1,
{
}

/// A fetch of every entry keeps the service's entries unchanged, so when the
/// service answers no more entries than the leaderboard holds, the fetched
/// count never exceeds `total_entries` of that answer.
pub proof fn lemma_all_entries_within_total(service: LeaderboardService, name: Seq<char>)
    requires
        response_within_total(service(spec_all_request(name))),
    ensures
        spec_entries_all(service, name).len() <= service(
            spec_all_request(name),
        ).total_entries,
{
}

/// One answer per requested identity, in request order: when the service
/// answers one string per identity, the persona call returns exactly one
/// optional name per identity, and position `i` of the output is the
/// normalization of the service's string for position `i` of the input.
pub proof fn lemma_persona_names_positional(
    service: PersonaService,
    steam_ids: Seq<u64>,
)
    requires
        service(steam_ids).len() == steam_ids.len(),
    ensures
        spec_persona_names(service, steam_ids).len() == steam_ids.len(),
        forall|i: int|
            0 <= i < steam_ids.len() ==> spec_persona_names(service, steam_ids)[i]
                == spec_normalize_name(service(steam_ids)[i]),
{
}

/// Normalization round-trip: the empty string the service answers for an
/// identity always maps to an absent name, and any non-empty string maps to a
/// present name equal to the original.
pub proof fn lemma_normalize_round_trip(name: Seq<char>)
    ensures
        name.len() == 0 ==> spec_normalize_name(name) is None,
        name.len() > 0 ==> spec_normalize_name(name) == Some(name),
{
}

} // verus!
