//! Request marshaling: what each client operation sends to the service.
//!
//! Every operation of the client reduces to one request value. The spec
//! functions here pin that value down exactly, and the executable builders
//! are proved to produce it.

use vstd::prelude::*;

use crate::messages::{LeaderboardRequest, LeaderboardRequestView, PersonaRequest};

verus! {

/// The request behind a range fetch: the leaderboard's name and the 1-based
/// inclusive window `[start_index, end_index]`.
pub open spec fn spec_range_request(
    leaderboard_name: Seq<char>,
    start_index: int,
    end_index: int,
) -> LeaderboardRequestView {
    LeaderboardRequestView { leaderboard_name, start_index, end_index }
}

/// The request behind an entry count: the range request with both indices
/// zero, the service's sentinel for "report the count only".
pub open spec fn spec_count_request(leaderboard_name: Seq<char>) -> LeaderboardRequestView {
    spec_range_request(leaderboard_name, 0, 0)
}

/// The request behind a fetch of every entry: the window from the first index
/// up to the largest representable index, relying on the service to clamp the
/// upper bound to the leaderboard's actual size.
pub open spec fn spec_all_request(leaderboard_name: Seq<char>) -> LeaderboardRequestView {
    spec_range_request(leaderboard_name, 1, i32::MAX as int)
}

/// Builds the request for a range of entries of the named leaderboard.
pub fn range_request(leaderboard_name: &str, start_index: i32, end_index: i32) -> (r:
    LeaderboardRequest)
    ensures
        r@ == spec_range_request(leaderboard_name@, start_index as int, end_index as int),
{
    LeaderboardRequest {
        leaderboard_name: String::from_str(leaderboard_name),
        start_index,
        end_index,
    }
}

/// Builds the request for the entry count of the named leaderboard.
pub fn count_request(leaderboard_name: &str) -> (r: LeaderboardRequest)
    ensures
        r@ == spec_count_request(leaderboard_name@),
{
    range_request(leaderboard_name, 0, 0)
}

/// Builds the request for every entry of the named leaderboard.
pub fn all_request(leaderboard_name: &str) -> (r: LeaderboardRequest)
    ensures
        r@ == spec_all_request(leaderboard_name@),
{
    range_request(leaderboard_name, 1, i32::MAX)
}

/// Builds the batch lookup request for the given identities, in the given
/// order.
pub fn persona_request(steam_ids: Vec<u64>) -> (r: PersonaRequest)
    ensures
        r@ == steam_ids@,
{
    PersonaRequest { steam_ids }
}

} // verus!
