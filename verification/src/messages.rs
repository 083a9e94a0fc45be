//! The message shapes exchanged with the remote service, and their
//! mathematical views.
//!
//! The wire schema is owned by the service; these types mirror its field
//! contract with plain values, so that contracts can speak about exactly
//! what a call sends and receives.

use vstd::prelude::*;

verus! {

/// One ranked record within a leaderboard: the ranked identity, its rank,
/// and its score, as the service reports them.
#[derive(Clone, Debug, PartialEq, Eq)]
pub struct LeaderboardEntry {
    pub steam_id: u64,
    pub rank: i32,
    pub score: i32,
}

/// Mathematical view of a [`LeaderboardEntry`].
pub ghost struct LeaderboardEntryView {
    pub steam_id: u64,
    pub rank: int,
    pub score: int,
}

impl View for LeaderboardEntry {
    type V = LeaderboardEntryView;

    open spec fn view(&self) -> LeaderboardEntryView {
        LeaderboardEntryView {
            steam_id: self.steam_id,
            rank: self.rank as int,
            score: self.score as int,
        }
    }
}

impl DeepView for LeaderboardEntry {
    type V = LeaderboardEntryView;

    open spec fn deep_view(&self) -> LeaderboardEntryView {
        self.view()
    }
}

/// A request for a range of leaderboard entries. The bounds are 1-based and
/// inclusive; index 0 in both positions is the service's sentinel for "report
/// the count only".
#[derive(Clone, Debug, PartialEq, Eq)]
pub struct LeaderboardRequest {
    pub leaderboard_name: String,
    pub start_index: i32,
    pub end_index: i32,
}

/// Mathematical view of a [`LeaderboardRequest`].
pub ghost struct LeaderboardRequestView {
    pub leaderboard_name: Seq<char>,
    pub start_index: int,
    pub end_index: int,
}

impl View for LeaderboardRequest {
    type V = LeaderboardRequestView;

    open spec fn view(&self) -> LeaderboardRequestView {
        LeaderboardRequestView {
            leaderboard_name: self.leaderboard_name@,
            start_index: self.start_index as int,
            end_index: self.end_index as int,
        }
    }
}

/// The service's answer to a [`LeaderboardRequest`]: the entries of the
/// requested range, and the total number of entries on the whole leaderboard
/// regardless of the requested sub-range.
#[derive(Clone, Debug, PartialEq, Eq)]
pub struct LeaderboardResponse {
    pub entries: Vec<LeaderboardEntry>,
    pub total_entries: i32,
}

/// Mathematical view of a [`LeaderboardResponse`].
pub ghost struct LeaderboardResponseView {
    pub entries: Seq<LeaderboardEntryView>,
    pub total_entries: int,
}

impl View for LeaderboardResponse {
    type V = LeaderboardResponseView;

    open spec fn view(&self) -> LeaderboardResponseView {
        LeaderboardResponseView {
            entries: self.entries.deep_view(),
            total_entries: self.total_entries as int,
        }
    }
}

/// A batch lookup of display names for a set of numeric identities.
#[derive(Clone, Debug, PartialEq, Eq)]
pub struct PersonaRequest {
    pub steam_ids: Vec<u64>,
}

impl View for PersonaRequest {
    type V = Seq<u64>;

    open spec fn view(&self) -> Seq<u64> {
        self.steam_ids@
    }
}

/// The service's answer to a [`PersonaRequest`]: one string per requested
/// identity, in request order, where the empty string stands for "no persona
/// name available".
#[derive(Clone, Debug, PartialEq, Eq)]
pub struct PersonaResponse {
    pub persona_names: Vec<String>,
}

impl View for PersonaResponse {
    type V = Seq<Seq<char>>;

    open spec fn view(&self) -> Seq<Seq<char>> {
        self.persona_names.deep_view()
    }
}

} // verus!
