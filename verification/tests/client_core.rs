use distance_steam_data_client::messages::{LeaderboardEntry, LeaderboardResponse, PersonaResponse};
use distance_steam_data_client::requests::{
    all_request, count_request, persona_request, range_request,
};
use distance_steam_data_client::responses::{
    entries_from, entry_count_from, normalize_persona_name, normalize_persona_names,
};

fn sample_entry(steam_id: u64, rank: i32, score: i32) -> LeaderboardEntry {
    LeaderboardEntry {
        steam_id,
        rank,
        score,
    }
}

#[test]
fn count_request_uses_count_sentinel() {
    let counting = count_request("global");
    let direct = range_request("global", 0, 0);
    assert_eq!(counting, direct);
    assert_eq!(counting.leaderboard_name, "global");
    assert_eq!(counting.start_index, 0);
    assert_eq!(counting.end_index, 0);
}

#[test]
fn range_request_carries_window() {
    let request = range_request("sprint", 1, 10);
    assert_eq!(request.leaderboard_name, "sprint");
    assert_eq!(request.start_index, 1);
    assert_eq!(request.end_index, 10);
}

#[test]
fn all_request_spans_whole_leaderboard() {
    let request = all_request("global");
    assert_eq!(request.leaderboard_name, "global");
    assert_eq!(request.start_index, 1);
    assert_eq!(request.end_index, i32::MAX);
}

#[test]
fn persona_request_keeps_ids_in_order() {
    let request = persona_request(vec![9, 7, 8]);
    assert_eq!(request.steam_ids, vec![9, 7, 8]);
}

#[test]
fn entry_count_is_total_entries() {
    let response = LeaderboardResponse {
        entries: vec![sample_entry(11, 1, 5000)],
        total_entries: 42,
    };
    assert_eq!(entry_count_from(&response), 42);
}

#[test]
fn entries_pass_through_unchanged() {
    let first = sample_entry(11, 1, 5000);
    let second = sample_entry(12, 2, 4800);
    let response = LeaderboardResponse {
        entries: vec![first.clone(), second.clone()],
        total_entries: 42,
    };
    assert_eq!(entries_from(response), vec![first, second]);
}

#[test]
fn count_only_range_scenario() {
    let request = range_request("global", 0, 0);
    assert_eq!(request.leaderboard_name, "global");
    assert_eq!(request.start_index, 0);
    assert_eq!(request.end_index, 0);

    let response = LeaderboardResponse {
        entries: vec![],
        total_entries: 42,
    };
    assert!(response.entries.is_empty());
    assert_eq!(response.total_entries, 42);
    assert_eq!(entry_count_from(&response), 42);
}

#[test]
fn persona_names_scenario() {
    let request = persona_request(vec![1, 2, 3]);
    assert_eq!(request.steam_ids, vec![1, 2, 3]);

    let answered = PersonaResponse {
        persona_names: vec!["Alice".to_string(), String::new(), "Bob".to_string()],
    };
    let normalized = normalize_persona_names(answered.persona_names);
    assert_eq!(
        normalized,
        vec![Some("Alice".to_string()), None, Some("Bob".to_string())]
    );
}

#[test]
fn empty_name_is_absent() {
    assert_eq!(normalize_persona_name(String::new()), None);
}

#[test]
fn nonempty_name_round_trips() {
    assert_eq!(
        normalize_persona_name("Alice".to_string()),
        Some("Alice".to_string())
    );
}

#[test]
fn persona_output_matches_input_positionally() {
    let answered = vec![
        "one".to_string(),
        String::new(),
        "three".to_string(),
        String::new(),
    ];
    let normalized = normalize_persona_names(answered.clone());
    assert_eq!(normalized.len(), answered.len());
    for (i, name) in answered.iter().enumerate() {
        if name.is_empty() {
            assert_eq!(normalized[i], None);
        } else {
            assert_eq!(normalized[i], Some(name.clone()));
        }
    }
}

#[test]
fn no_names_normalize_to_nothing() {
    let normalized = normalize_persona_names(vec![]);
    assert!(normalized.is_empty());
}
