use aliceandbob::config::{AgentEntry, Config, ServerConfig};
use aliceandbob::population::{next_generation, pairings, plan_generation, PopulationError};
use aliceandbob::store::{
    abandoned_message, abandoned_on_watch, effective_limit, generation_from_meta,
    generation_to_meta, interrupted_message, is_active_status, MatchStatus, ReplayCursor,
};

fn agent(id: &str, role: &str) -> AgentEntry {
    AgentEntry {
        id: id.to_string(),
        name: id.to_string(),
        role: role.to_string(),
        provider: "p".to_string(),
        model: "m".to_string(),
        persona: String::new(),
    }
}

#[test]
fn every_pair_meets_the_number_of_times_asked() {
    assert_eq!(pairings(3, 2), vec![(0, 1), (0, 1), (0, 2), (0, 2), (1, 2), (1, 2)]);
    // at least once per pairing
    assert_eq!(pairings(3, 0), vec![(0, 1), (0, 2), (1, 2)]);
    assert_eq!(pairings(4, 1).len(), 6);
    assert_eq!(pairings(5, 3).len(), 30);
    assert!(pairings(1, 5).is_empty());
    assert!(pairings(0, 5).is_empty());
}

#[test]
fn a_generation_needs_a_game_master() {
    let config = Config::new(ServerConfig::default(), vec![agent("a", "player"), agent("b", "player")]);
    match plan_generation(&config, 1) {
        Err(e) => {
            assert!(matches!(e, PopulationError::NoGameMaster));
            assert_eq!(e.message(), "no game_master agent configured");
        }
        Ok(_) => panic!("expected an error"),
    }
}

#[test]
fn a_generation_pairs_the_players_by_id() {
    let config = Config::new(
        ServerConfig::default(),
        vec![agent("a", "player"), agent("gm", "gm"), agent("b", "player"), agent("c", "player")],
    );
    let plan = match plan_generation(&config, 1) {
        Ok(p) => p,
        Err(_) => panic!("a game master is configured"),
    };
    assert_eq!(plan.gm_id, "gm");
    let expected: Vec<(String, String)> = vec![("a", "b"), ("a", "c"), ("b", "c")]
        .into_iter()
        .map(|(x, y)| (x.to_string(), y.to_string()))
        .collect();
    assert_eq!(plan.matches, expected);
}

#[test]
fn generations_count_up() {
    assert_eq!(next_generation(0), Some(1));
    assert_eq!(next_generation(41), Some(42));
    assert_eq!(next_generation(u32::MAX), None);
}

#[test]
fn stored_generation_reads_back() {
    for g in [0u32, 1, 9, 10, 4096, u32::MAX] {
        let stored = generation_to_meta(g);
        assert_eq!(stored, g.to_string());
        assert_eq!(generation_from_meta(Some(&stored)), g);
    }
    assert_eq!(generation_from_meta(None), 0);
    assert_eq!(generation_from_meta(Some("garbage")), 0);
    assert_eq!(generation_from_meta(Some("-4")), 0);
    assert_eq!(generation_from_meta(Some("99999999999")), 0);
}

#[test]
fn statuses_and_their_codes() {
    let all = [
        MatchStatus::Unspecified,
        MatchStatus::Pending,
        MatchStatus::GeneratingGame,
        MatchStatus::InProgress,
        MatchStatus::Reflecting,
        MatchStatus::Completed,
        MatchStatus::Failed,
    ];
    for s in all {
        assert_eq!(MatchStatus::from_code(s.code()), s);
    }
    assert_eq!(MatchStatus::from_code(42), MatchStatus::Unspecified);
    assert_eq!(MatchStatus::from_code(-1), MatchStatus::Unspecified);
    assert!(is_active_status(MatchStatus::Pending));
    assert!(is_active_status(MatchStatus::GeneratingGame));
    assert!(is_active_status(MatchStatus::InProgress));
    assert!(is_active_status(MatchStatus::Reflecting));
    assert!(!is_active_status(MatchStatus::Completed));
    assert!(!is_active_status(MatchStatus::Failed));
    assert!(!is_active_status(MatchStatus::Unspecified));
}

#[test]
fn listing_limit_defaults_to_fifty() {
    assert_eq!(effective_limit(0), 50);
    assert_eq!(effective_limit(7), 7);
}

#[test]
fn watchers_fail_abandoned_matches() {
    assert!(abandoned_on_watch(false, MatchStatus::InProgress));
    assert!(!abandoned_on_watch(true, MatchStatus::InProgress));
    assert!(!abandoned_on_watch(false, MatchStatus::Completed));
    assert_eq!(abandoned_message(), "Match is no longer running (server restarted or the task ended).");
    assert_eq!(interrupted_message(), "Match interrupted (server restarted while this match was running).");
}

#[test]
fn replay_passes_each_event_once() {
    let mut cursor = ReplayCursor::new();
    assert_eq!(cursor.last_seq, -1);
    for seq in 0..3 {
        cursor.replayed(seq);
    }
    let live = [1i64, 2, 3, 3, 4, 2, 6];
    let passed: Vec<i64> = live.iter().copied().filter(|s| cursor.admit_live(*s)).collect();
    assert_eq!(passed, vec![3, 4, 6]);
}
