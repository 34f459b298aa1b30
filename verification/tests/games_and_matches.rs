use aliceandbob::engine::{Adjudicator, MatchCommand, MatchEvent, MatchMachine, Phase, Side};
use aliceandbob::json::JsonDoc;
use aliceandbob::game::{new_spec_from_json, score_from_matrix, spec_from_json, GameSpec, PayoffEntry, TurnStructure};
use aliceandbob::prompts::{
    action_from_json, adjudication_from_json, adjudication_request_prompt, game_request_messages,
    game_request_prompt, player_failure_message, player_messages, player_reply_schema_text,
    reflection_request_prompt, render_history, Action, Adjudication, RoundSummary, GM_SYSTEM_PROMPT,
};

const DILEMMA: &str = r#"{"title":"Dilemma","rules_text":"Cooperate or defect.","turn_structure":"simultaneous","num_rounds":2,"action_schema":{"type":"object","properties":{"move":{"enum":["C","D"]}}},"payoff_description":"Classic.","payoff_matrix":[{"action_a":"C","action_b":"C","score_a":3,"score_b":3},{"action_a":"C","action_b":"D","score_a":0,"score_b":5},{"action_a":"D","action_b":"C","score_a":5,"score_b":0},{"action_a":"D","action_b":"D","score_a":1,"score_b":1}]}"#;

fn doc(text: &str) -> JsonDoc {
    match JsonDoc::parse(text.to_string()) {
        Some(d) => d,
        None => panic!("test documents parse"),
    }
}

fn dilemma() -> GameSpec {
    spec_from_json(&doc(DILEMMA), "game-1".to_string())
}

fn action(agent: &str, round: u32, json: &str) -> Action {
    Action { agent_id: agent.to_string(), round, action_json: json.to_string(), private_reasoning: String::new() }
}

#[test]
fn spec_is_read_from_the_game_masters_reply() {
    let spec = dilemma();
    assert_eq!(spec.id, "game-1");
    assert_eq!(spec.title, "Dilemma");
    assert_eq!(spec.rules_text, "Cooperate or defect.");
    assert_eq!(spec.turn_structure, TurnStructure::Simultaneous);
    assert_eq!(spec.num_rounds, 2);
    assert_eq!(spec.payoff_description, "Classic.");
    assert_eq!(spec.payoff_matrix.len(), 4);
    assert_eq!(spec.payoff_matrix[1].action_a, "C");
    assert_eq!(spec.payoff_matrix[1].action_b, "D");
    assert_eq!(spec.payoff_matrix[1].score_a, "0");
    assert_eq!(spec.payoff_matrix[1].score_b, "5");
    let schema: serde_json::Value = serde_json::from_str(&spec.action_schema_json).unwrap();
    assert_eq!(schema["properties"]["move"]["enum"][1], "D");
}

#[test]
fn spec_falls_back_to_defaults() {
    let spec = spec_from_json(&doc(r#"{"turn_structure":"alternating","payoff_matrix":[{"action_a":1}]}"#), "g".to_string());
    assert_eq!(spec.title, "");
    assert_eq!(spec.turn_structure, TurnStructure::Alternating);
    assert_eq!(spec.num_rounds, 5);
    assert_eq!(spec.action_schema_json, "null");
    assert_eq!(spec.payoff_matrix.len(), 1);
    assert_eq!(spec.payoff_matrix[0].action_a, "");
    assert_eq!(spec.payoff_matrix[0].score_a, "null");
    let other = spec_from_json(&doc(r#"{"turn_structure":"sequential","num_rounds":4294967301}"#), "g".to_string());
    assert_eq!(other.turn_structure, TurnStructure::Simultaneous);
    assert_eq!(other.num_rounds, 5);
    assert_eq!(spec_from_json(&doc(r#"{"num_rounds":-3}"#), "g".to_string()).num_rounds, 5);
    assert_eq!(new_spec_from_json(&doc(DILEMMA)).id.len(), 36);
}

#[test]
fn fresh_game_ids_are_version_4_uuids() {
    let first = new_spec_from_json(&doc(DILEMMA)).id;
    let second = new_spec_from_json(&doc(DILEMMA)).id;
    assert_ne!(first, second);
    for id in [first, second] {
        let chars: Vec<char> = id.chars().collect();
        assert_eq!(chars.len(), 36);
        for (i, c) in chars.iter().enumerate() {
            if i == 8 || i == 13 || i == 18 || i == 23 {
                assert_eq!(*c, '-');
            } else {
                assert!(c.is_ascii_digit() || ('a'..='f').contains(c));
            }
        }
        assert_eq!(chars[14], '4');
        assert!(['8', '9', 'a', 'b'].contains(&chars[19]));
    }
}

#[test]
fn matrix_scores_rounds_it_covers() {
    let spec = dilemma();
    let scored = score_from_matrix(&spec, r#"{"move":"D"}"#, r#"{"move":"C"}"#);
    assert_eq!(scored, Some(("5".to_string(), "0".to_string())));
    assert_eq!(score_from_matrix(&spec, r#"{"move":"X"}"#, r#"{"move":"C"}"#), None);
    assert_eq!(score_from_matrix(&spec, r#"{"bid":3}"#, r#"{"move":"C"}"#), None);
    assert_eq!(score_from_matrix(&spec, "garbage", r#"{"move":"C"}"#), None);
    let mut empty = dilemma();
    empty.payoff_matrix = Vec::new();
    assert_eq!(score_from_matrix(&empty, r#"{"move":"D"}"#, r#"{"move":"C"}"#), None);
    let mut dup = dilemma();
    dup.payoff_matrix.push(PayoffEntry {
        action_a: "C".to_string(),
        action_b: "C".to_string(),
        score_a: "9".to_string(),
        score_b: "9".to_string(),
    });
    assert_eq!(score_from_matrix(&dup, r#"{"move":"C"}"#, r#"{"move":"C"}"#), Some(("3".to_string(), "3".to_string())));
}

#[test]
fn game_master_prompts() {
    assert_eq!(game_request_prompt("", ""), "Design a new game for Alice and Bob.");
    assert_eq!(
        game_request_prompt("auctions", "A won twice"),
        "Design a new game for Alice and Bob.\n\nDesign hint from the operator: auctions\n\nResults of recent games between these players:\nA won twice\nDesign a game that probes weaknesses you observe."
    );
    let messages = game_request_messages("", "");
    assert_eq!(messages.len(), 2);
    assert_eq!(messages[0].content, GM_SYSTEM_PROMPT);
    assert!(GM_SYSTEM_PROMPT.starts_with("You are the Game Master of an LLM game-theory arena."));
    assert_eq!(
        adjudication_request_prompt(&dilemma(), 2, "{\"x\":1}", "{\"x\":2}", "h"),
        "Round 2 of 2.\n\nHistory so far:\nh\n\nPlayer A action: {\"x\":1}\nPlayer B action: {\"x\":2}\n\nScore this round."
    );
    let verdict = adjudication_from_json(&doc(r#"{"score_a":2.5,"score_b":-1,"narration":"Close."}"#));
    assert_eq!(verdict.score_a, "2.5");
    assert_eq!(verdict.score_b, "-1");
    assert_eq!(verdict.narration, "Close.");
    assert_eq!(adjudication_from_json(&doc(r#"{"score_a":1}"#)).narration, "");
}

#[test]
fn player_prompts() {
    let spec = dilemma();
    let messages = player_messages("alice", &spec, "bold", "", "{}", 1, "", Some("{\"move\":\"C\"}"));
    assert_eq!(
        messages[0].content,
        "You are alice, a player in a competitive game arena. Play to maximize your own total score across all rounds.\n\nGAME: Dilemma\n\nRULES:\nCooperate or defect.\n\nPAYOFFS:\nClassic.\n\nYOUR PERSONA:\nbold\n\nReply with ONLY a JSON object of the form:\n{\"reasoning\": \"your private thinking, never shown to the opponent\", \"action\": <object matching the action schema>}\n\nACTION SCHEMA:\n{}"
    );
    assert_eq!(
        messages[1].content,
        "Round 1 of 2.\n\nHistory so far:\n(first round)\n\nYour opponent has already acted this round: {\"move\":\"C\"}\n\nSubmit your action."
    );
    let a = action_from_json("bob", 3, &doc(r#"{"reasoning":"trust","action":{"move":"C"}}"#));
    assert_eq!(a.agent_id, "bob");
    assert_eq!(a.round, 3);
    assert_eq!(a.action_json, "{\"move\":\"C\"}");
    assert_eq!(a.private_reasoning, "trust");
    assert_eq!(action_from_json("bob", 1, &doc(r#"{"action":"x"}"#)).private_reasoning, "");
    let schema = player_reply_schema_text("{\"type\":\"object\"}");
    let parsed: serde_json::Value = serde_json::from_str(&schema).unwrap();
    assert_eq!(parsed["required"][0], "action");
    assert_eq!(parsed["properties"]["action"]["type"], "object");
    assert_eq!(player_failure_message("alice"), "player alice failed to act");
    assert_eq!(
        reflection_request_prompt(&spec, "H", "", "3", "5"),
        "GAME: Dilemma\n\nRULES:\nCooperate or defect.\n\nFULL MATCH HISTORY:\nH\n\nFINAL SCORE: you 3 vs opponent 5\n\nYOUR CURRENT MEMO:\n(none yet)\n\nWrite your reflection and revised memo."
    );
}

#[test]
fn history_has_one_line_per_round() {
    let rounds = vec![
        RoundSummary {
            round: 1,
            actions: vec![action("alice", 1, "{\"move\":\"C\"}"), action("bob", 1, "{\"move\":\"D\"}")],
            score_a: "+0.0".to_string(),
            score_b: "+5.0".to_string(),
            narration: String::new(),
        },
        RoundSummary {
            round: 2,
            actions: vec![action("alice", 2, "1"), action("bob", 2, "2")],
            score_a: "-1.5".to_string(),
            score_b: "+2.0".to_string(),
            narration: "Bob bluffed.".to_string(),
        },
    ];
    assert_eq!(
        render_history(&rounds, "alice", "bob"),
        "Round 1: alice: {\"move\":\"C\"}, bob: {\"move\":\"D\"} | scores: alice +0.0, bob +5.0\nRound 2: alice: 1, bob: 2 | scores: alice -1.5, bob +2.0 — Bob bluffed."
    );
    assert_eq!(render_history(&Vec::new(), "a", "b"), "");
}

fn announced_agent(c: &MatchCommand) -> String {
    match c {
        MatchCommand::Announce { action } => action.agent_id.clone(),
        _ => panic!("expected an announcement"),
    }
}

#[test]
fn simultaneous_match_scored_from_the_matrix() {
    let mut m = MatchMachine::new();
    assert!(matches!(m.step(MatchEvent::Started), MatchCommand::GenerateGame));
    assert!(matches!(m.step(MatchEvent::GameReady { spec: dilemma() }), MatchCommand::StartPlay));
    let mut steps = 0;
    let mut c = m.step(MatchEvent::Completed);
    for round in 1..=2u32 {
        assert!(matches!(c, MatchCommand::StartRound { round: r } if r == round));
        assert!(matches!(m.step(MatchEvent::Completed), MatchCommand::CollectBoth { round: r } if r == round));
        let first = m.step(MatchEvent::ActionsTaken {
            action_a: action("alice", round, "{\"move\":\"D\"}"),
            action_b: action("bob", round, "{\"move\":\"C\"}"),
        });
        assert_eq!(announced_agent(&first), "alice");
        let second = m.step(MatchEvent::Completed);
        assert_eq!(announced_agent(&second), "bob");
        match m.step(MatchEvent::Completed) {
            MatchCommand::Record { round: r, score_a, score_b, narration, adjudicator, .. } => {
                assert_eq!(r, round);
                assert_eq!((score_a.as_str(), score_b.as_str()), ("5", "0"));
                assert_eq!(narration, "");
                assert_eq!(adjudicator, Adjudicator::Engine);
            }
            _ => panic!("expected the round to be recorded"),
        }
        c = m.step(MatchEvent::Completed);
        steps += 5;
    }
    assert!(matches!(c, MatchCommand::BeginReflection));
    assert!(matches!(m.step(MatchEvent::Completed), MatchCommand::Reflect { side: Side::A }));
    match m.step(MatchEvent::Reflected { memo: Ok("new memo".to_string()) }) {
        MatchCommand::SaveMemo { side, memo } => {
            assert_eq!(side, Side::A);
            assert_eq!(memo, "new memo");
        }
        _ => panic!("expected the memo to be saved"),
    }
    assert!(matches!(m.step(MatchEvent::Completed), MatchCommand::Reflect { side: Side::B }));
    // a failed reflection does not void the match
    assert!(matches!(m.step(MatchEvent::Reflected { memo: Err("timeout".to_string()) }), MatchCommand::Finish));
    assert!(matches!(m.step(MatchEvent::Completed), MatchCommand::Stop));
    assert_eq!(m.phase, Phase::Done);
    assert!(!m.accepts_event(&MatchEvent::Completed));
    assert!(steps + 9 <= 8 * 2 + 14);
}

#[test]
fn alternating_match_adjudicated_by_the_game_master() {
    let mut spec = dilemma();
    spec.turn_structure = TurnStructure::Alternating;
    spec.num_rounds = 1;
    spec.payoff_matrix = Vec::new();
    let mut m = MatchMachine::new();
    m.step(MatchEvent::Started);
    m.step(MatchEvent::GameReady { spec });
    assert!(matches!(m.step(MatchEvent::Completed), MatchCommand::StartRound { round: 1 }));
    match m.step(MatchEvent::Completed) {
        MatchCommand::Collect { side, round, opponent_action } => {
            assert_eq!((side, round), (Side::A, 1));
            assert!(opponent_action.is_none());
        }
        _ => panic!("expected player A to be asked"),
    }
    let announce = m.step(MatchEvent::ActionTaken { action: action("alice", 1, "{\"bid\":3}") });
    assert_eq!(announced_agent(&announce), "alice");
    match m.step(MatchEvent::Completed) {
        MatchCommand::Collect { side, opponent_action, .. } => {
            assert_eq!(side, Side::B);
            assert_eq!(opponent_action, Some("{\"bid\":3}".to_string()));
        }
        _ => panic!("expected player B to be asked"),
    }
    let announce_b = m.step(MatchEvent::ActionTaken { action: action("bob", 1, "{\"bid\":4}") });
    assert_eq!(announced_agent(&announce_b), "bob");
    match m.step(MatchEvent::Completed) {
        MatchCommand::Adjudicate { round, action_a_json, action_b_json } => {
            assert_eq!(round, 1);
            assert_eq!(action_a_json, "{\"bid\":3}");
            assert_eq!(action_b_json, "{\"bid\":4}");
        }
        _ => panic!("expected the game master to adjudicate"),
    }
    let verdict = Adjudication { score_a: "1".to_string(), score_b: "2".to_string(), narration: "Bob outbid.".to_string() };
    match m.step(MatchEvent::Verdict { verdict }) {
        MatchCommand::Record { action_a, action_b, score_b, narration, adjudicator, .. } => {
            assert_eq!(action_a.agent_id, "alice");
            assert_eq!(action_b.agent_id, "bob");
            assert_eq!(score_b, "2");
            assert_eq!(narration, "Bob outbid.");
            assert_eq!(adjudicator, Adjudicator::Gm);
        }
        _ => panic!("expected the round to be recorded"),
    }
    assert!(matches!(m.step(MatchEvent::Completed), MatchCommand::BeginReflection));
}

#[test]
fn failures_end_the_match() {
    let mut m = MatchMachine::new();
    m.step(MatchEvent::Started);
    match m.step(MatchEvent::Failed { message: "GM failed to generate a game spec".to_string() }) {
        MatchCommand::Fail { message } => assert_eq!(message, "GM failed to generate a game spec"),
        _ => panic!("expected the match to fail"),
    }
    assert_eq!(m.phase, Phase::Failed);
    assert!(!m.accepts_event(&MatchEvent::Completed));
    assert!(!m.accepts_event(&MatchEvent::Failed { message: String::new() }));
}

#[test]
fn a_game_without_rounds_goes_straight_to_reflection() {
    let mut spec = dilemma();
    spec.num_rounds = 0;
    let mut m = MatchMachine::new();
    m.step(MatchEvent::Started);
    m.step(MatchEvent::GameReady { spec });
    assert!(matches!(m.step(MatchEvent::Completed), MatchCommand::BeginReflection));
    assert!(!m.accepts_event(&MatchEvent::ActionTaken { action: action("a", 1, "1") }));
}

#[test]
fn history_shows_no_private_reasoning() {
    let with = |reasoning: &str| {
        let mut a = action("alice", 1, "{\"move\":\"C\"}");
        a.private_reasoning = reasoning.to_string();
        vec![RoundSummary {
            round: 1,
            actions: vec![a, action("bob", 1, "{\"move\":\"D\"}")],
            score_a: "+0.0".to_string(),
            score_b: "+5.0".to_string(),
            narration: String::new(),
        }]
    };
    let plain = render_history(&with(""), "alice", "bob");
    let secret = render_history(&with("I will defect next round"), "alice", "bob");
    assert_eq!(plain, secret);
    assert!(!secret.contains("defect next"));
}
