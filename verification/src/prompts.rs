//! What the arena says to its models: the game master's and the players'
//! prompts, the JSON Schemas their replies must meet, what is read back from
//! the replies, and the text of a match's history.

use vstd::prelude::*;
use vstd::string::*;

use crate::game::{str_member_or_empty, GameSpec};
use crate::json::{JsonDoc, json_member, member_text, string_field, string_field_of, string_value};
use crate::llm::{conversation_view, ChatMessage};
use crate::text::{decimal, decimal_string, join, join_strings, lemma_cancel_middle, occurs_in, owned, views};

verus! {

/// The game master's standing instructions.
pub const GM_SYSTEM_PROMPT: &'static str = "You are the Game Master of an LLM game-theory arena. Two AI players, Alice and Bob, will play the game you design against each other. Your job is to design games that are simple to play but strategically interesting: dilemmas, bluffing, negotiation, coordination, resource division, signaling.\n\nDesign constraints:\n- The game is played over a fixed number of rounds (2 to 20).\n- Each round, players act either simultaneously (without seeing each other's action) or alternating (seeing prior actions).\n- Player actions must be expressible as a small JSON object. Define a JSON Schema for it in \"action_schema\". Prefer a single \"move\" field with an enum of choices when possible.\n- If payoffs depend only on the pair of \"move\" values, provide a complete \"payoff_matrix\" (keyed by the enum values) so the engine can score rounds mechanically. Otherwise omit it and you will be asked to adjudicate each round yourself.\n- rules_text is shown verbatim to both players. It must fully specify the game: actions, information available, scoring, and what winning means.\n\nReply with ONLY a JSON object matching this shape:\n{\n  \"title\": \"...\",\n  \"rules_text\": \"...\",\n  \"turn_structure\": \"simultaneous\" | \"alternating\",\n  \"num_rounds\": 5,\n  \"action_schema\": { ...JSON Schema for one action... },\n  \"payoff_description\": \"...\",\n  \"payoff_matrix\": [ {\"action_a\": \"...\", \"action_b\": \"...\", \"score_a\": 0, \"score_b\": 0}, ... ]  // optional\n}";

/// The JSON Schema that a game specification must meet.
pub const GAME_SPEC_SCHEMA: &'static str = "{\"type\":\"object\",\"required\":[\"title\",\"rules_text\",\"turn_structure\",\"num_rounds\",\"action_schema\",\"payoff_description\"],\"properties\":{\"title\":{\"type\":\"string\",\"minLength\":1},\"rules_text\":{\"type\":\"string\",\"minLength\":1},\"turn_structure\":{\"enum\":[\"simultaneous\",\"alternating\"]},\"num_rounds\":{\"type\":\"integer\",\"minimum\":1,\"maximum\":20},\"action_schema\":{\"type\":\"object\"},\"payoff_description\":{\"type\":\"string\"},\"payoff_matrix\":{\"type\":\"array\",\"items\":{\"type\":\"object\",\"required\":[\"action_a\",\"action_b\",\"score_a\",\"score_b\"],\"properties\":{\"action_a\":{\"type\":\"string\"},\"action_b\":{\"type\":\"string\"},\"score_a\":{\"type\":\"number\"},\"score_b\":{\"type\":\"number\"}}}}}}";

/// The JSON Schema that the game master's verdict on a round must meet.
pub const ADJUDICATION_SCHEMA: &'static str = "{\"type\":\"object\",\"required\":[\"score_a\",\"score_b\",\"narration\"],\"properties\":{\"score_a\":{\"type\":\"number\"},\"score_b\":{\"type\":\"number\"},\"narration\":{\"type\":\"string\"}}}";

/// The JSON Schema that a player's reflection must meet.
pub const REFLECTION_SCHEMA: &'static str = "{\"type\":\"object\",\"required\":[\"memo\"],\"properties\":{\"reflection\":{\"type\":\"string\"},\"memo\":{\"type\":\"string\",\"minLength\":1}}}";

/// A player's standing instructions for reflection.
pub const REFLECTION_SYSTEM_PROMPT: &'static str = "You are a game player improving between matches. Given the match that just ended and your current strategy memo, write an improved memo: concrete, transferable strategic principles for future games against this opponent and others. Keep it under 400 words. Reply with ONLY a JSON object: {\"reflection\": \"what happened and why\", \"memo\": \"the full new memo text\"}";

/// The request to the game master to design a game.
pub open spec fn game_request(hint: Seq<char>, history_summary: Seq<char>) -> Seq<char> {
    "Design a new game for Alice and Bob."@ + (if hint.len() == 0 {
        Seq::empty()
    } else {
        "\n\nDesign hint from the operator: "@ + hint
    }) + (if history_summary.len() == 0 {
        Seq::empty()
    } else {
        "\n\nResults of recent games between these players:\n"@ + history_summary
            + "\nDesign a game that probes weaknesses you observe."@
    })
}

/// Asks the game master for a game; `history_summary` lets it design against
/// past results (empty for the first games).
pub fn game_request_prompt(hint: &str, history_summary: &str) -> (r: String)
    ensures
        r@ == game_request(hint@, history_summary@),
{
    let mut user = String::from_str("Design a new game for Alice and Bob.");
    let ghost base = user@;
    if hint.unicode_len() != 0 {
        user.append("\n\nDesign hint from the operator: ");
        user.append(hint);
    }
    let ghost with_hint = user@;
    if history_summary.unicode_len() != 0 {
        user.append("\n\nResults of recent games between these players:\n");
        user.append(history_summary);
        user.append("\nDesign a game that probes weaknesses you observe.");
    }
    proof {
        if hint@.len() == 0 {
            assert(with_hint =~= base + Seq::<char>::empty());
        }
        if history_summary@.len() == 0 {
            assert(user@ =~= with_hint + Seq::<char>::empty());
        }
    }
    user
}

/// The game master's instructions for scoring a round.
pub open spec fn adjudication_system(spec: GameSpec) -> Seq<char> {
    "You are the Game Master adjudicating a game you designed. Score the round strictly according to the rules. Reply with ONLY a JSON object: {\"score_a\": number, \"score_b\": number, \"narration\": \"one or two sentences\"}\n\nGAME RULES:\n"@
        + spec.rules_text@ + "\n\nPAYOFFS:\n"@ + spec.payoff_description@
}

pub fn adjudication_system_prompt(spec: &GameSpec) -> (r: String)
    ensures
        r@ == adjudication_system(*spec),
{
    String::from_str(
        "You are the Game Master adjudicating a game you designed. Score the round strictly according to the rules. Reply with ONLY a JSON object: {\"score_a\": number, \"score_b\": number, \"narration\": \"one or two sentences\"}\n\nGAME RULES:\n",
    ).concat(spec.rules_text.as_str()).concat("\n\nPAYOFFS:\n").concat(
        spec.payoff_description.as_str(),
    )
}

/// The request to the game master to score one round.
pub open spec fn adjudication_request(
    spec: GameSpec,
    round: u32,
    action_a: Seq<char>,
    action_b: Seq<char>,
    history: Seq<char>,
) -> Seq<char> {
    "Round "@ + decimal(round as nat) + " of "@ + decimal(spec.num_rounds as nat)
        + ".\n\nHistory so far:\n"@ + history + "\n\nPlayer A action: "@ + action_a
        + "\nPlayer B action: "@ + action_b + "\n\nScore this round."@
}

pub fn adjudication_request_prompt(
    spec: &GameSpec,
    round: u32,
    action_a: &str,
    action_b: &str,
    history: &str,
) -> (r: String)
    ensures
        r@ == adjudication_request(*spec, round, action_a@, action_b@, history@),
{
    String::from_str("Round ").concat(decimal_string(round as u64).as_str()).concat(" of ").concat(
        decimal_string(spec.num_rounds as u64).as_str(),
    ).concat(".\n\nHistory so far:\n").concat(history).concat("\n\nPlayer A action: ").concat(
        action_a,
    ).concat("\nPlayer B action: ").concat(action_b).concat("\n\nScore this round.")
}

/// The game master's verdict on a round. Scores are the JSON text it gave.
pub struct Adjudication {
    pub score_a: String,
    pub score_b: String,
    pub narration: String,
}

/// Reads the verdict from the game master's reply; a missing narration reads
/// as empty.
pub fn adjudication_from_json(json: &JsonDoc) -> (r: Adjudication)
    ensures
        r.score_a@ == json_member(json@, "score_a"@),
        r.score_b@ == json_member(json@, "score_b"@),
        r.narration@ == str_member_or_empty(json@, "narration"@),
{
    let doc = json.as_str();
    let n = member_text(doc, "narration");
    Adjudication {
        score_a: member_text(doc, "score_a"),
        score_b: member_text(doc, "score_b"),
        narration: match string_value(n.as_str()) {
            Some(s) => s,
            None => String::new(),
        },
    }
}

/// A player's action in one round.
pub struct Action {
    pub agent_id: String,
    pub round: u32,
    /// The action, as JSON text.
    pub action_json: String,
    pub private_reasoning: String,
}

/// A player's standing instructions for a game.
pub open spec fn player_system(
    agent_id: Seq<char>,
    spec: GameSpec,
    persona: Seq<char>,
    memo: Seq<char>,
    action_schema: Seq<char>,
) -> Seq<char> {
    "You are "@ + agent_id
        + ", a player in a competitive game arena. Play to maximize your own total score across all rounds.\n\nGAME: "@
        + spec.title@ + "\n\nRULES:\n"@ + spec.rules_text@ + "\n\nPAYOFFS:\n"@
        + spec.payoff_description@ + (if persona.len() == 0 {
        Seq::empty()
    } else {
        "\n\nYOUR PERSONA:\n"@ + persona
    }) + (if memo.len() == 0 {
        Seq::empty()
    } else {
        "\n\nYOUR PRIVATE STRATEGY MEMO (from past games, never shown to the opponent):\n"@ + memo
    })
        + "\n\nReply with ONLY a JSON object of the form:\n{\"reasoning\": \"your private thinking, never shown to the opponent\", \"action\": <object matching the action schema>}\n\nACTION SCHEMA:\n"@
        + action_schema
}

pub fn player_system_prompt(
    agent_id: &str,
    spec: &GameSpec,
    persona: &str,
    memo: &str,
    action_schema: &str,
) -> (r: String)
    ensures
        r@ == player_system(agent_id@, *spec, persona@, memo@, action_schema@),
{
    let mut system = String::from_str("You are ").concat(agent_id).concat(
        ", a player in a competitive game arena. Play to maximize your own total score across all rounds.\n\nGAME: ",
    ).concat(spec.title.as_str()).concat("\n\nRULES:\n").concat(spec.rules_text.as_str()).concat(
        "\n\nPAYOFFS:\n",
    ).concat(spec.payoff_description.as_str());
    let ghost base = system@;
    if persona.unicode_len() != 0 {
        system.append("\n\nYOUR PERSONA:\n");
        system.append(persona);
    }
    let ghost with_persona = system@;
    if memo.unicode_len() != 0 {
        system.append(
            "\n\nYOUR PRIVATE STRATEGY MEMO (from past games, never shown to the opponent):\n",
        );
        system.append(memo);
    }
    let ghost with_memo = system@;
    system.append(
        "\n\nReply with ONLY a JSON object of the form:\n{\"reasoning\": \"your private thinking, never shown to the opponent\", \"action\": <object matching the action schema>}\n\nACTION SCHEMA:\n",
    );
    system.append(action_schema);
    proof {
        if persona@.len() == 0 {
            assert(with_persona =~= base + Seq::<char>::empty());
        }
        if memo@.len() == 0 {
            assert(with_memo =~= with_persona + Seq::<char>::empty());
        }
    }
    system
}

/// The request to a player for its action in one round.
pub open spec fn player_request(
    round: u32,
    num_rounds: u32,
    history: Seq<char>,
    opponent_action: Option<Seq<char>>,
) -> Seq<char> {
    "Round "@ + decimal(round as nat) + " of "@ + decimal(num_rounds as nat)
        + ".\n\nHistory so far:\n"@ + (if history.len() == 0 {
        "(first round)"@
    } else {
        history
    }) + (match opponent_action {
        Some(opp) => "\n\nYour opponent has already acted this round: "@ + opp,
        None => Seq::empty(),
    }) + "\n\nSubmit your action."@
}

pub fn player_request_prompt(
    round: u32,
    num_rounds: u32,
    history: &str,
    opponent_action: Option<&str>,
) -> (r: String)
    ensures
        r@ == player_request(
            round,
            num_rounds,
            history@,
            match opponent_action {
                Some(o) => Some(o@),
                None => None,
            },
        ),
{
    let mut user = String::from_str("Round ").concat(decimal_string(round as u64).as_str()).concat(
        " of ",
    ).concat(decimal_string(num_rounds as u64).as_str()).concat(".\n\nHistory so far:\n");
    if history.unicode_len() == 0 {
        user.append("(first round)");
    } else {
        user.append(history);
    }
    let ghost before = user@;
    if let Some(opp) = opponent_action {
        user.append("\n\nYour opponent has already acted this round: ");
        user.append(opp);
    } else {
        assert(user@ =~= before + Seq::<char>::empty());
    }
    user.append("\n\nSubmit your action.");
    user
}

/// The JSON Schema of a player's reply: an object with the action, which must
/// meet the game's action schema, and optional reasoning.
pub open spec fn player_reply_schema(action_schema: Seq<char>) -> Seq<char> {
    "{\"type\":\"object\",\"required\":[\"action\"],\"properties\":{\"reasoning\":{\"type\":\"string\"},\"action\":"@
        + action_schema + "}}"@
}

pub fn player_reply_schema_text(action_schema: &str) -> (r: String)
    ensures
        r@ == player_reply_schema(action_schema@),
{
    String::from_str(
        "{\"type\":\"object\",\"required\":[\"action\"],\"properties\":{\"reasoning\":{\"type\":\"string\"},\"action\":",
    ).concat(action_schema).concat("}}")
}

/// Reads a player's action from its reply: the `action` member as JSON text,
/// and the `reasoning` string (empty when absent).
pub fn action_from_json(agent_id: &str, round: u32, json: &JsonDoc) -> (r: Action)
    ensures
        r.agent_id@ == agent_id@,
        r.round == round,
        r.action_json@ == json_member(json@, "action"@),
        r.private_reasoning@ == str_member_or_empty(json@, "reasoning"@),
{
    let doc = json.as_str();
    let reasoning = member_text(doc, "reasoning");
    Action {
        agent_id: owned(agent_id),
        round,
        action_json: member_text(doc, "action"),
        private_reasoning: match string_value(reasoning.as_str()) {
            Some(s) => s,
            None => String::new(),
        },
    }
}

/// The request to a player to reflect on a finished match. The totals are
/// given as the text they are shown with.
pub open spec fn reflection_request(
    spec: GameSpec,
    history: Seq<char>,
    old_memo: Seq<char>,
    own_total: Seq<char>,
    opp_total: Seq<char>,
) -> Seq<char> {
    "GAME: "@ + spec.title@ + "\n\nRULES:\n"@ + spec.rules_text@ + "\n\nFULL MATCH HISTORY:\n"@
        + history + "\n\nFINAL SCORE: you "@ + own_total + " vs opponent "@ + opp_total
        + "\n\nYOUR CURRENT MEMO:\n"@ + (if old_memo.len() == 0 {
        "(none yet)"@
    } else {
        old_memo
    }) + "\n\nWrite your reflection and revised memo."@
}

pub fn reflection_request_prompt(
    spec: &GameSpec,
    history: &str,
    old_memo: &str,
    own_total: &str,
    opp_total: &str,
) -> (r: String)
    ensures
        r@ == reflection_request(*spec, history@, old_memo@, own_total@, opp_total@),
{
    let mut user = String::from_str("GAME: ").concat(spec.title.as_str()).concat(
        "\n\nRULES:\n",
    ).concat(spec.rules_text.as_str()).concat("\n\nFULL MATCH HISTORY:\n").concat(history).concat(
        "\n\nFINAL SCORE: you ",
    ).concat(own_total).concat(" vs opponent ").concat(opp_total).concat(
        "\n\nYOUR CURRENT MEMO:\n",
    );
    if old_memo.unicode_len() == 0 {
        user.append("(none yet)");
    } else {
        user.append(old_memo);
    }
    user.append("\n\nWrite your reflection and revised memo.");
    user
}

/// The message of a reflection whose reply holds no memo.
pub open spec fn missing_memo_message() -> Seq<char> {
    "reflection reply missing memo"@
}

/// Reads the new memo from a reflection reply.
pub fn memo_from_json(doc: &str) -> (r: Result<String, String>)
    ensures
        match string_field(doc@, "memo"@) {
            Some(m) => r matches Ok(s) && s@ == m,
            None => r matches Err(e) && e@ == missing_memo_message(),
        },
{
    match string_field_of(doc, "memo") {
        Some(m) => Ok(m),
        None => Err(String::from_str("reflection reply missing memo")),
    }
}

/// One scored round as the history shows it. The scores are the text they
/// are shown with: signed, with one decimal.
pub struct RoundSummary {
    pub round: u32,
    pub actions: Vec<Action>,
    pub score_a: String,
    pub score_b: String,
    pub narration: String,
}

/// How an action appears in the history.
pub open spec fn action_line(a: Action) -> Seq<char> {
    a.agent_id@ + ": "@ + a.action_json@
}

/// The line of one round in the history.
pub open spec fn round_line(r: RoundSummary, agent_a: Seq<char>, agent_b: Seq<char>) -> Seq<char> {
    "Round "@ + decimal(r.round as nat) + ": "@ + join(
        r.actions@.map_values(|a: Action| action_line(a)),
        ", "@,
    ) + " | scores: "@ + agent_a + " "@ + r.score_a@ + ", "@ + agent_b + " "@ + r.score_b@ + (
    if r.narration@.len() == 0 {
        Seq::empty()
    } else {
        " — "@ + r.narration@
    })
}

/// The history of a match: one line per round.
pub open spec fn history_text(
    rounds: Seq<RoundSummary>,
    agent_a: Seq<char>,
    agent_b: Seq<char>,
) -> Seq<char> {
    join(rounds.map_values(|r: RoundSummary| round_line(r, agent_a, agent_b)), "\n"@)
}

fn render_round(r: &RoundSummary, agent_a_id: &str, agent_b_id: &str) -> (s: String)
    ensures
        s@ == round_line(*r, agent_a_id@, agent_b_id@),
{
    let mut actions: Vec<String> = Vec::new();
    let mut i: usize = 0;
    while i < r.actions.len()
        invariant
            i <= r.actions@.len(),
            views(actions@) == r.actions@.take(i as int).map_values(|a: Action| action_line(a)),
        decreases r.actions@.len() - i,
    {
        let a = &r.actions[i];
        let line = a.agent_id.clone().concat(": ").concat(a.action_json.as_str());
        let ghost old_actions = actions@;
        actions.push(line);
        proof {
            assert(views(actions@) =~= views(old_actions).push(line@));
            assert(r.actions@.take(i + 1) =~= r.actions@.take(i as int).push(*a));
            assert(r.actions@.take(i + 1).map_values(|a: Action| action_line(a)) =~= r.actions@.take(
                i as int,
            ).map_values(|a: Action| action_line(a)).push(action_line(*a)));
        }
        i = i + 1;
    }
    assert(r.actions@.take(r.actions@.len() as int) =~= r.actions@);
    let mut line = String::from_str("Round ").concat(decimal_string(r.round as u64).as_str()).concat(
        ": ",
    ).concat(join_strings(&actions, ", ").as_str()).concat(" | scores: ").concat(agent_a_id).concat(
        " ",
    ).concat(r.score_a.as_str()).concat(", ").concat(agent_b_id).concat(" ").concat(
        r.score_b.as_str(),
    );
    let ghost before = line@;
    if r.narration.as_str().unicode_len() != 0 {
        line.append(" — ");
        line.append(r.narration.as_str());
    } else {
        assert(line@ =~= before + Seq::<char>::empty());
    }
    line
}

/// Renders the history of a match, one line per round.
pub fn render_history(history: &Vec<RoundSummary>, agent_a_id: &str, agent_b_id: &str) -> (r:
    String)
    ensures
        r@ == history_text(history@, agent_a_id@, agent_b_id@),
{
    let mut lines: Vec<String> = Vec::new();
    let mut i: usize = 0;
    while i < history.len()
        invariant
            i <= history@.len(),
            views(lines@) == history@.take(i as int).map_values(
                |r: RoundSummary| round_line(r, agent_a_id@, agent_b_id@),
            ),
        decreases history@.len() - i,
    {
        let line = render_round(&history[i], agent_a_id, agent_b_id);
        let ghost old_lines = lines@;
        lines.push(line);
        proof {
            assert(views(lines@) =~= views(old_lines).push(line@));
            assert(history@.take(i + 1) =~= history@.take(i as int).push(history@[i as int]));
            assert(history@.take(i + 1).map_values(
                |r: RoundSummary| round_line(r, agent_a_id@, agent_b_id@),
            ) =~= history@.take(i as int).map_values(
                |r: RoundSummary| round_line(r, agent_a_id@, agent_b_id@),
            ).push(round_line(history@[i as int], agent_a_id@, agent_b_id@)));
        }
        i = i + 1;
    }
    assert(history@.take(history@.len() as int) =~= history@);
    join_strings(&lines, "\n")
}

/// A conversation of a system message and a user message.
pub open spec fn exchange(system: Seq<char>, user: Seq<char>) -> Seq<(Seq<char>, Seq<char>)> {
    seq![("system"@, system), ("user"@, user)]
}

fn two_messages(system: String, user: String) -> (r: Vec<ChatMessage>)
    ensures
        conversation_view(r@) == exchange(system@, user@),
{
    let mut v: Vec<ChatMessage> = Vec::new();
    v.push(ChatMessage::system(system));
    v.push(ChatMessage::user(user));
    assert(conversation_view(v@) =~= exchange(v@[0].content@, v@[1].content@));
    v
}

/// The conversation that asks the game master for a game.
pub fn game_request_messages(hint: &str, history_summary: &str) -> (r: Vec<ChatMessage>)
    ensures
        conversation_view(r@) == exchange(GM_SYSTEM_PROMPT@, game_request(hint@, history_summary@)),
{
    two_messages(owned(GM_SYSTEM_PROMPT), game_request_prompt(hint, history_summary))
}

/// The conversation that asks the game master to score a round.
pub fn adjudication_messages(
    spec: &GameSpec,
    round: u32,
    action_a: &str,
    action_b: &str,
    history: &str,
) -> (r: Vec<ChatMessage>)
    ensures
        conversation_view(r@) == exchange(
            adjudication_system(*spec),
            adjudication_request(*spec, round, action_a@, action_b@, history@),
        ),
{
    two_messages(
        adjudication_system_prompt(spec),
        adjudication_request_prompt(spec, round, action_a, action_b, history),
    )
}

/// The conversation that asks a player for its action in a round.
pub fn player_messages(
    agent_id: &str,
    spec: &GameSpec,
    persona: &str,
    memo: &str,
    action_schema: &str,
    round: u32,
    history: &str,
    opponent_action: Option<&str>,
) -> (r: Vec<ChatMessage>)
    ensures
        conversation_view(r@) == exchange(
            player_system(agent_id@, *spec, persona@, memo@, action_schema@),
            player_request(
                round,
                spec.num_rounds,
                history@,
                match opponent_action {
                    Some(o) => Some(o@),
                    None => None,
                },
            ),
        ),
{
    two_messages(
        player_system_prompt(agent_id, spec, persona, memo, action_schema),
        player_request_prompt(round, spec.num_rounds, history, opponent_action),
    )
}

/// The conversation that asks a player to reflect on a finished match.
pub fn reflection_messages(
    spec: &GameSpec,
    history: &str,
    old_memo: &str,
    own_total: &str,
    opp_total: &str,
) -> (r: Vec<ChatMessage>)
    ensures
        conversation_view(r@) == exchange(
            REFLECTION_SYSTEM_PROMPT@,
            reflection_request(*spec, history@, old_memo@, own_total@, opp_total@),
        ),
{
    two_messages(
        owned(REFLECTION_SYSTEM_PROMPT),
        reflection_request_prompt(spec, history, old_memo, own_total, opp_total),
    )
}

/// The error of a player that could not produce an action.
pub fn player_failure_message(agent_id: &str) -> (r: String)
    ensures
        r@ == "player "@ + agent_id@ + " failed to act"@,
{
    String::from_str("player ").concat(agent_id).concat(" failed to act")
}

/// Two round summaries that show the same: the same round, scores and
/// narration, and actions that agree on who acted and what was done. Their
/// private reasoning may differ.
pub open spec fn same_public_round(r1: RoundSummary, r2: RoundSummary) -> bool {
    &&& r1.round == r2.round
    &&& r1.score_a@ == r2.score_a@
    &&& r1.score_b@ == r2.score_b@
    &&& r1.narration@ == r2.narration@
    &&& r1.actions@.len() == r2.actions@.len()
    &&& forall|j: int|
        0 <= j < r1.actions@.len() ==> (#[trigger] r1.actions@[j]).agent_id@
            == r2.actions@[j].agent_id@ && r1.actions@[j].action_json@
            == r2.actions@[j].action_json@
}

/// Two histories that show the same, round by round.
pub open spec fn same_public_history(h1: Seq<RoundSummary>, h2: Seq<RoundSummary>) -> bool {
    &&& h1.len() == h2.len()
    &&& forall|i: int| 0 <= i < h1.len() ==> same_public_round(#[trigger] h1[i], h2[i])
}

/// The text of the other player's action, when it is shown.
pub open spec fn shown_action(a: Option<Action>) -> Option<Seq<char>> {
    match a {
        Some(a) => Some(a.action_json@),
        None => None,
    }
}

/// A match's history never shows private reasoning: histories that differ
/// only in the players' reasoning render to the same text.
pub proof fn history_hides_reasoning(
    h1: Seq<RoundSummary>,
    h2: Seq<RoundSummary>,
    agent_a: Seq<char>,
    agent_b: Seq<char>,
)
    requires
        same_public_history(h1, h2),
    ensures
        history_text(h1, agent_a, agent_b) == history_text(h2, agent_a, agent_b),
{
    assert forall|i: int| 0 <= i < h1.len() implies round_line(h1[i], agent_a, agent_b)
        == round_line(h2[i], agent_a, agent_b) by {
        let r1 = h1[i];
        let r2 = h2[i];
        assert(same_public_round(r1, r2));
        assert(r1.actions@.map_values(|a: Action| action_line(a)) =~= r2.actions@.map_values(
            |a: Action| action_line(a),
        ));
    }
    assert(h1.map_values(|r: RoundSummary| round_line(r, agent_a, agent_b)) =~= h2.map_values(
        |r: RoundSummary| round_line(r, agent_a, agent_b),
    ));
}

/// What a player is asked in a round holds its own memo and nothing private
/// of its opponent: with the player's own inputs fixed, the conversation is
/// the same whatever the opponent reasoned, since it sees the history and, in
/// an alternating round, only the text of the opponent's action.
pub proof fn player_conversation_hides_opponent(
    agent_id: Seq<char>,
    spec: GameSpec,
    persona: Seq<char>,
    memo: Seq<char>,
    action_schema: Seq<char>,
    round: u32,
    h1: Seq<RoundSummary>,
    h2: Seq<RoundSummary>,
    agent_a: Seq<char>,
    agent_b: Seq<char>,
    opponent1: Option<Action>,
    opponent2: Option<Action>,
)
    requires
        same_public_history(h1, h2),
        shown_action(opponent1) == shown_action(opponent2),
    ensures
        exchange(
            player_system(agent_id, spec, persona, memo, action_schema),
            player_request(
                round,
                spec.num_rounds,
                history_text(h1, agent_a, agent_b),
                shown_action(opponent1),
            ),
        ) == exchange(
            player_system(agent_id, spec, persona, memo, action_schema),
            player_request(
                round,
                spec.num_rounds,
                history_text(h2, agent_a, agent_b),
                shown_action(opponent2),
            ),
        ),
{
    history_hides_reasoning(h1, h2, agent_a, agent_b);
}

/// A player's reflection is asked with its own memo and the match's history,
/// which shows nothing of the opponent's reasoning.
pub proof fn reflection_hides_opponent(
    spec: GameSpec,
    h1: Seq<RoundSummary>,
    h2: Seq<RoundSummary>,
    agent_a: Seq<char>,
    agent_b: Seq<char>,
    old_memo: Seq<char>,
    own_total: Seq<char>,
    opp_total: Seq<char>,
)
    requires
        same_public_history(h1, h2),
    ensures
        exchange(
            REFLECTION_SYSTEM_PROMPT@,
            reflection_request(spec, history_text(h1, agent_a, agent_b), old_memo, own_total, opp_total),
        ) == exchange(
            REFLECTION_SYSTEM_PROMPT@,
            reflection_request(spec, history_text(h2, agent_a, agent_b), old_memo, own_total, opp_total),
        ),
{
    history_hides_reasoning(h1, h2, agent_a, agent_b);
}

/// The part of a game request that carries the operator's hint.
spec fn hint_part(hint: Seq<char>) -> Seq<char> {
    if hint.len() == 0 {
        Seq::empty()
    } else {
        "\n\nDesign hint from the operator: "@ + hint
    }
}

/// The game master always sees the operator's hint: a hint that is not empty
/// stands in the request under its header, whatever the history summary, and
/// two different hints give different requests.
pub proof fn game_request_shows_hint(hint1: Seq<char>, hint2: Seq<char>, history_summary: Seq<char>)
    ensures
        hint1.len() > 0 ==> occurs_in(
            "\n\nDesign hint from the operator: "@ + hint1,
            game_request(hint1, history_summary),
        ),
        hint1 != hint2 ==> game_request(hint1, history_summary) != game_request(
            hint2,
            history_summary,
        ),
{
    let base = "Design a new game for Alice and Bob."@;
    let rest = if history_summary.len() == 0 {
        Seq::<char>::empty()
    } else {
        "\n\nResults of recent games between these players:\n"@ + history_summary
            + "\nDesign a game that probes weaknesses you observe."@
    };
    assert(game_request(hint1, history_summary) =~= base + hint_part(hint1) + rest);
    assert(game_request(hint2, history_summary) =~= base + hint_part(hint2) + rest);
    if hint1.len() > 0 {
        let part = "\n\nDesign hint from the operator: "@ + hint1;
        let whole = game_request(hint1, history_summary);
        assert(whole.subrange(base.len() as int, (base.len() + part.len()) as int) =~= part);
    }
    if hint1 != hint2 && game_request(hint1, history_summary) == game_request(
        hint2,
        history_summary,
    ) {
        lemma_cancel_middle(base, hint_part(hint1), hint_part(hint2), rest);
        let header = "\n\nDesign hint from the operator: "@;
        if hint1.len() > 0 && hint2.len() > 0 {
            lemma_cancel_middle(header, hint1, hint2, Seq::empty());
            assert(header + hint1 + Seq::<char>::empty() =~= header + hint1);
            assert(header + hint2 + Seq::<char>::empty() =~= header + hint2);
        } else if hint1.len() == 0 && hint2.len() == 0 {
            assert(hint1 =~= hint2);
        } else {
            assert(hint_part(hint1).len() != hint_part(hint2).len());
        }
    }
}

/// The part of a player's instructions that carries its strategy memo.
spec fn memo_part(memo: Seq<char>) -> Seq<char> {
    if memo.len() == 0 {
        Seq::empty()
    } else {
        "\n\nYOUR PRIVATE STRATEGY MEMO (from past games, never shown to the opponent):\n"@
            + memo
    }
}

/// A player always sees its own strategy memo: a memo that is not empty
/// stands in the player's instructions under its header, and two different
/// memos give different instructions.
pub proof fn player_system_shows_memo(
    agent_id: Seq<char>,
    spec: GameSpec,
    persona: Seq<char>,
    memo1: Seq<char>,
    memo2: Seq<char>,
    action_schema: Seq<char>,
)
    ensures
        memo1.len() > 0 ==> occurs_in(
            "\n\nYOUR PRIVATE STRATEGY MEMO (from past games, never shown to the opponent):\n"@
                + memo1,
            player_system(agent_id, spec, persona, memo1, action_schema),
        ),
        memo1 != memo2 ==> player_system(agent_id, spec, persona, memo1, action_schema)
            != player_system(agent_id, spec, persona, memo2, action_schema),
{
    let head = "You are "@ + agent_id
        + ", a player in a competitive game arena. Play to maximize your own total score across all rounds.\n\nGAME: "@
        + spec.title@ + "\n\nRULES:\n"@ + spec.rules_text@ + "\n\nPAYOFFS:\n"@
        + spec.payoff_description@ + (if persona.len() == 0 {
        Seq::empty()
    } else {
        "\n\nYOUR PERSONA:\n"@ + persona
    });
    let tail = "\n\nReply with ONLY a JSON object of the form:\n{\"reasoning\": \"your private thinking, never shown to the opponent\", \"action\": <object matching the action schema>}\n\nACTION SCHEMA:\n"@
        + action_schema;
    let p1 = player_system(agent_id, spec, persona, memo1, action_schema);
    let p2 = player_system(agent_id, spec, persona, memo2, action_schema);
    assert(p1 =~= head + memo_part(memo1) + tail);
    assert(p2 =~= head + memo_part(memo2) + tail);
    if memo1.len() > 0 {
        let part = "\n\nYOUR PRIVATE STRATEGY MEMO (from past games, never shown to the opponent):\n"@
            + memo1;
        assert(p1.subrange(head.len() as int, (head.len() + part.len()) as int) =~= part);
    }
    if memo1 != memo2 && p1 == p2 {
        lemma_cancel_middle(head, memo_part(memo1), memo_part(memo2), tail);
        let header = "\n\nYOUR PRIVATE STRATEGY MEMO (from past games, never shown to the opponent):\n"@;
        if memo1.len() > 0 && memo2.len() > 0 {
            assert(header + memo1 + Seq::<char>::empty() =~= header + memo1);
            assert(header + memo2 + Seq::<char>::empty() =~= header + memo2);
            lemma_cancel_middle(header, memo1, memo2, Seq::empty());
        } else if memo1.len() == 0 && memo2.len() == 0 {
            assert(memo1 =~= memo2);
        } else {
            assert(memo_part(memo1).len() != memo_part(memo2).len());
        }
    }
}

} // verus!
