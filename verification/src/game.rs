//! Games as the game master specifies them, the prompts of the game master,
//! and mechanical scoring from a payoff matrix.

use vstd::prelude::*;
use vstd::string::*;

use crate::json::{
    JsonDoc,
    array_value, json_array_value, json_member, json_string_value, json_text_is_valid,
    json_u64_value, member_text, string_field, string_field_of, string_value, u64_value,
};
use crate::text::views;

verus! {

/// Whether players act at once each round or one after the other.
#[derive(PartialEq, Eq, Structural, Clone, Copy, Debug)]
pub enum TurnStructure {
    Unspecified,
    Simultaneous,
    Alternating,
}

/// One cell of a payoff matrix. Scores are kept as the JSON text that the
/// game master gave for them (`null` where it gave none).
pub struct PayoffEntry {
    pub action_a: String,
    pub action_b: String,
    pub score_a: String,
    pub score_b: String,
}

pub struct GameSpec {
    pub id: String,
    pub title: String,
    pub rules_text: String,
    pub turn_structure: TurnStructure,
    pub num_rounds: u32,
    /// The JSON Schema of one action, as JSON text.
    pub action_schema_json: String,
    pub payoff_description: String,
    pub payoff_matrix: Vec<PayoffEntry>,
}

/// Whether the players of a game act at once each round.
pub open spec fn is_simultaneous(t: TurnStructure) -> bool {
    t != TurnStructure::Alternating
}

impl GameSpec {
    pub fn simultaneous(&self) -> (r: bool)
        ensures
            r == is_simultaneous(self.turn_structure),
    {
        self.turn_structure != TurnStructure::Alternating
    }
}

/// The string member `key` of a JSON document, or the empty string.
pub open spec fn str_member_or_empty(doc: Seq<char>, key: Seq<char>) -> Seq<char> {
    match json_string_value(json_member(doc, key)) {
        Some(s) => s,
        None => Seq::empty(),
    }
}

fn str_member_or_empty_of(doc: &str, key: &str) -> (r: String)
    requires
        json_text_is_valid(doc@),
    ensures
        r@ == str_member_or_empty(doc@, key@),
{
    let m = member_text(doc, key);
    match string_value(m.as_str()) {
        Some(s) => s,
        None => String::new(),
    }
}

/// A payoff entry read from its JSON text.
pub open spec fn entry_from_doc(e: PayoffEntry, doc: Seq<char>) -> bool {
    &&& e.action_a@ == str_member_or_empty(doc, "action_a"@)
    &&& e.action_b@ == str_member_or_empty(doc, "action_b"@)
    &&& e.score_a@ == json_member(doc, "score_a"@)
    &&& e.score_b@ == json_member(doc, "score_b"@)
}

/// The number of rounds that a game description asks for (5 when it
/// gives no non-negative integer), cut to 32 bits.
pub open spec fn rounds_from_doc(doc: Seq<char>) -> u32 {
    match json_u64_value(json_member(doc, "num_rounds"@)) {
        Some(n) => n as u32,
        None => 5,
    }
}

/// The turn structure that a game description names: alternating only
/// when it says `"alternating"`.
pub open spec fn turns_from_doc(doc: Seq<char>) -> TurnStructure {
    if json_string_value(json_member(doc, "turn_structure"@)) == Some("alternating"@) {
        TurnStructure::Alternating
    } else {
        TurnStructure::Simultaneous
    }
}

/// Reads a game specification from the game master's JSON reply. Missing or
/// ill-typed members fall back to empty text, 5 rounds, simultaneous turns
/// and an empty payoff matrix.
pub fn spec_from_json(json: &JsonDoc, id: String) -> (r: GameSpec)
    ensures
        r.id@ == id@,
        r.title@ == str_member_or_empty(json@, "title"@),
        r.rules_text@ == str_member_or_empty(json@, "rules_text"@),
        r.turn_structure == turns_from_doc(json@),
        r.num_rounds == rounds_from_doc(json@),
        r.action_schema_json@ == json_member(json@, "action_schema"@),
        r.payoff_description@ == str_member_or_empty(json@, "payoff_description"@),
        match json_array_value(json_member(json@, "payoff_matrix"@)) {
            Some(items) => r.payoff_matrix@.len() == items.len() && forall|i: int|
                0 <= i < items.len() ==> entry_from_doc(#[trigger] r.payoff_matrix@[i], items[i]),
            None => r.payoff_matrix@.len() == 0,
        },
{
    let doc = json.as_str();
    let matrix_text = member_text(doc, "payoff_matrix");
    let mut payoff_matrix: Vec<PayoffEntry> = Vec::new();
    match array_value(matrix_text.as_str()) {
        Some(items) => {
            let mut i: usize = 0;
            while i < items.len()
                invariant
                    i <= items@.len(),
                    json_array_value(json_member(doc@, "payoff_matrix"@)) == Some(views(items@)),
                    forall|j: int| 0 <= j < items@.len() ==> json_text_is_valid(#[trigger] items@[j]@),
                    payoff_matrix@.len() == i,
                    forall|j: int|
                        0 <= j < i ==> entry_from_doc(#[trigger] payoff_matrix@[j], items@[j]@),
                decreases items@.len() - i,
            {
                let e = items[i].as_str();
                assert(json_text_is_valid(items@[i as int]@));
                payoff_matrix.push(
                    PayoffEntry {
                        action_a: str_member_or_empty_of(e, "action_a"),
                        action_b: str_member_or_empty_of(e, "action_b"),
                        score_a: member_text(e, "score_a"),
                        score_b: member_text(e, "score_b"),
                    },
                );
                i = i + 1;
            }
            proof {
                let vs = views(items@);
                assert forall|j: int| 0 <= j < vs.len() implies entry_from_doc(
                    #[trigger] payoff_matrix@[j],
                    vs[j],
                ) by {
                    assert(vs[j] == items@[j]@);
                }
            }
        },
        None => {},
    }
    let turns_text = member_text(doc, "turn_structure");
    let turn_structure = match string_value(turns_text.as_str()) {
        Some(t) => if crate::text::str_eq(t.as_str(), "alternating") {
            TurnStructure::Alternating
        } else {
            TurnStructure::Simultaneous
        },
        None => TurnStructure::Simultaneous,
    };
    let rounds_text = member_text(doc, "num_rounds");
    let num_rounds: u32 = match u64_value(rounds_text.as_str()) {
        Some(n) => n as u32,
        None => 5,
    };
    GameSpec {
        id,
        title: str_member_or_empty_of(doc, "title"),
        rules_text: str_member_or_empty_of(doc, "rules_text"),
        turn_structure,
        num_rounds,
        action_schema_json: member_text(doc, "action_schema"),
        payoff_description: str_member_or_empty_of(doc, "payoff_description"),
        payoff_matrix,
    }
}

/// A lower-case hexadecimal digit.
pub open spec fn is_lower_hex(c: char) -> bool {
    ('0' <= c && c <= '9') || ('a' <= c && c <= 'f')
}

/// The hyphenated lower-case text of a version-4 UUID: 36 characters, with
/// hyphens at 8, 13, 18 and 23 and lower-case hexadecimal digits elsewhere;
/// the version digit `4` at 14, and the variant digit (one of `8`, `9`, `a`,
/// `b`) at 19.
pub open spec fn is_v4_uuid_text(s: Seq<char>) -> bool {
    &&& s.len() == 36
    &&& forall|i: int|
        0 <= i < 36 ==> if i == 8 || i == 13 || i == 18 || i == 23 {
            #[trigger] s[i] == '-'
        } else {
            is_lower_hex(s[i])
        }
    &&& s[14] == '4'
    &&& (s[19] == '8' || s[19] == '9' || s[19] == 'a' || s[19] == 'b')
}

/// A fresh random identifier: `uuid::Uuid::new_v4()` rendered with
/// `to_string`. `new_v4` fixes the version and variant bits of a random
/// number, and `Display` writes the hyphenated lower-case form; which random
/// digits come out is left open.
#[verifier::external_body]
pub(crate) fn new_id() -> (r: String)
    ensures
        is_v4_uuid_text(r@),
{
    uuid::Uuid::new_v4().to_string()
}

/// Reads a game specification from the game master's reply and gives it a
/// fresh identifier.
pub fn new_spec_from_json(doc: &JsonDoc) -> (r: GameSpec)
    ensures
        is_v4_uuid_text(r.id@),
        r.title@ == str_member_or_empty(doc@, "title"@),
        r.rules_text@ == str_member_or_empty(doc@, "rules_text"@),
        r.turn_structure == turns_from_doc(doc@),
        r.num_rounds == rounds_from_doc(doc@),
        r.action_schema_json@ == json_member(doc@, "action_schema"@),
        r.payoff_description@ == str_member_or_empty(doc@, "payoff_description"@),
        match json_array_value(json_member(doc@, "payoff_matrix"@)) {
            Some(items) => r.payoff_matrix@.len() == items.len() && forall|i: int|
                0 <= i < items.len() ==> entry_from_doc(#[trigger] r.payoff_matrix@[i], items[i]),
            None => r.payoff_matrix@.len() == 0,
        },
{
    spec_from_json(doc, new_id())
}

/// The keys of a payoff matrix: the pair of moves of each entry.
pub open spec fn matrix_keys(m: Seq<PayoffEntry>) -> Seq<(Seq<char>, Seq<char>)> {
    m.map_values(|e: PayoffEntry| (e.action_a@, e.action_b@))
}

/// What mechanical scoring gives: `None` when the matrix is empty, when an
/// action has no string `move`, or when no entry has both moves; else the
/// scores of the first entry with both moves.
pub open spec fn matrix_score(
    matrix: Seq<PayoffEntry>,
    action_a: Seq<char>,
    action_b: Seq<char>,
) -> Option<(Seq<char>, Seq<char>)> {
    if matrix.len() == 0 {
        None
    } else {
        match (string_field(action_a, "move"@), string_field(action_b, "move"@)) {
            (Some(ma), Some(mb)) => match matrix_keys(matrix).index_of_first((ma, mb)) {
                Some(i) => Some((matrix[i].score_a@, matrix[i].score_b@)),
                None => None,
            },
            _ => None,
        }
    }
}

/// Scores a round from the payoff matrix, when the matrix is not empty and
/// both actions carry a string `move` that an entry pairs.
pub fn score_from_matrix(spec: &GameSpec, action_a_json: &str, action_b_json: &str) -> (r: Option<
    (String, String),
>)
    ensures
        match matrix_score(spec.payoff_matrix@, action_a_json@, action_b_json@) {
            Some((sa, sb)) => r matches Some((a, b)) && a@ == sa && b@ == sb,
            None => r is None,
        },
{
    if spec.payoff_matrix.len() == 0 {
        return None;
    }
    let move_a = match string_field_of(action_a_json, "move") {
        Some(m) => m,
        None => {
            return None;
        },
    };
    let move_b = match string_field_of(action_b_json, "move") {
        Some(m) => m,
        None => {
            return None;
        },
    };
    let ghost keys = matrix_keys(spec.payoff_matrix@);
    let ghost key = (move_a@, move_b@);
    let mut i: usize = 0;
    while i < spec.payoff_matrix.len()
        invariant
            i <= spec.payoff_matrix@.len(),
            keys == matrix_keys(spec.payoff_matrix@),
            key == (move_a@, move_b@),
            spec.payoff_matrix@.len() > 0,
            string_field(action_a_json@, "move"@) == Some(move_a@),
            string_field(action_b_json@, "move"@) == Some(move_b@),
            forall|j: int| 0 <= j < i ==> keys[j] != key,
        decreases spec.payoff_matrix@.len() - i,
    {
        let e = &spec.payoff_matrix[i];
        assert(keys[i as int] == (e.action_a@, e.action_b@));
        let same_a = crate::text::str_eq(e.action_a.as_str(), move_a.as_str());
        let same_b = crate::text::str_eq(e.action_b.as_str(), move_b.as_str());
        if same_a && same_b {
            proof {
                keys.index_of_first_ensures(key);
                assert(keys[i as int] == key);
                assert(keys.contains(key));
            }
            let sa = e.score_a.clone();
            let sb = e.score_b.clone();
            return Some((sa, sb));
        }
        i = i + 1;
    }
    proof {
        keys.index_of_first_ensures(key);
        if keys.contains(key) {
            let k: int = choose|k: int| 0 <= k < keys.len() && keys[k] == key;
            assert(keys[k] != key);
        }
    }
    None
}

/// The entry pairs A's move with B's move: each action carries a string
/// `move`, A's is the entry's `action_a` and B's its `action_b`.
pub open spec fn entry_pairs(e: PayoffEntry, action_a: Seq<char>, action_b: Seq<char>) -> bool {
    &&& string_field(action_a, "move"@) == Some(e.action_a@)
    &&& string_field(action_b, "move"@) == Some(e.action_b@)
}

/// Mechanical scoring reads the cell of both moves: a round is scored from
/// the matrix exactly when some entry pairs A's move with B's move, and then
/// with the scores of the first such entry.
pub proof fn matrix_score_reads_both_moves(
    matrix: Seq<PayoffEntry>,
    action_a: Seq<char>,
    action_b: Seq<char>,
)
    ensures
        matrix_score(matrix, action_a, action_b) is Some <==> exists|i: int|
            0 <= i < matrix.len() && #[trigger] entry_pairs(matrix[i], action_a, action_b),
        matrix_score(matrix, action_a, action_b) matches Some((sa, sb)) ==> exists|i: int|
            0 <= i < matrix.len() && #[trigger] entry_pairs(matrix[i], action_a, action_b) && sa
                == matrix[i].score_a@ && sb == matrix[i].score_b@ && forall|j: int|
                0 <= j < i ==> !entry_pairs(#[trigger] matrix[j], action_a, action_b),
{
    let keys = matrix_keys(matrix);
    match (string_field(action_a, "move"@), string_field(action_b, "move"@)) {
        (Some(ma), Some(mb)) => {
            keys.index_of_first_ensures((ma, mb));
            assert forall|i: int| 0 <= i < matrix.len() implies (entry_pairs(
                matrix[i],
                action_a,
                action_b,
            ) <==> keys[i] == (ma, mb)) by {
                assert(keys[i] == (matrix[i].action_a@, matrix[i].action_b@));
            }
            if matrix.len() > 0 {
                match keys.index_of_first((ma, mb)) {
                    Some(i) => {
                        assert(entry_pairs(matrix[i], action_a, action_b));
                        assert forall|j: int| 0 <= j < i implies !entry_pairs(
                            #[trigger] matrix[j],
                            action_a,
                            action_b,
                        ) by {
                            assert(keys[j] != (ma, mb));
                        }
                    },
                    None => {
                        assert forall|i: int| 0 <= i < matrix.len() implies !entry_pairs(
                            matrix[i],
                            action_a,
                            action_b,
                        ) by {
                            if entry_pairs(matrix[i], action_a, action_b) {
                                assert(keys.contains(keys[i]));
                            }
                        }
                    },
                }
            }
        },
        _ => {},
    }
}

} // verus!
