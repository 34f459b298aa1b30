//! JSON documents, held as their text. Parsing, field access and schema
//! validation go through `serde_json` and `jsonschema`; picking the JSON
//! object out of a model's reply is this module's own logic.

use vstd::prelude::*;
use vstd::string::*;
use vstd::utf8::encode_utf8;

use crate::text::{find_char, owned, rfind_char, trim, trim_str};

verus! {

/// Whether `serde_json::from_str::<serde_json::Value>` accepts the text.
pub uninterp spec fn json_text_is_valid(text: Seq<char>) -> bool;

/// The text that `serde_json` renders for `doc[key]`, where `doc` is the value
/// that the document text parses to (`null` when `key` is absent or `doc` is
/// not an object).
pub uninterp spec fn json_member(doc: Seq<char>, key: Seq<char>) -> Seq<char>;

/// `Value::as_str` of the value that the text parses to.
pub uninterp spec fn json_string_value(text: Seq<char>) -> Option<Seq<char>>;

/// `Value::as_u64` of the value that the text parses to.
pub uninterp spec fn json_u64_value(text: Seq<char>) -> Option<u64>;

/// `Value::as_array` of the value that the text parses to, each element
/// rendered as text.
pub uninterp spec fn json_array_value(text: Seq<char>) -> Option<Seq<Seq<char>>>;

/// `Value::is_object` of the value that the text parses to.
pub uninterp spec fn json_is_object(text: Seq<char>) -> bool;

/// Whether `jsonschema::validator_for` accepts the schema text's value.
pub uninterp spec fn schema_compiles(schema: Seq<char>) -> bool;

/// The errors that `jsonschema`'s `Validator::iter_errors` yields for the
/// document's value against the schema's value, in the order it yields them,
/// each rendered as "`<error>` at `<instance path>`".
pub uninterp spec fn schema_error_messages(schema: Seq<char>, doc: Seq<char>) -> Seq<Seq<char>>;

/// Whether the document's value is valid against the schema's value: the
/// validator finds no error.
pub open spec fn schema_accepts(schema: Seq<char>, doc: Seq<char>) -> bool {
    schema_error_messages(schema, doc).len() == 0
}

/// Calls `serde_json::from_str::<serde_json::Value>`; claims that it succeeds
/// exactly on the texts that `json_text_is_valid` names.
#[verifier::external_body]
pub(crate) fn json_is_valid(text: &str) -> (r: bool)
    ensures
        r == json_text_is_valid(text@),
{
    serde_json::from_str::<serde_json::Value>(text).is_ok()
}

/// Parses the document with `serde_json`, indexes it with `key` (the `Index`
/// impl of `serde_json::Value`, which gives `null` for a missing key or a
/// non-object) and renders the member with `Value::to_string`. Claims that the
/// result is the named `json_member` and, since `serde_json` renders only
/// valid JSON, that it parses again.
#[verifier::external_body]
pub(crate) fn member_text(doc: &str, key: &str) -> (r: String)
    requires
        json_text_is_valid(doc@),
    ensures
        r@ == json_member(doc@, key@),
        json_text_is_valid(r@),
{
    match serde_json::from_str::<serde_json::Value>(doc) {
        Ok(v) => v[key].to_string(),
        Err(_) => String::new(),
    }
}

/// Parses the text with `serde_json` and calls `Value::as_str`; claims that
/// the result is the named `json_string_value`.
#[verifier::external_body]
pub(crate) fn string_value(text: &str) -> (r: Option<String>)
    requires
        json_text_is_valid(text@),
    ensures
        r matches Some(s) ==> json_string_value(text@) == Some(s@),
        r is None ==> json_string_value(text@) is None,
{
    match serde_json::from_str::<serde_json::Value>(text) {
        Ok(v) => v.as_str().map(|s| s.to_string()),
        Err(_) => None,
    }
}

/// Parses the text with `serde_json` and calls `Value::as_u64`; claims that
/// the result is the named `json_u64_value`.
#[verifier::external_body]
pub(crate) fn u64_value(text: &str) -> (r: Option<u64>)
    requires
        json_text_is_valid(text@),
    ensures
        r == json_u64_value(text@),
{
    match serde_json::from_str::<serde_json::Value>(text) {
        Ok(v) => v.as_u64(),
        Err(_) => None,
    }
}

/// Parses the text with `serde_json` and calls `Value::is_object`; claims that
/// the result is the named `json_is_object`.
#[verifier::external_body]
pub(crate) fn is_object(text: &str) -> (r: bool)
    requires
        json_text_is_valid(text@),
    ensures
        r == json_is_object(text@),
{
    match serde_json::from_str::<serde_json::Value>(text) {
        Ok(v) => v.is_object(),
        Err(_) => false,
    }
}

/// Parses the text with `serde_json`, calls `Value::as_array` and renders each
/// element with `Value::to_string`; claims that the result is the named
/// `json_array_value` and, since `serde_json` renders only valid JSON, that
/// every rendered element parses again.
#[verifier::external_body]
pub(crate) fn array_value(text: &str) -> (r: Option<Vec<String>>)
    requires
        json_text_is_valid(text@),
    ensures
        r matches Some(items) ==> json_array_value(text@) == Some(crate::text::views(items@)),
        r matches Some(items) ==> forall|i: int|
            0 <= i < items@.len() ==> json_text_is_valid(#[trigger] items@[i]@),
        r is None ==> json_array_value(text@) is None,
{
    match serde_json::from_str::<serde_json::Value>(text) {
        Ok(v) => v.as_array().map(|items| items.iter().map(|e| e.to_string()).collect()),
        Err(_) => None,
    }
}

/// Parses the schema text with `serde_json` and compiles it with
/// `jsonschema::validator_for`; claims that it succeeds exactly when the named
/// `schema_compiles` holds.
#[verifier::external_body]
pub(crate) fn schema_is_usable(schema: &str) -> (r: bool)
    requires
        json_text_is_valid(schema@),
    ensures
        r == schema_compiles(schema@),
{
    match serde_json::from_str::<serde_json::Value>(schema) {
        Ok(s) => jsonschema::validator_for(&s).is_ok(),
        Err(_) => false,
    }
}

/// Validates the document against the schema with `jsonschema`
/// (`Validator::iter_errors`), rendering each error as "`<error>` at
/// `<instance path>`". Claims that the messages are the named
/// `schema_error_messages` of the two texts: the validator's output depends
/// on the schema and the document alone, as its hash sets serve lookups only
/// and the errors follow the schema's and the document's own order.
#[verifier::external_body]
pub(crate) fn schema_errors(schema: &str, doc: &str) -> (r: Vec<String>)
    requires
        json_text_is_valid(schema@),
        json_text_is_valid(doc@),
        schema_compiles(schema@),
    ensures
        crate::text::views(r@) == schema_error_messages(schema@, doc@),
{
    let s: serde_json::Value = serde_json::from_str(schema).unwrap_or_default();
    let d: serde_json::Value = serde_json::from_str(doc).unwrap_or_default();
    match jsonschema::validator_for(&s) {
        Ok(v) => v.iter_errors(&d).map(|e| format!("{} at {}", e, e.instance_path())).collect(),
        Err(_) => Vec::new(),
    }
}

/// A JSON document, held as a text that `serde_json` parses.
pub struct JsonDoc {
    text: String,
}

impl View for JsonDoc {
    type V = Seq<char>;

    closed spec fn view(&self) -> Seq<char> {
        self.text@
    }
}

impl JsonDoc {
    #[verifier::type_invariant]
    spec fn parses(self) -> bool {
        json_text_is_valid(self.text@)
    }

    /// The document with this text, if the text parses.
    pub fn parse(text: String) -> (r: Option<JsonDoc>)
        ensures
            r is Some <==> json_text_is_valid(text@),
            r matches Some(d) ==> d@ == text@,
    {
        if json_is_valid(text.as_str()) {
            Some(JsonDoc { text })
        } else {
            None
        }
    }

    /// The document's text.
    pub fn as_str(&self) -> (r: &str)
        ensures
            r@ == self@,
            json_text_is_valid(r@),
    {
        proof {
            use_type_invariant(self);
        }
        self.text.as_str()
    }
}

/// The string field `key` of the JSON text, if the text parses, its value has
/// that member and the member is a string.
pub open spec fn string_field(doc: Seq<char>, key: Seq<char>) -> Option<Seq<char>> {
    if json_text_is_valid(doc) {
        json_string_value(json_member(doc, key))
    } else {
        None
    }
}

/// Reads the string field `key` of a JSON text, as
/// `serde_json::from_str::<Value>(doc).ok()?.get(key)?.as_str()` does.
pub fn string_field_of(doc: &str, key: &str) -> (r: Option<String>)
    ensures
        r matches Some(s) ==> string_field(doc@, key@) == Some(s@),
        r is None ==> string_field(doc@, key@) is None,
{
    if !json_is_valid(doc) {
        return None;
    }
    let m = member_text(doc, key);
    string_value(&m)
}

/// What `truncate` gives: the text itself when its length in UTF-8 bytes (as
/// `str::len` reports it) is at most `max`, otherwise its first `max` characters followed by `...`.
pub open spec fn truncated(s: Seq<char>, max: nat) -> Seq<char> {
    if (encode_utf8(s).len() as usize) <= max {
        s
    } else if max <= s.len() {
        s.take(max as int) + "..."@
    } else {
        s + "..."@
    }
}

/// Shortens a text for an error message.
pub fn truncate(s: &str, max: usize) -> (r: String)
    ensures
        r@ == truncated(s@, max as nat),
{
    if s.len() <= max {
        owned(s)
    } else {
        let n: usize = s.unicode_len();
        let k: usize = if max <= n {
            max
        } else {
            n
        };
        let cut = String::from_str(s.substring_char(0, k));
        proof {
            if max > n {
                assert(s@.subrange(0, n as int) =~= s@);
            }
        }
        cut.concat("...")
    }
}

/// Why a reply holds no usable JSON object.
pub enum ExtractError {
    /// The text between the outermost braces does not parse.
    InvalidObject { excerpt: String },
    /// The reply has no `{ ... }` span at all.
    NoObject { excerpt: String },
}

impl ExtractError {
    /// The message that the error is reported with.
    pub fn message(&self) -> (r: String)
        ensures
            r@ == self.spec_message(),
    {
        match self {
            ExtractError::InvalidObject { excerpt } => String::from_str(
                "no valid JSON object in reply: ",
            ).concat(excerpt.as_str()),
            ExtractError::NoObject { excerpt } => String::from_str(
                "reply contains no JSON object: ",
            ).concat(excerpt.as_str()),
        }
    }

    pub open spec fn spec_message(&self) -> Seq<char> {
        match self {
            ExtractError::InvalidObject { excerpt } => "no valid JSON object in reply: "@
                + excerpt@,
            ExtractError::NoObject { excerpt } => "reply contains no JSON object: "@ + excerpt@,
        }
    }
}

/// The span from the first `{` to the last `}` of `t`, when the last `}`
/// comes after the first `{`.
pub open spec fn brace_span(t: Seq<char>) -> Option<Seq<char>> {
    match (t.index_of_first('{'), t.index_of_last('}')) {
        (Some(start), Some(end)) => if end > start {
            Some(t.subrange(start, end + 1))
        } else {
            None
        },
        _ => None,
    }
}

/// Whether the text parses to a JSON object.
pub open spec fn object_text(t: Seq<char>) -> bool {
    json_text_is_valid(t) && json_is_object(t)
}

/// Whether the text parses to a JSON object, asked of `serde_json`.
fn is_object_text(t: &str) -> (r: bool)
    ensures
        r == object_text(t@),
{
    json_is_valid(t) && is_object(t)
}

/// How many characters of a reply an error message quotes.
pub open spec fn excerpt_len() -> nat {
    200
}

/// Pulls a JSON object out of a model's reply, tolerating code fences and
/// prose around it: the trimmed reply if it is a JSON object as a whole, else
/// the span from its first `{` to its last `}` if that is one. A reply that is
/// JSON of another kind (a number, an array) counts only through such a span.
pub fn extract_json(raw: &str) -> (r: Result<JsonDoc, ExtractError>)
    ensures
        ({
            let t = trim(raw@);
            if object_text(t) {
                r matches Ok(v) && v@ == t
            } else {
                match brace_span(t) {
                    Some(c) => if object_text(c) {
                        r matches Ok(v) && v@ == c
                    } else {
                        r matches Err(ExtractError::InvalidObject { excerpt }) && excerpt@
                            == truncated(raw@, excerpt_len())
                    },
                    None => r matches Err(ExtractError::NoObject { excerpt }) && excerpt@
                        == truncated(raw@, excerpt_len()),
                }
            }
        }),
{
    let trimmed = trim_str(raw);
    if is_object_text(trimmed.as_str()) {
        return Ok(JsonDoc { text: trimmed });
    }
    let start = find_char(trimmed.as_str(), '{');
    let end = rfind_char(trimmed.as_str(), '}');
    match (start, end) {
        (Some(s), Some(e)) => {
            proof {
                trimmed@.index_of_last_ensures('}');
                trimmed@.index_of_first_ensures('{');
            }
            if e > s {
                let candidate = String::from_str(trimmed.as_str().substring_char(s, e + 1));
                if is_object_text(candidate.as_str()) {
                    return Ok(JsonDoc { text: candidate });
                } else {
                    return Err(ExtractError::InvalidObject { excerpt: truncate(raw, 200) });
                }
            }
        },
        _ => {},
    }
    Err(ExtractError::NoObject { excerpt: truncate(raw, 200) })
}

/// The span that a reply falls back on is the outermost one: there is one
/// exactly when some `{` comes before some `}`, and then it runs from a `{`
/// with none before it to a `}` with none after it.
pub proof fn brace_span_is_outermost(t: Seq<char>)
    ensures
        brace_span(t) is Some <==> exists|i: int, j: int|
            0 <= i < j < t.len() && #[trigger] t[i] == '{' && #[trigger] t[j] == '}',
        brace_span(t) matches Some(c) ==> exists|i: int, j: int|
            0 <= i < j < t.len() && c == #[trigger] t.subrange(i, j + 1) && t[i] == '{' && t[j]
                == '}' && (forall|k: int| 0 <= k < i ==> #[trigger] t[k] != '{') && (forall|k: int|
                j < k < t.len() ==> #[trigger] t[k] != '}'),
{
    t.index_of_first_ensures('{');
    t.index_of_last_ensures('}');
    match (t.index_of_first('{'), t.index_of_last('}')) {
        (Some(start), Some(end)) => {
            if end > start {
                assert(t[start] == '{' && t[end] == '}');
            } else {
                assert forall|i: int, j: int|
                    0 <= i < j < t.len() && #[trigger] t[i] == '{' implies #[trigger] t[j] != '}' by {
                    assert(t.contains(t[i]));
                    assert(t.contains(t[j]) || t[j] != '}');
                }
            }
        },
        _ => {
            assert forall|i: int, j: int|
                0 <= i < j < t.len() && #[trigger] t[i] == '{' implies #[trigger] t[j] != '}' by {
                assert(t.contains(t[i]));
                assert(t.contains(t[j]));
            }
        },
    }
}

/// An object set in prose is found whole: where the trimmed reply is prose
/// without `{`, then the object's text, then prose without `}`, and the whole
/// reply is not itself an object, the reply yields that object.
pub proof fn object_in_prose_is_found(
    raw: Seq<char>,
    before: Seq<char>,
    object: Seq<char>,
    after: Seq<char>,
)
    requires
        trim(raw) == before + object + after,
        !object_text(trim(raw)),
        object_text(object),
        object.len() >= 2,
        object[0] == '{',
        object[object.len() - 1] == '}',
        forall|k: int| 0 <= k < before.len() ==> #[trigger] before[k] != '{',
        forall|k: int| 0 <= k < after.len() ==> #[trigger] after[k] != '}',
    ensures
        brace_span(trim(raw)) == Some(object),
        crate::llm::reply_json(raw) == Some(object),
{
    let t = trim(raw);
    let i = before.len() as int;
    let j = before.len() + object.len() - 1;
    assert(t[i] == '{');
    assert(t[j] == '}');
    brace_span_is_outermost(t);
    let c = brace_span(t).unwrap();
    let (i2, j2) = choose|i2: int, j2: int|
        0 <= i2 < j2 < t.len() && c == #[trigger] t.subrange(i2, j2 + 1) && t[i2] == '{' && t[j2]
            == '}' && (forall|k: int| 0 <= k < i2 ==> #[trigger] t[k] != '{') && (forall|k: int|
            j2 < k < t.len() ==> #[trigger] t[k] != '}');
    assert(i2 == i) by {
        if i2 < i {
            assert(t[i2] == before[i2]);
        }
    }
    assert(j2 == j) by {
        if j2 > j {
            assert(t[j2] == after[j2 - j - 1]);
        }
    }
    assert(c =~= object);
}

} // verus!
