//! Addressing chat models and the decisions of the JSON repair loop: a chat
//! that must produce JSON is re-prompted with the error until it does, or
//! until the repairs allowed are spent.

use vstd::prelude::*;
use vstd::string::*;

use crate::config::{agent_ids, opt_str, Config, Environment, ProviderConfig};
use crate::json::{
    extract_json, json_is_valid, json_text_is_valid, object_text, schema_accepts, schema_error_messages, schema_compiles,
    schema_errors, schema_is_usable, brace_span, ExtractError, JsonDoc,
};
use crate::text::{decimal, decimal_string, join, join_strings, views, owned, trim, trim_end_char, trim_end_matches_char};

verus! {

/// Where to send a chat request: an OpenAI-compatible endpoint plus a model id.
pub struct ModelRef {
    pub base_url: String,
    pub api_key: Option<String>,
    pub model: String,
}

/// Why no model could be addressed for an agent.
pub enum ModelError {
    UnknownAgent { agent_id: String },
    UnknownProvider { provider: String },
}

impl ModelError {
    pub open spec fn spec_message(&self) -> Seq<char> {
        match self {
            ModelError::UnknownAgent { agent_id } => "unknown agent '"@ + agent_id@ + "'"@,
            ModelError::UnknownProvider { provider } => "unknown provider '"@ + provider@ + "'"@,
        }
    }

    /// The message that the error is reported with.
    pub fn message(&self) -> (r: String)
        ensures
            r@ == self.spec_message(),
    {
        match self {
            ModelError::UnknownAgent { agent_id } => String::from_str("unknown agent '").concat(
                agent_id.as_str(),
            ).concat("'"),
            ModelError::UnknownProvider { provider } => String::from_str(
                "unknown provider '",
            ).concat(provider.as_str()).concat("'"),
        }
    }
}

impl ModelRef {
    /// The model reference for `model` at `provider`: the base url without
    /// trailing slashes, and the provider's API key.
    pub fn from_provider(provider: &ProviderConfig, model: &str, env: &Environment) -> (r: Self)
        ensures
            r.base_url@ == trim_end_char(provider.base_url@, '/'),
            opt_str(r.api_key) == provider.spec_api_key(env@),
            r.model@ == model@,
    {
        ModelRef {
            base_url: trim_end_matches_char(provider.base_url.as_str(), '/'),
            api_key: provider.resolve_api_key(env),
            model: owned(model),
        }
    }

    /// The model reference of a configured agent.
    pub fn for_agent(config: &Config, agent_id: &str, env: &Environment) -> (r: Result<
        Self,
        ModelError,
    >)
        ensures
            match agent_ids(config.agents@).index_of_first(agent_id@) {
                None => r matches Err(ModelError::UnknownAgent { agent_id: a }) && a@ == agent_id@,
                Some(i) => {
                    let agent = config.agents@[i];
                    if config.providers@.contains_key(agent.provider@) {
                        let p = config.providers@[agent.provider@];
                        r matches Ok(m) && m.base_url@ == trim_end_char(p.base_url@, '/')
                            && opt_str(m.api_key) == p.spec_api_key(env@) && m.model@
                            == agent.model@
                    } else {
                        r matches Err(ModelError::UnknownProvider { provider }) && provider@
                            == agent.provider@
                    }
                },
            },
    {
        let agent = match config.agent(agent_id) {
            Some(a) => a,
            None => {
                return Err(ModelError::UnknownAgent { agent_id: owned(agent_id) });
            },
        };
        let provider = match config.providers.get(agent.provider.as_str()) {
            Some(p) => p,
            None => {
                return Err(ModelError::UnknownProvider { provider: agent.provider.clone() });
            },
        };
        Ok(Self::from_provider(provider, agent.model.as_str(), env))
    }

    /// The chat-completions endpoint of the model's provider.
    pub fn completions_url(&self) -> (r: String)
        ensures
            r@ == self.base_url@ + "/chat/completions"@,
    {
        self.base_url.clone().concat("/chat/completions")
    }
}

pub struct ChatMessage {
    pub role: String,
    pub content: String,
}

/// A message as role and content.
pub open spec fn message_view(m: ChatMessage) -> (Seq<char>, Seq<char>) {
    (m.role@, m.content@)
}

/// A conversation as roles and contents.
pub open spec fn conversation_view(c: Seq<ChatMessage>) -> Seq<(Seq<char>, Seq<char>)> {
    c.map_values(|m: ChatMessage| message_view(m))
}

impl ChatMessage {
    pub fn system(content: String) -> (r: Self)
        ensures
            r.role@ == "system"@,
            r.content@ == content@,
    {
        ChatMessage { role: String::from_str("system"), content }
    }

    pub fn user(content: String) -> (r: Self)
        ensures
            r.role@ == "user"@,
            r.content@ == content@,
    {
        ChatMessage { role: String::from_str("user"), content }
    }

    pub fn assistant(content: String) -> (r: Self)
        ensures
            r.role@ == "assistant"@,
            r.content@ == content@,
    {
        ChatMessage { role: String::from_str("assistant"), content }
    }
}

/// The message that asks the model to repair an invalid reply.
pub open spec fn repair_prompt(last_error: Seq<char>) -> Seq<char> {
    "Your previous reply was invalid: "@ + last_error
        + "\nReply again with ONLY a valid JSON object, no prose, no code fences."@
}

/// The error with which a chat that must produce JSON gives up.
pub open spec fn exhausted_message(model: Seq<char>, max_repairs: u32, last_error: Seq<char>) -> Seq<
    char,
> {
    model + " failed to produce valid JSON after "@ + decimal(max_repairs as nat) + " repairs: "@
        + last_error
}

/// The error of a schema that cannot be used.
pub open spec fn schema_error_message() -> Seq<char> {
    "compiling JSON schema"@
}

/// The JSON object text that a reply yields, if any: what `extract_json`
/// finds.
pub open spec fn reply_json(raw: Seq<char>) -> Option<Seq<char>> {
    let t = trim(raw);
    if object_text(t) {
        Some(t)
    } else {
        match brace_span(t) {
            Some(c) => if object_text(c) {
                Some(c)
            } else {
                None
            },
            None => None,
        }
    }
}

/// The repair loop of a chat that must produce JSON, optionally valid against
/// a JSON Schema. The caller sends `conversation()` to the model whenever
/// `next_request` allows it and hands each reply to `record_reply`.
pub struct RepairLoop {
    conversation: Vec<ChatMessage>,
    schema: Option<String>,
    last_error: String,
    /// Replies received so far.
    replies: u64,
    max_repairs: u32,
    /// A request has been released and its reply not yet recorded.
    pending: bool,
}

impl RepairLoop {
    pub closed spec fn spec_conversation(&self) -> Seq<(Seq<char>, Seq<char>)> {
        conversation_view(self.conversation@)
    }

    pub closed spec fn spec_schema(&self) -> Option<Seq<char>> {
        opt_str(self.schema)
    }

    pub closed spec fn spec_last_error(&self) -> Seq<char> {
        self.last_error@
    }

    pub closed spec fn spec_replies(&self) -> nat {
        self.replies as nat
    }

    pub closed spec fn spec_max_repairs(&self) -> u32 {
        self.max_repairs
    }

    pub closed spec fn spec_pending(&self) -> bool {
        self.pending
    }

    /// The loop's invariant: a schema, when there is one, is usable, and no
    /// more replies are taken than the first request and its repairs.
    pub closed spec fn wf(&self) -> bool {
        &&& self.schema matches Some(s) ==> json_text_is_valid(s@) && schema_compiles(s@)
        &&& self.replies <= self.max_repairs as u64 + 1
        &&& self.pending ==> self.replies <= self.max_repairs as u64
    }

    /// Starts the loop on `messages`. Refuses a schema that is not valid JSON
    /// or that `jsonschema` cannot compile.
    pub fn new(messages: Vec<ChatMessage>, schema: Option<String>, max_repairs: u32) -> (r: Result<
        Self,
        String,
    >)
        ensures
            match schema {
                Some(s) => !(json_text_is_valid(s@) && schema_compiles(s@)) <==> r is Err,
                None => r is Ok,
            },
            r matches Err(e) ==> e@ == schema_error_message(),
            r matches Ok(l) ==> {
                &&& l.wf()
                &&& l.spec_conversation() == conversation_view(messages@)
                &&& l.spec_schema() == opt_str(schema)
                &&& l.spec_replies() == 0
                &&& l.spec_max_repairs() == max_repairs
                &&& !l.spec_pending()
                &&& l.spec_last_error() == Seq::<char>::empty()
            },
    {
        if let Some(s) = &schema {
            if !json_is_valid(s.as_str()) || !schema_is_usable(s.as_str()) {
                return Err(String::from_str("compiling JSON schema"));
            }
        }
        Ok(
            RepairLoop {
                conversation: messages,
                schema,
                last_error: String::new(),
                replies: 0,
                max_repairs,
                pending: false,
            },
        )
    }

    /// The conversation to send.
    pub fn conversation(&self) -> (r: &Vec<ChatMessage>)
        ensures
            conversation_view(r@) == self.spec_conversation(),
    {
        &self.conversation
    }

    /// Releases the next request, if the repairs allowed are not spent: the
    /// first request goes out as given; each later one first appends a user
    /// message that quotes the last error.
    pub fn next_request(&mut self) -> (r: bool)
        requires
            old(self).wf(),
            !old(self).spec_pending(),
        ensures
            final(self).wf(),
            r == (old(self).spec_replies() <= old(self).spec_max_repairs()),
            final(self).spec_pending() == r,
            final(self).spec_replies() == old(self).spec_replies(),
            final(self).spec_schema() == old(self).spec_schema(),
            final(self).spec_max_repairs() == old(self).spec_max_repairs(),
            final(self).spec_last_error() == old(self).spec_last_error(),
            final(self).spec_conversation() == if r && old(self).spec_replies() > 0 {
                old(self).spec_conversation().push(
                    ("user"@, repair_prompt(old(self).spec_last_error())),
                )
            } else {
                old(self).spec_conversation()
            },
    {
        if self.replies > self.max_repairs as u64 {
            return false;
        }
        if self.replies > 0 {
            let prompt = String::from_str("Your previous reply was invalid: ").concat(
                self.last_error.as_str(),
            ).concat("\nReply again with ONLY a valid JSON object, no prose, no code fences.");
            let ghost before = self.conversation@;
            self.conversation.push(ChatMessage::user(prompt));
            assert(conversation_view(self.conversation@) =~= conversation_view(before).push(
                ("user"@, repair_prompt(self.last_error@)),
            ));
        }
        self.pending = true;
        true
    }

    /// Records the reply to the released request. Returns the JSON object
    /// when the reply holds one that the schema, if any, accepts; else keeps
    /// the reason as the last error: why no object was found, or the schema
    /// validator's error messages joined with "; ".
    pub fn record_reply(&mut self, raw: String) -> (r: Option<JsonDoc>)
        requires
            old(self).wf(),
            old(self).spec_pending(),
        ensures
            final(self).wf(),
            !final(self).spec_pending(),
            final(self).spec_conversation() == old(self).spec_conversation().push(
                ("assistant"@, raw@),
            ),
            final(self).spec_schema() == old(self).spec_schema(),
            final(self).spec_max_repairs() == old(self).spec_max_repairs(),
            final(self).spec_replies() == old(self).spec_replies() + 1,
            match reply_json(raw@) {
                None => r is None && exists|e: ExtractError|
                    #![auto]
                    extract_json_fails(raw@, e) && final(self).spec_last_error()
                        == e.spec_message(),
                Some(t) => match old(self).spec_schema() {
                    None => r matches Some(j) && j@ == t && final(self).spec_last_error()
                        == old(self).spec_last_error(),
                    Some(s) => if schema_accepts(s, t) {
                        r matches Some(j) && j@ == t && final(self).spec_last_error()
                            == old(self).spec_last_error()
                    } else {
                        r is None && final(self).spec_last_error() == join(
                            schema_error_messages(s, t),
                            "; "@,
                        )
                    },
                },
            },
    {
        let ghost before = self.conversation@;
        self.conversation.push(ChatMessage::assistant(raw.clone()));
        assert(conversation_view(self.conversation@) =~= conversation_view(before).push(
            ("assistant"@, raw@),
        ));
        self.pending = false;
        self.replies = self.replies + 1;
        match extract_json(raw.as_str()) {
            Err(e) => {
                self.last_error = e.message();
                None
            },
            Ok(doc) => {
                match &self.schema {
                    None => Some(doc),
                    Some(s) => {
                        let errors = schema_errors(s.as_str(), doc.as_str());
                        self.apply_schema_errors(doc, &errors)
                    },
                }
            },
        }
    }

    /// Settles a reply's JSON object by the validator's error messages: with
    /// none the object is the result; otherwise the messages, joined with
    /// "; ", become the last error and there is no result.
    pub fn apply_schema_errors(&mut self, doc: JsonDoc, errors: &Vec<String>) -> (r: Option<
        JsonDoc,
    >)
        ensures
            errors@.len() == 0 ==> r == Some(doc) && final(self).spec_last_error() == old(
                self,
            ).spec_last_error(),
            errors@.len() > 0 ==> r is None && final(self).spec_last_error() == join(
                views(errors@),
                "; "@,
            ),
            final(self).spec_conversation() == old(self).spec_conversation(),
            final(self).spec_schema() == old(self).spec_schema(),
            final(self).spec_max_repairs() == old(self).spec_max_repairs(),
            final(self).spec_replies() == old(self).spec_replies(),
            final(self).spec_pending() == old(self).spec_pending(),
            old(self).wf() ==> final(self).wf(),
    {
        if errors.len() == 0 {
            Some(doc)
        } else {
            self.last_error = join_strings(errors, "; ");
            None
        }
    }

    /// The error that the loop gives up with once the repairs are spent.
    pub fn failure_message(&self, model: &str) -> (r: String)
        ensures
            r@ == exhausted_message(model@, self.spec_max_repairs(), self.spec_last_error()),
    {
        owned(model).concat(" failed to produce valid JSON after ").concat(
            decimal_string(self.max_repairs as u64).as_str(),
        ).concat(" repairs: ").concat(self.last_error.as_str())
    }
}

/// `extract_json` refuses `raw` with error `e`.
pub open spec fn extract_json_fails(raw: Seq<char>, e: ExtractError) -> bool {
    let t = trim(raw);
    &&& !object_text(t)
    &&& match brace_span(t) {
        Some(c) => !object_text(c) && (e matches ExtractError::InvalidObject { excerpt }
            && excerpt@ == crate::json::truncated(raw, crate::json::excerpt_len())),
        None => e matches ExtractError::NoObject { excerpt } && excerpt@
            == crate::json::truncated(raw, crate::json::excerpt_len()),
    }
}

/// A chat that must produce JSON asks its model at most `max_repairs + 1`
/// times: the first request and one per repair.
pub proof fn repair_budget(l: RepairLoop)
    requires
        l.wf(),
    ensures
        l.spec_replies() <= l.spec_max_repairs() + 1,
{
}

} // verus!
