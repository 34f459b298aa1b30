use aliceandbob::json::{extract_json, string_field_of, truncate, ExtractError, JsonDoc};
use aliceandbob::llm::{ChatMessage, RepairLoop};
use aliceandbob::prompts::{memo_from_json, REFLECTION_SCHEMA};
use aliceandbob::text::{decimal_string, parse_u32, trim_str};

#[test]
fn truncate_keeps_short_text_and_cuts_long_text() {
    assert_eq!(truncate("abc", 3), "abc");
    assert_eq!(truncate("abcdef", 3), "abc...");
    // five characters but six bytes: over a limit of five bytes
    assert_eq!(truncate("héllo", 5), "héllo...");
    assert_eq!(truncate("héllo", 6), "héllo");
    assert_eq!(truncate("", 0), "");
}

#[test]
fn extract_json_takes_the_whole_trimmed_reply_when_it_parses() {
    assert_eq!(extract_json("  {\"a\": 1}\n").ok().map(|d| d.as_str().to_string()), Some("{\"a\": 1}".to_string()));
}

#[test]
fn extract_json_takes_objects_only() {
    match extract_json("[1, 2]") {
        Err(e) => assert_eq!(e.message(), "reply contains no JSON object: [1, 2]"),
        Ok(_) => panic!("an array is no object"),
    }
    match extract_json(" 42 ") {
        Err(e) => assert!(matches!(e, ExtractError::NoObject { .. })),
        Ok(_) => panic!("a number is no object"),
    }
    assert_eq!(
        extract_json("[{\"a\": 1}]").ok().map(|d| d.as_str().to_string()),
        Some("{\"a\": 1}".to_string())
    );
    match extract_json("\"{x}\"") {
        Err(e) => assert!(matches!(e, ExtractError::InvalidObject { .. })),
        Ok(_) => panic!("a string is no object"),
    }
}

#[test]
fn extract_json_finds_the_object_between_outer_braces() {
    let raw = "Sure! ```json\n{\"move\": \"cooperate\"}\n``` good luck";
    assert_eq!(extract_json(raw).ok().map(|d| d.as_str().to_string()), Some("{\"move\": \"cooperate\"}".to_string()));
}

#[test]
fn extract_json_reports_replies_without_an_object() {
    match extract_json("no json here") {
        Err(e) => {
            assert!(matches!(e, ExtractError::NoObject { .. }));
            assert_eq!(e.message(), "reply contains no JSON object: no json here");
        }
        Ok(_) => panic!("expected an error"),
    }
    match extract_json("} backwards {") {
        Err(e) => assert!(matches!(e, ExtractError::NoObject { .. })),
        Ok(_) => panic!("expected an error"),
    }
}

#[test]
fn extract_json_reports_an_unparseable_object() {
    match extract_json("here { not json } at all") {
        Err(e) => {
            assert!(matches!(e, ExtractError::InvalidObject { .. }));
            assert_eq!(e.message(), "no valid JSON object in reply: here { not json } at all");
        }
        Ok(_) => panic!("expected an error"),
    }
    let long = format!("{{ {} }}", "x".repeat(300));
    match extract_json(&long) {
        Err(e) => {
            let m = e.message();
            assert!(m.ends_with("..."));
            assert_eq!(m.chars().count(), "no valid JSON object in reply: ".len() + 200 + 3);
        }
        Ok(_) => panic!("expected an error"),
    }
}

#[test]
fn string_fields_read_strings_only() {
    assert_eq!(string_field_of("{\"move\":\"defect\"}", "move"), Some("defect".to_string()));
    assert_eq!(string_field_of("{\"move\":3}", "move"), None);
    assert_eq!(string_field_of("{\"other\":\"x\"}", "move"), None);
    assert_eq!(string_field_of("not json", "move"), None);
}

#[test]
fn text_helpers_follow_std() {
    assert_eq!(trim_str(" \t hi there \n"), "hi there");
    assert_eq!(trim_str("\u{3000}x\u{a0}"), "x");
    assert_eq!(decimal_string(0), "0");
    assert_eq!(decimal_string(1234567890123), "1234567890123");
    assert_eq!(parse_u32("42"), Some(42));
    assert_eq!(parse_u32("+42"), Some(42));
    assert_eq!(parse_u32("007"), Some(7));
    assert_eq!(parse_u32("-1"), None);
    assert_eq!(parse_u32("+"), None);
    assert_eq!(parse_u32(""), None);
    assert_eq!(parse_u32("4294967295"), Some(u32::MAX));
    assert_eq!(parse_u32("4294967296"), None);
    assert_eq!(parse_u32("12a"), None);
}

fn conversation_roles(l: &RepairLoop) -> Vec<String> {
    l.conversation().iter().map(|m| m.role.clone()).collect()
}

#[test]
fn repair_loop_reprompts_with_the_error_until_valid() {
    let messages = vec![ChatMessage::system("sys".to_string()), ChatMessage::user("go".to_string())];
    let mut l = match RepairLoop::new(messages, Some(REFLECTION_SCHEMA.to_string()), 2) {
        Ok(l) => l,
        Err(_) => panic!("the schema compiles"),
    };
    assert!(l.next_request());
    assert_eq!(conversation_roles(&l), vec!["system", "user"]);
    assert!(l.record_reply("I refuse".to_string()).is_none());
    assert!(l.next_request());
    let last = l.conversation().last().unwrap().content.clone();
    assert_eq!(
        last,
        "Your previous reply was invalid: reply contains no JSON object: I refuse\nReply again with ONLY a valid JSON object, no prose, no code fences."
    );
    // valid JSON that the schema refuses (no memo)
    assert!(l.record_reply("{\"reflection\": \"hm\"}".to_string()).is_none());
    assert!(l.next_request());
    let last = l.conversation().last().unwrap().content.clone();
    assert_eq!(
        last,
        "Your previous reply was invalid: \"memo\" is a required property at \nReply again with ONLY a valid JSON object, no prose, no code fences."
    );
    let accepted = l.record_reply("{\"memo\": \"play tit for tat\"}".to_string()).map(|d| d.as_str().to_string());
    assert_eq!(accepted, Some("{\"memo\": \"play tit for tat\"}".to_string()));
    assert_eq!(
        conversation_roles(&l),
        vec!["system", "user", "assistant", "user", "assistant", "user", "assistant"]
    );
    assert_eq!(memo_from_json(&accepted.unwrap()), Ok("play tit for tat".to_string()));
}

#[test]
fn repair_loop_gives_up_after_the_repairs_allowed() {
    let mut l = match RepairLoop::new(vec![ChatMessage::user("go".to_string())], None, 1) {
        Ok(l) => l,
        Err(_) => panic!("no schema to refuse"),
    };
    let mut requests = 0;
    while l.next_request() {
        requests += 1;
        assert!(l.record_reply("nothing".to_string()).is_none());
    }
    assert_eq!(requests, 2);
    assert_eq!(
        l.failure_message("llama"),
        "llama failed to produce valid JSON after 1 repairs: reply contains no JSON object: nothing"
    );
}

#[test]
fn repair_loop_accepts_any_json_without_a_schema() {
    let mut l = match RepairLoop::new(vec![ChatMessage::user("go".to_string())], None, 0) {
        Ok(l) => l,
        Err(_) => panic!("no schema to refuse"),
    };
    assert!(l.next_request());
    assert_eq!(l.record_reply("{\"x\": 1}".to_string()).map(|d| d.as_str().to_string()), Some("{\"x\": 1}".to_string()));
}

#[test]
fn repair_loop_refuses_an_unusable_schema() {
    assert_eq!(
        RepairLoop::new(vec![], Some("{\"type\": 12}".to_string()), 2).err(),
        Some("compiling JSON schema".to_string())
    );
    assert_eq!(
        RepairLoop::new(vec![], Some("not json".to_string()), 2).err(),
        Some("compiling JSON schema".to_string())
    );
}

#[test]
fn memo_is_required_in_a_reflection() {
    assert_eq!(memo_from_json("{\"reflection\": \"x\"}"), Err("reflection reply missing memo".to_string()));
}

#[test]
fn schema_errors_become_the_last_error_joined() {
    let mut l = match RepairLoop::new(vec![ChatMessage::user("go".to_string())], None, 0) {
        Ok(l) => l,
        Err(_) => panic!("no schema to refuse"),
    };
    let doc = JsonDoc::parse("{\"x\": 1}".to_string()).unwrap();
    let errors = vec!["first at /a".to_string(), "second at /b".to_string()];
    assert!(l.apply_schema_errors(doc, &errors).is_none());
    assert_eq!(l.failure_message("m"), "m failed to produce valid JSON after 0 repairs: first at /a; second at /b");
    let doc = JsonDoc::parse("{\"x\": 2}".to_string()).unwrap();
    let kept = l.apply_schema_errors(doc, &Vec::new()).map(|d| d.as_str().to_string());
    assert_eq!(kept, Some("{\"x\": 2}".to_string()));
    assert_eq!(l.failure_message("m"), "m failed to produce valid JSON after 0 repairs: first at /a; second at /b");
}

#[test]
fn repair_loop_refuses_json_that_is_no_object() {
    let mut l = match RepairLoop::new(vec![ChatMessage::user("go".to_string())], None, 0) {
        Ok(l) => l,
        Err(_) => panic!("no schema to refuse"),
    };
    assert!(l.next_request());
    assert!(l.record_reply("[1, 2]".to_string()).is_none());
    assert!(!l.next_request());
    assert_eq!(l.failure_message("m"), "m failed to produce valid JSON after 0 repairs: reply contains no JSON object: [1, 2]");
}

#[test]
fn repair_loop_quotes_every_schema_error() {
    let schema = "{\"type\":\"object\",\"required\":[\"a\",\"b\"]}".to_string();
    let mut l = match RepairLoop::new(vec![ChatMessage::user("go".to_string())], Some(schema), 0) {
        Ok(l) => l,
        Err(_) => panic!("the schema compiles"),
    };
    assert!(l.next_request());
    assert!(l.record_reply("{}".to_string()).is_none());
    assert_eq!(
        l.failure_message("m"),
        "m failed to produce valid JSON after 0 repairs: \"a\" is a required property at ; \"b\" is a required property at "
    );
}
