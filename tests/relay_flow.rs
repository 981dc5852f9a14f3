use chat_relay::error::RelayError;
use chat_relay::gateway::{Choice, CompletionResponse, Delivery, RelayConfig};
use chat_relay::message::ChatMessage;
use chat_relay::relay::{
    cleared_fragment, finish_reply, landing_page, require_session, start_regeneration, start_turn,
    LandingPage, SendMessageRequest,
};

fn strings(items: &[&str]) -> Vec<String> {
    items.iter().map(|s| s.to_string()).collect()
}

fn pairs(messages: &[ChatMessage]) -> Vec<(String, String)> {
    messages.iter().map(|m| (m.role.clone(), m.content.clone())).collect()
}

fn pair(role: &str, content: &str) -> (String, String) {
    (role.to_string(), content.to_string())
}

fn answer(text: &str) -> Delivery {
    Delivery::Received(CompletionResponse {
        choices: vec![Choice {
            message: ChatMessage::new("assistant".to_string(), text.to_string()),
            logprobs: None,
            finish_reason: "stop".to_string(),
        }],
    })
}

fn form(contents: &[&str], roles: &[&str], user_message: &str, context: &str, index: Option<&str>) -> SendMessageRequest {
    SendMessageRequest {
        content: Some(strings(contents)),
        role: Some(strings(roles)),
        context: context.to_string(),
        user_message: user_message.to_string(),
        regenerate_index: index.map(|s| s.to_string()),
    }
}

#[test]
fn submit_turn_end_to_end() {
    let pending = start_turn(Some("alice".to_string()), form(&["hi"], &["AI"], "hello", "be terse", None)).unwrap();
    assert_eq!(pairs(&pending.display), vec![pair("AI", "hi"), pair("alice", "hello")]);
    assert_eq!(
        pairs(&pending.request.messages),
        vec![pair("system", "be terse"), pair("AI", "hi"), pair("alice", "hello")]
    );
    assert_eq!(pending.request.model, "gpt-3.5-turbo");
    let fragment = finish_reply(pending, &answer("hey"), false).unwrap();
    assert_eq!(
        pairs(&fragment.messages),
        vec![pair("AI", "hi"), pair("alice", "hello"), pair("AI", "hey")]
    );
    assert_eq!(fragment.context, "be terse");
    assert_eq!(fragment.user_message, "");
}

#[test]
fn regenerate_end_to_end() {
    let f = form(&["hi", "hello", "hey"], &["AI", "alice", "AI"], "", "be terse", Some("1"));
    let pending = start_regeneration(Some("alice".to_string()), f).unwrap();
    assert_eq!(pairs(&pending.display), vec![pair("AI", "hi")]);
    assert_eq!(pairs(&pending.request.messages), vec![pair("system", "be terse"), pair("AI", "hi")]);
    let fragment = finish_reply(pending, &answer("again"), false).unwrap();
    assert_eq!(pairs(&fragment.messages), vec![pair("AI", "hi"), pair("AI", "again")]);
    assert_eq!(fragment.context, "be terse");
}

#[test]
fn regenerate_from_zero_keeps_nothing() {
    let f = form(&["hi", "hello"], &["AI", "alice"], "", "", Some("0"));
    let pending = start_regeneration(Some("alice".to_string()), f).unwrap();
    assert!(pending.display.is_empty());
    let fragment = finish_reply(pending, &answer("new"), false).unwrap();
    assert_eq!(pairs(&fragment.messages), vec![pair("AI", "new")]);
}

#[test]
fn regenerate_without_index_passes_through() {
    let f = form(&["hi", "hello"], &["AI", "alice"], "", "c", None);
    let pending = start_regeneration(Some("alice".to_string()), f).unwrap();
    assert_eq!(pairs(&pending.display), vec![pair("AI", "hi"), pair("alice", "hello")]);
}

#[test]
fn regenerate_with_unreadable_index_passes_through() {
    for index in ["abc", "-1", "", "1.5", "99999999999999999999999999"] {
        let f = form(&["hi", "hello"], &["AI", "alice"], "", "c", Some(index));
        let pending = start_regeneration(Some("alice".to_string()), f).unwrap();
        assert_eq!(pairs(&pending.display), vec![pair("AI", "hi"), pair("alice", "hello")]);
    }
}

#[test]
fn regenerate_with_index_past_end_passes_through() {
    let f = form(&["hi", "hello"], &["AI", "alice"], "", "c", Some("7"));
    let pending = start_regeneration(Some("alice".to_string()), f).unwrap();
    assert_eq!(pairs(&pending.display), vec![pair("AI", "hi"), pair("alice", "hello")]);
}

#[test]
fn missing_session_is_refused() {
    let f = form(&["hi"], &["AI"], "hello", "c", None);
    assert!(matches!(start_turn(None, f), Err(RelayError::Unauthenticated)));
    let f = form(&["hi"], &["AI"], "", "c", Some("0"));
    assert!(matches!(start_regeneration(None, f), Err(RelayError::Unauthenticated)));
    assert!(matches!(require_session(None), Err(RelayError::Unauthenticated)));
    assert_eq!(require_session(Some("bob".to_string())).unwrap(), "bob");
}

#[test]
fn mismatched_arrays_are_malformed_history() {
    let f = form(&["hi", "there"], &["AI"], "hello", "c", None);
    assert!(matches!(start_turn(Some("a".to_string()), f), Err(RelayError::MalformedHistory)));
    let f = form(&["hi"], &["AI", "a"], "", "c", None);
    assert!(matches!(start_regeneration(Some("a".to_string()), f), Err(RelayError::MalformedHistory)));
}

#[test]
fn absent_arrays_decode_as_empty() {
    let f = SendMessageRequest {
        content: None,
        role: None,
        context: "ctx".to_string(),
        user_message: "first".to_string(),
        regenerate_index: None,
    };
    let pending = start_turn(Some("a".to_string()), f).unwrap();
    assert_eq!(pairs(&pending.display), vec![pair("a", "first")]);
    assert_eq!(pairs(&pending.request.messages), vec![pair("system", "ctx"), pair("a", "first")]);
}

#[test]
fn empty_choices_are_upstream_malformed() {
    let pending = start_turn(Some("a".to_string()), form(&[], &[], "hi", "", None)).unwrap();
    let empty = Delivery::Received(CompletionResponse { choices: vec![] });
    assert!(matches!(finish_reply(pending, &empty, false), Err(RelayError::UpstreamMalformed)));
}

#[test]
fn failed_deliveries_keep_their_kind() {
    let pending = start_turn(Some("a".to_string()), form(&[], &[], "hi", "", None)).unwrap();
    assert!(matches!(finish_reply(pending, &Delivery::Unreachable, false), Err(RelayError::UpstreamUnreachable)));
    let pending = start_turn(Some("a".to_string()), form(&[], &[], "hi", "", None)).unwrap();
    assert!(matches!(finish_reply(pending, &Delivery::Undecodable, true), Err(RelayError::UpstreamMalformed)));
}

#[test]
fn reasoning_is_stripped_when_asked() {
    let pending = start_turn(Some("a".to_string()), form(&[], &[], "hi", "", None)).unwrap();
    let fragment = finish_reply(pending, &answer("thinking...</think>\n\nhey"), true).unwrap();
    assert_eq!(pairs(&fragment.messages), vec![pair("a", "hi"), pair("AI", "\n\nhey")]);
}

#[test]
fn missing_marker_is_refused_when_stripping() {
    let pending = start_turn(Some("a".to_string()), form(&[], &[], "hi", "", None)).unwrap();
    assert!(matches!(finish_reply(pending, &answer("hey"), true), Err(RelayError::ReasoningMarkerMissing)));
}

#[test]
fn clear_and_landing() {
    let f = cleared_fragment("keep me".to_string());
    assert!(f.messages.is_empty());
    assert_eq!(f.context, "keep me");
    assert_eq!(f.user_message, "");
    assert!(matches!(landing_page(&None), LandingPage::Login));
    match landing_page(&Some("a".to_string())) {
        LandingPage::Chat(f) => {
            assert!(f.messages.is_empty());
            assert_eq!(f.context, "");
        }
        LandingPage::Login => panic!("a session should see the chat"),
    }
}

#[test]
fn status_codes_follow_error_kinds() {
    assert_eq!(RelayError::Unauthenticated.status_code(), 401);
    assert_eq!(RelayError::MalformedHistory.status_code(), 400);
    assert_eq!(RelayError::UpstreamUnreachable.status_code(), 500);
    assert_eq!(RelayError::UpstreamMalformed.status_code(), 500);
    assert_eq!(RelayError::ReasoningMarkerMissing.status_code(), 500);
}

#[test]
fn config_builds_completion_endpoint() {
    let c = RelayConfig::new("http://localhost:8080", true);
    assert_eq!(c.endpoint, "http://localhost:8080/v1/chat/completions");
    assert!(c.strip_reasoning);
}
