use deepclaude::adapter::{build_completion_request, build_reasoning_request, resolve_model};
use deepclaude::models::{Message, Role};

fn history() -> Vec<Message> {
    vec![
        Message { role: Role::System, content: "be brief".to_string() },
        Message { role: Role::User, content: "2+2?".to_string() },
    ]
}

#[test]
fn reasoning_request_forwards_history_unmodified() {
    let messages = history();
    let r = build_reasoning_request(&messages, &"thinker-1".to_string(), false);
    assert_eq!(r.model, "thinker-1");
    assert!(!r.stream);
    assert_eq!(r.messages.len(), 2);
    assert_eq!(r.messages[0].content, "be brief");
    assert_eq!(r.messages[1].content, "2+2?");
}

#[test]
fn completion_request_carries_the_full_reasoning_trace() {
    let messages = history();
    let trace = "Let me compute: 2+2=4".to_string();
    let r = build_completion_request(&messages, &trace, &"writer-1".to_string(), true);
    assert_eq!(r.model, "writer-1");
    assert!(r.stream);
    assert_eq!(r.messages.len(), 3);
    assert_eq!(r.messages[0].content, "be brief");
    assert_eq!(r.messages[1].content, "2+2?");
    let segment = &r.messages[2];
    assert!(matches!(segment.role, Role::System));
    assert_eq!(segment.content, trace);
    assert!(!segment.content.is_empty());
}

#[test]
fn resolve_model_prefers_the_override() {
    let chosen = resolve_model(&Some("custom".to_string()), &"default".to_string());
    assert_eq!(chosen, "custom");
    let fallback = resolve_model(&None, &"default".to_string());
    assert_eq!(fallback, "default");
}
