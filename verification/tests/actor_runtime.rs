use agent_runtime::actor::{AgentActor, ChatCommand, CommandEffect};
use agent_runtime::errors::AgentError;
use agent_runtime::model::{AgentProfile, Message, Origin, Role};

fn profile(name: &str) -> AgentProfile {
    AgentProfile {
        personality: "curious".to_string(),
        desires: "learn".to_string(),
        skills: vec!["math".to_string(), "prose".to_string()],
        name: name.to_string(),
    }
}

fn actor(name: &str) -> AgentActor {
    AgentActor::new(name.to_string(), profile(name))
}

fn user_msg(content: &str, ts: u64) -> Message {
    Message { role: Role::User, content: content.to_string(), origin: Origin::Owner, timestamp: ts }
}

#[test]
fn new_actor_has_empty_history() {
    let a = actor("a1");
    assert_eq!(a.history.len(), 0);
    assert_eq!(a.id, "a1");
}

#[test]
fn submissions_come_back_in_submission_order() {
    let mut a = actor("a1");
    for (i, text) in ["first", "second", "third"].iter().enumerate() {
        let eff = a.handle_command(ChatCommand::AddMessage(user_msg(text, i as u64)));
        assert!(matches!(eff, CommandEffect::Handled));
    }
    match a.handle_command(ChatCommand::GetHistory) {
        CommandEffect::History(h) => {
            let contents: Vec<&str> = h.iter().map(|m| m.content.as_str()).collect();
            assert_eq!(contents, vec!["first", "second", "third"]);
        }
        _ => panic!("expected a history snapshot"),
    }
}

#[test]
fn snapshot_copies_the_history() {
    let mut a = actor("a1");
    a.handle_command(ChatCommand::AddMessage(user_msg("hello", 1)));
    let snap = a.snapshot();
    assert_eq!(snap.len(), 1);
    assert_eq!(snap[0].content, "hello");
    assert_eq!(snap[0].timestamp, 1);
}

#[test]
fn successful_interaction_appends_user_then_assistant() {
    let mut a = actor("a1");
    let window = a.begin_interact("hello".to_string(), 10);
    assert_eq!(window.len(), 0);
    let r = a.complete_interact(Some("hi there".to_string()), 11);
    let resp = r.expect("completion succeeded");
    assert_eq!(resp.response, "hi there");
    assert_eq!(a.history.len(), 2);
    assert!(matches!(a.history[0].role, Role::User));
    assert!(matches!(a.history[0].origin, Origin::Owner));
    assert_eq!(a.history[0].content, "hello");
    assert_eq!(a.history[0].timestamp, 10);
    assert!(matches!(a.history[1].role, Role::Assistant));
    assert!(matches!(a.history[1].origin, Origin::Agent));
    assert_eq!(a.history[1].content, "hi there");
    assert_eq!(a.history[1].timestamp, 11);
}

#[test]
fn failed_interaction_keeps_only_the_user_message() {
    let mut a = actor("a1");
    a.begin_interact("hello".to_string(), 10);
    let r = a.complete_interact(None, 11);
    assert!(matches!(r, Err(AgentError::ProviderError)));
    assert_eq!(a.history.len(), 1);
    assert!(matches!(a.history[0].role, Role::User));
    assert_eq!(a.history[0].content, "hello");
}

#[test]
fn interact_window_excludes_the_in_flight_prompt() {
    let mut a = actor("a1");
    a.handle_command(ChatCommand::AddMessage(user_msg("earlier", 1)));
    let window = a.begin_interact("now".to_string(), 2);
    assert_eq!(window.len(), 1);
    assert_eq!(window[0].content, "earlier");
}

#[test]
fn reflect_command_yields_a_bounded_nonce_and_the_window() {
    let mut a = actor("a1");
    a.handle_command(ChatCommand::AddMessage(user_msg("context", 1)));
    match a.handle_command(ChatCommand::Reflect) {
        CommandEffect::Reflection { nonce, window } => {
            assert!(nonce <= 100);
            assert_eq!(window.len(), 1);
            assert_eq!(window[0].content, "context");
        }
        _ => panic!("expected a reflection request"),
    }
    assert_eq!(a.history.len(), 1);
}

#[test]
fn failed_reflection_leaves_history_unchanged() {
    let mut a = actor("a1");
    a.handle_command(ChatCommand::AddMessage(user_msg("before", 1)));
    let (nonce, _window) = a.prepare_reflection();
    assert!(nonce <= 100);
    a.complete_reflection(None, 2);
    assert_eq!(a.history.len(), 1);
    assert_eq!(a.history[0].content, "before");
}

#[test]
fn successful_reflection_appends_an_agent_origin_message() {
    let mut a = actor("a1");
    a.complete_reflection(Some("I should act".to_string()), 5);
    assert_eq!(a.history.len(), 1);
    assert!(matches!(a.history[0].role, Role::Assistant));
    assert!(matches!(a.history[0].origin, Origin::Agent));
    assert_eq!(a.history[0].content, "I should act");
    assert_eq!(a.history[0].timestamp, 5);
}
