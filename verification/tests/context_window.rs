use agent_runtime::context::{context_window, ContextEntry, DEFAULT_CONTEXT_SIZE};
use agent_runtime::model::{Message, Origin, Role};

fn msg(role: Role, content: &str, origin: Origin, timestamp: u64) -> Message {
    Message { role, content: content.to_string(), origin, timestamp }
}

fn history(n: u64) -> Vec<Message> {
    let mut h = Vec::new();
    for i in 0..n {
        let role = if i % 2 == 0 { Role::User } else { Role::Assistant };
        let origin = if i % 2 == 0 { Origin::Owner } else { Origin::Agent };
        h.push(msg(role, &format!("m{}", i), origin, i));
    }
    h
}

fn contents(w: &[ContextEntry]) -> Vec<String> {
    w.iter().map(|e| e.content.clone()).collect()
}

#[test]
fn empty_history_gives_empty_window() {
    let h: Vec<Message> = Vec::new();
    let w = context_window(&h, DEFAULT_CONTEXT_SIZE);
    assert_eq!(w.len(), 0);
}

#[test]
fn zero_bound_gives_empty_window() {
    let h = history(5);
    let w = context_window(&h, 0);
    assert_eq!(w.len(), 0);
}

#[test]
fn short_history_is_returned_whole_oldest_first() {
    let h = history(3);
    let w = context_window(&h, DEFAULT_CONTEXT_SIZE);
    assert_eq!(w.len(), 3);
    assert_eq!(contents(&w), vec!["m0", "m1", "m2"]);
}

#[test]
fn long_history_is_cut_to_newest_bound_entries() {
    let h = history(25);
    let w = context_window(&h, DEFAULT_CONTEXT_SIZE);
    assert_eq!(w.len(), 10);
    assert_eq!(
        contents(&w),
        vec!["m15", "m16", "m17", "m18", "m19", "m20", "m21", "m22", "m23", "m24"]
    );
}

#[test]
fn window_length_is_min_of_bound_and_history() {
    for n in 0..8u64 {
        for k in 0..8usize {
            let h = history(n);
            let w = context_window(&h, k);
            assert_eq!(w.len(), k.min(n as usize));
        }
    }
}

#[test]
fn user_messages_keep_their_role() {
    let h = vec![msg(Role::User, "hello", Origin::Owner, 7)];
    let w = context_window(&h, 2);
    assert_eq!(w.len(), 1);
    assert!(matches!(w[0].role, Role::User));
    assert_eq!(w[0].content, "hello");
}

#[test]
fn assistant_messages_fold_to_assistant() {
    let h = vec![
        msg(Role::Assistant, "from the agent", Origin::Agent, 1),
        msg(Role::Assistant, "from the system", Origin::System, 2),
    ];
    let w = context_window(&h, 10);
    assert_eq!(w.len(), 2);
    assert!(matches!(w[0].role, Role::Assistant));
    assert!(matches!(w[1].role, Role::Assistant));
}
