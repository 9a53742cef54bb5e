use agent_runtime::errors::AgentError;
use agent_runtime::model::{
    agent_details_for_owner, owner_matches, AgentProfile, InteractRequest, InteractResponse,
};

fn profile() -> AgentProfile {
    AgentProfile {
        personality: "warm".to_string(),
        desires: "connect".to_string(),
        skills: vec![],
        name: "a1".to_string(),
    }
}

#[test]
fn owner_matches_requires_a_stored_equal_address() {
    let stored = "0xabc".to_string();
    let caller = "0xabc".to_string();
    let other = "0xdef".to_string();
    assert!(owner_matches(Some(&stored), &caller));
    assert!(!owner_matches(Some(&stored), &other));
    assert!(!owner_matches(None, &caller));
}

#[test]
fn details_come_back_only_for_the_owner() {
    let stored = "0xabc".to_string();
    let d = agent_details_for_owner("a1".to_string(), Some(&stored), &"0xabc".to_string(), profile())
        .expect("owner matches");
    assert_eq!(d.agent_id, "a1");
    assert_eq!(d.profile.name, "a1");
    assert!(agent_details_for_owner("a1".to_string(), Some(&stored), &"0xdef".to_string(), profile())
        .is_none());
    assert!(agent_details_for_owner("a1".to_string(), None, &"0xabc".to_string(), profile())
        .is_none());
}

#[test]
fn every_error_has_a_nonempty_description() {
    let errors = [
        AgentError::NotFound,
        AgentError::DuplicateId,
        AgentError::ProviderError,
        AgentError::PersistenceError,
        AgentError::ChainError,
        AgentError::ParseError,
    ];
    for e in errors {
        assert!(!e.describe().is_empty());
    }
    assert_eq!(AgentError::NotFound.describe(), "agent not found");
    assert_eq!(AgentError::ParseError.describe(), "malformed token identifier");
}

#[test]
fn interaction_boundary_types_carry_their_text() {
    let req = InteractRequest { prompt: "hello".to_string() };
    assert_eq!(req.prompt, "hello");
    let resp = InteractResponse { response: "hi".to_string() };
    assert_eq!(resp.response, "hi");
}

#[test]
fn profile_clone_keeps_every_field() {
    let p = AgentProfile {
        personality: "bold".to_string(),
        desires: "win".to_string(),
        skills: vec!["chess".to_string(), "go".to_string()],
        name: "champ".to_string(),
    };
    let q = p.clone();
    assert_eq!(q.personality, "bold");
    assert_eq!(q.desires, "win");
    assert_eq!(q.skills, vec!["chess".to_string(), "go".to_string()]);
    assert_eq!(q.name, "champ");
}
