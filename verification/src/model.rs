//! Data model of the agent runtime: message roles and origins, conversation
//! messages, agent profiles, and the request/response shapes of the runtime's
//! boundary.
//!
//! Timestamps are wall-clock seconds supplied by the caller, so that every
//! function over them stays a pure, checkable step.

use vstd::prelude::*;

verus! {

/// Role of a conversation message, the two-role vocabulary the completion
/// capability accepts.
#[derive(Clone, Copy, Debug, PartialEq, Eq, Structural)]
pub enum Role {
    User,
    Assistant,
}

/// Origin of a message in an agent's history.
#[derive(Clone, Copy, Debug, PartialEq, Eq, Structural)]
pub enum Origin {
    Agent,
    Owner,
    System,
}

/// One entry of an agent's conversation history. Append-only; order is
/// insertion order.
pub struct Message {
    pub role: Role,
    pub content: String,
    pub origin: Origin,
    pub timestamp: u64,
}

impl Clone for Message {
    fn clone(&self) -> (r: Self)
        ensures
            r == *self,
    {
        Message {
            role: self.role,
            content: self.content.clone(),
            origin: self.origin,
            timestamp: self.timestamp,
        }
    }
}

/// The public profile of an agent: its identity as the owner created it.
/// Immutable after creation.
pub struct AgentProfile {
    pub personality: String,
    pub desires: String,
    pub skills: Vec<String>,
    pub name: String,
}

/// Mathematical content of an [`AgentProfile`]: every text field as a
/// character sequence.
pub struct ProfileView {
    pub personality: Seq<char>,
    pub desires: Seq<char>,
    pub skills: Seq<Seq<char>>,
    pub name: Seq<char>,
}

impl View for AgentProfile {
    type V = ProfileView;

    open spec fn view(&self) -> ProfileView {
        ProfileView {
            personality: self.personality@,
            desires: self.desires@,
            skills: self.skills.deep_view(),
            name: self.name@,
        }
    }
}

impl Clone for AgentProfile {
    fn clone(&self) -> (r: Self)
        ensures
            r@ == self@,
    {
        let skills = self.skills.clone();
        proof {
            assert(skills.deep_view() =~= self.skills.deep_view());
        }
        AgentProfile {
            personality: self.personality.clone(),
            desires: self.desires.clone(),
            skills,
            name: self.name.clone(),
        }
    }
}

/// Everything needed to launch a new agent.
pub struct LaunchAgentRequest {
    pub agent_id: String,
    pub owner_address: String,
    pub token_id: String,
    pub profile: AgentProfile,
}

/// The request body for one interaction with an agent.
pub struct InteractRequest {
    pub prompt: String,
}

/// The reply returned from one successful interaction.
pub struct InteractResponse {
    pub response: String,
}

/// Snapshot of a running agent as listings report it.
pub struct AgentInfo {
    pub id: String,
    pub profile: AgentProfile,
}

/// An agent's stored identity as owner-authenticated reads return it.
pub struct AgentDetails {
    pub agent_id: String,
    pub profile: AgentProfile,
}

/// True when a stored owner address exists and equals the caller-supplied
/// credential; owner-authenticated reads are allowed exactly then.
pub fn owner_matches(stored: Option<&String>, provided: &String) -> (r: bool)
    ensures
        r == (stored matches Some(s) && s@ == provided@),
{
    match stored {
        Some(s) => *s == *provided,
        None => false,
    }
}

/// Assembles the owner-visible details of an agent, provided the supplied
/// credential matches the stored owner address; returns nothing otherwise.
pub fn agent_details_for_owner(
    agent_id: String,
    stored_owner: Option<&String>,
    provided_owner: &String,
    profile: AgentProfile,
) -> (r: Option<AgentDetails>)
    ensures
        r matches Some(d) ==> {
            &&& stored_owner matches Some(s) && s@ == provided_owner@
            &&& d.agent_id == agent_id
            &&& d.profile@ == profile@
        },
        r is None <==> !(stored_owner matches Some(s) && s@ == provided_owner@),
{
    if owner_matches(stored_owner, provided_owner) {
        Some(AgentDetails { agent_id, profile })
    } else {
        None
    }
}

} // verus!
