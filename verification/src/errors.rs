//! Error taxonomy shared by the actor runtime and the decay reconciler.

use vstd::prelude::*;

verus! {

/// Every failure the runtime can surface to a caller.
///
/// `ProviderError` is an opaque completion failure; `ParseError` marks a
/// malformed token identifier; the remaining variants name the component
/// that rejected the request.
#[derive(Clone, Copy, Debug, PartialEq, Eq, Structural)]
pub enum AgentError {
    NotFound,
    DuplicateId,
    ProviderError,
    PersistenceError,
    ChainError,
    ParseError,
}

impl AgentError {
    /// A fixed human-readable label for the variant.
    pub fn describe(&self) -> (r: &'static str)
        ensures
            r@.len() > 0,
            self is NotFound ==> r@ == "agent not found"@,
            self is DuplicateId ==> r@ == "agent id already registered"@,
            self is ProviderError ==> r@ == "completion provider failed"@,
            self is PersistenceError ==> r@ == "persistence failure"@,
            self is ChainError ==> r@ == "chain call failed"@,
            self is ParseError ==> r@ == "malformed token identifier"@,
    {
        proof {
            reveal_strlit("agent not found");
            reveal_strlit("agent id already registered");
            reveal_strlit("completion provider failed");
            reveal_strlit("persistence failure");
            reveal_strlit("chain call failed");
            reveal_strlit("malformed token identifier");
        }
        match self {
            AgentError::NotFound => "agent not found",
            AgentError::DuplicateId => "agent id already registered",
            AgentError::ProviderError => "completion provider failed",
            AgentError::PersistenceError => "persistence failure",
            AgentError::ChainError => "chain call failed",
            AgentError::ParseError => "malformed token identifier",
        }
    }
}

} // verus!
