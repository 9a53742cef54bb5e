//! The agent registry: the process-wide map from agent id to the agent's
//! runtime state, guarding create, list and delete.
//!
//! The registry owns every live actor, so each actor step is reached by
//! addressing the registry with the agent's id; a driver that serializes
//! those calls gets exactly the per-agent linearization the actor contract
//! states.

use vstd::prelude::*;
use crate::actor::{
    history_after_command, AgentActor, ChatCommand, CommandEffect,
};
use crate::context::{is_context_window, ContextEntry, DEFAULT_CONTEXT_SIZE};
use crate::errors::AgentError;
use crate::model::{AgentInfo, InteractResponse, LaunchAgentRequest, Message, Origin, Role};

verus! {

/// Some actor in `s` carries the id.
pub open spec fn has_agent(s: Seq<AgentActor>, id: Seq<char>) -> bool {
    exists|i: int| 0 <= i < s.len() && s[i].id@ == id
}

/// No two actors in `s` share an id.
pub open spec fn distinct_ids(s: Seq<AgentActor>) -> bool {
    forall|i: int, j: int| 0 <= i < j < s.len() ==> s[i].id@ != s[j].id@
}

/// The position of the actor carrying `id`, meaningful when
/// `has_agent(s, id)` holds.
pub open spec fn index_of_id(s: Seq<AgentActor>, id: Seq<char>) -> int {
    choose|i: int| 0 <= i < s.len() && s[i].id@ == id
}

/// `new_s` equals `old_s` everywhere but position `i`.
pub open spec fn same_except_at(old_s: Seq<AgentActor>, new_s: Seq<AgentActor>, i: int) -> bool {
    &&& new_s.len() == old_s.len()
    &&& forall|j: int| 0 <= j < old_s.len() && j != i ==> new_s[j] == old_s[j]
}

/// Putting a stepped actor back in the slot it was taken from changes
/// nothing else, and keeps ids unique as long as the actor kept its id.
proof fn lemma_remove_insert(s: Seq<AgentActor>, i: int, a: AgentActor)
    requires
        0 <= i < s.len(),
        distinct_ids(s),
        a.id@ == s[i].id@,
    ensures
        same_except_at(s, s.remove(i).insert(i, a), i),
        s.remove(i).insert(i, a)[i] == a,
        distinct_ids(s.remove(i).insert(i, a)),
{
    let t = s.remove(i);
    let u = t.insert(i, a);
    s.remove_ensures(i);
    t.insert_ensures(i, a);
    assert forall|j: int| 0 <= j < s.len() && j != i implies u[j] == s[j] by {
        if j < i {
            assert(u[j] == t[j] && t[j] == s[j]);
        } else {
            assert(u[j] == t[j - 1] && t[j - 1] == s[j]);
        }
    }
    assert forall|p: int, q: int| 0 <= p < q < u.len() implies u[p].id@ != u[q].id@ by {
        assert(u[p].id@ == s[p].id@ && u[q].id@ == s[q].id@);
    }
}

/// The id-to-agent map. Register, lookup, list and remove go through it,
/// and so does every actor step, addressed by agent id.
pub struct AgentRegistry {
    agents: Vec<AgentActor>,
}

impl AgentRegistry {
    /// The live actors, in registration order.
    pub closed spec fn actors(self) -> Seq<AgentActor> {
        self.agents@
    }

    /// Well-formed: ids are unique keys.
    pub open spec fn wf(self) -> bool {
        distinct_ids(self.actors())
    }

    /// An agent with this id is registered.
    pub open spec fn contains_id(self, id: Seq<char>) -> bool {
        has_agent(self.actors(), id)
    }

    /// An empty registry.
    pub fn new() -> (r: AgentRegistry)
        ensures
            r.wf(),
            r.actors() =~= Seq::<AgentActor>::empty(),
    {
        AgentRegistry { agents: Vec::new() }
    }

    /// The position of the agent with this id, if any.
    fn find(&self, id: &String) -> (r: Option<usize>)
        requires
            self.wf(),
        ensures
            r matches Some(i) ==> i < self.actors().len() && self.actors()[i as int].id@ == id@
                && i == index_of_id(self.actors(), id@),
            r is None <==> !self.contains_id(id@),
    {
        let mut i: usize = 0;
        while i < self.agents.len()
            invariant
                self.wf(),
                i <= self.agents@.len(),
                forall|j: int| 0 <= j < i ==> self.agents@[j].id@ != id@,
            decreases self.agents@.len() - i,
        {
            if self.agents[i].id == *id {
                proof {
                    let w = index_of_id(self.actors(), id@);
                    assert(0 <= w < self.actors().len() && self.actors()[w].id@ == id@);
                    assert(w == i as int);
                }
                return Some(i);
            }
            i = i + 1;
        }
        None
    }

    /// Adds an actor under its id; rejected with `DuplicateId`, and nothing
    /// changed, exactly when the id is already registered.
    pub fn register(&mut self, actor: AgentActor) -> (r: Result<(), AgentError>)
        requires
            old(self).wf(),
        ensures
            final(self).wf(),
            old(self).contains_id(actor.id@) ==> (r matches Err(e) && e == AgentError::DuplicateId
                && *final(self) == *old(self)),
            !old(self).contains_id(actor.id@) ==> (r is Ok && final(self).actors() == old(
                self,
            ).actors().push(actor)),
    {
        match self.find(&actor.id) {
            Some(_) => Err(AgentError::DuplicateId),
            None => {
                self.agents.push(actor);
                proof {
                    let s = old(self).actors();
                    assert forall|i: int, j: int|
                        0 <= i < j < self.actors().len() implies self.actors()[i].id@
                        != self.actors()[j].id@ by {
                        if j < s.len() {
                            assert(self.actors()[i] == s[i] && self.actors()[j] == s[j]);
                        } else {
                            assert(self.actors()[i] == s[i]);
                            assert(!has_agent(s, actor.id@));
                        }
                    }
                }
                Ok(())
            },
        }
    }

    /// Launches a new agent: an actor with the requested id and profile and
    /// an empty history, registered under the id. Rejected with
    /// `DuplicateId`, and nothing changed, exactly when the id is taken.
    pub fn launch(&mut self, req: LaunchAgentRequest) -> (r: Result<(), AgentError>)
        requires
            old(self).wf(),
        ensures
            final(self).wf(),
            old(self).contains_id(req.agent_id@) ==> (r matches Err(e) && e
                == AgentError::DuplicateId && *final(self) == *old(self)),
            !old(self).contains_id(req.agent_id@) ==> (r is Ok && ({
                let a = final(self).actors().last();
                &&& final(self).actors() == old(self).actors().push(a)
                &&& a.id == req.agent_id
                &&& a.profile@ == req.profile@
                &&& a.history@ =~= Seq::<Message>::empty()
            })),
    {
        let actor = AgentActor::new(req.agent_id, req.profile);
        self.register(actor)
    }

    /// The registered actor with this id, or `NotFound`.
    pub fn lookup(&self, id: &String) -> (r: Result<&AgentActor, AgentError>)
        requires
            self.wf(),
        ensures
            r matches Ok(a) ==> self.contains_id(id@) && *a == self.actors()[index_of_id(
                self.actors(),
                id@,
            )],
            r matches Err(e) ==> e == AgentError::NotFound && !self.contains_id(id@),
    {
        match self.find(id) {
            Some(i) => Ok(&self.agents[i]),
            None => Err(AgentError::NotFound),
        }
    }

    /// A point-in-time snapshot of every registered agent's id and profile,
    /// in registration order.
    pub fn list(&self) -> (r: Vec<AgentInfo>)
        ensures
            r@.len() == self.actors().len(),
            forall|i: int|
                0 <= i < r@.len() ==> (#[trigger] r@[i]).id == self.actors()[i].id && r@[i].profile@
                    == self.actors()[i].profile@,
    {
        let mut r: Vec<AgentInfo> = Vec::new();
        let mut i: usize = 0;
        while i < self.agents.len()
            invariant
                i <= self.agents@.len(),
                r@.len() == i,
                forall|j: int|
                    0 <= j < i ==> (#[trigger] r@[j]).id == self.agents@[j].id && r@[j].profile@
                        == self.agents@[j].profile@,
            decreases self.agents@.len() - i,
        {
            r.push(
                AgentInfo {
                    id: self.agents[i].id.clone(),
                    profile: self.agents[i].profile.clone(),
                },
            );
            i = i + 1;
        }
        r
    }

    /// Removes the agent with this id and returns its prior runtime state;
    /// `NotFound`, and nothing changed, exactly when the id is absent.
    /// Removal alone does not stop a driver still holding the state.
    pub fn remove(&mut self, id: &String) -> (r: Result<AgentActor, AgentError>)
        requires
            old(self).wf(),
        ensures
            final(self).wf(),
            !old(self).contains_id(id@) ==> (r matches Err(e) && e == AgentError::NotFound
                && *final(self) == *old(self)),
            old(self).contains_id(id@) ==> (r matches Ok(a) && ({
                let i = index_of_id(old(self).actors(), id@);
                &&& a == old(self).actors()[i]
                &&& a.id@ == id@
                &&& final(self).actors() == old(self).actors().remove(i)
            })),
            !final(self).contains_id(id@),
    {
        match self.find(id) {
            None => Err(AgentError::NotFound),
            Some(i) => {
                let actor = self.agents.remove(i);
                proof {
                    let s = old(self).actors();
                    s.remove_ensures(i as int);
                    assert forall|j: int| 0 <= j < self.actors().len() implies self.actors()[j].id@
                        != id@ by {
                        if j < i as int {
                            assert(self.actors()[j] == s[j]);
                        } else {
                            assert(self.actors()[j] == s[j + 1]);
                        }
                    }
                    assert forall|p: int, q: int|
                        0 <= p < q < self.actors().len() implies self.actors()[p].id@
                        != self.actors()[q].id@ by {
                        let sp = if p < i as int { s[p] } else { s[p + 1] };
                        let sq = if q < i as int { s[q] } else { s[q + 1] };
                        assert(self.actors()[p] == sp && self.actors()[q] == sq);
                    }
                }
                Ok(actor)
            },
        }
    }

    /// Hands one inbox command to the addressed agent's actor: appends,
    /// snapshots, or asks for a reflection, exactly as
    /// [`AgentActor::handle_command`] states. `NotFound`, and nothing
    /// changed, exactly when the id is absent.
    pub fn submit(&mut self, id: &String, cmd: ChatCommand) -> (r: Result<
        CommandEffect,
        AgentError,
    >)
        requires
            old(self).wf(),
        ensures
            final(self).wf(),
            !old(self).contains_id(id@) ==> (r matches Err(e) && e == AgentError::NotFound
                && *final(self) == *old(self)),
            old(self).contains_id(id@) ==> ({
                let i = index_of_id(old(self).actors(), id@);
                let a0 = old(self).actors()[i];
                let a1 = final(self).actors()[i];
                &&& same_except_at(old(self).actors(), final(self).actors(), i)
                &&& a1.id == a0.id
                &&& a1.profile == a0.profile
                &&& a1.history@ == history_after_command(a0.history@, cmd)
                &&& r matches Ok(eff)
                &&& (cmd is AddMessage ==> eff is Handled)
                &&& (cmd is GetHistory ==> (eff matches CommandEffect::History(h) && h@
                    == a0.history@))
                &&& (cmd is Reflect ==> (eff matches CommandEffect::Reflection { nonce, window }
                    && nonce <= 100 && is_context_window(
                    a0.history@,
                    DEFAULT_CONTEXT_SIZE as int,
                    window@,
                )))
            }),
    {
        let idx = match self.find(id) {
            Some(i) => i,
            None => {
                return Err(AgentError::NotFound);
            },
        };
        let mut actor = self.agents.remove(idx);
        let effect = actor.handle_command(cmd);
        proof {
            lemma_remove_insert(old(self).actors(), idx as int, actor);
        }
        self.agents.insert(idx, actor);
        Ok(effect)
    }

    /// First half of an interaction with the addressed agent: the owner's
    /// prompt is appended as a user message and the context window for the
    /// completion call comes back, built over the history before the append.
    /// `NotFound`, and nothing changed, exactly when the id is absent.
    pub fn begin_interact(&mut self, id: &String, prompt: String, now: u64) -> (r: Result<
        Vec<ContextEntry>,
        AgentError,
    >)
        requires
            old(self).wf(),
        ensures
            final(self).wf(),
            !old(self).contains_id(id@) ==> (r matches Err(e) && e == AgentError::NotFound
                && *final(self) == *old(self)),
            old(self).contains_id(id@) ==> ({
                let i = index_of_id(old(self).actors(), id@);
                let a0 = old(self).actors()[i];
                let a1 = final(self).actors()[i];
                &&& same_except_at(old(self).actors(), final(self).actors(), i)
                &&& a1.id == a0.id
                &&& a1.profile == a0.profile
                &&& a1.history@ == a0.history@.push(
                    (Message {
                        role: Role::User,
                        content: prompt,
                        origin: Origin::Owner,
                        timestamp: now,
                    }),
                )
                &&& r matches Ok(w) && is_context_window(
                    a0.history@,
                    DEFAULT_CONTEXT_SIZE as int,
                    w@,
                )
            }),
    {
        let idx = match self.find(id) {
            Some(i) => i,
            None => {
                return Err(AgentError::NotFound);
            },
        };
        let mut actor = self.agents.remove(idx);
        let window = actor.begin_interact(prompt, now);
        proof {
            lemma_remove_insert(old(self).actors(), idx as int, actor);
        }
        self.agents.insert(idx, actor);
        Ok(window)
    }

    /// Second half of an interaction, fed the completion outcome. Success
    /// appends exactly one assistant message and returns its text; provider
    /// failure leaves the history unchanged and surfaces `ProviderError`.
    /// `NotFound`, and nothing changed, exactly when the id is absent.
    pub fn finish_interact(&mut self, id: &String, outcome: Option<String>, now: u64) -> (r: Result<
        InteractResponse,
        AgentError,
    >)
        requires
            old(self).wf(),
        ensures
            final(self).wf(),
            !old(self).contains_id(id@) ==> (r matches Err(e) && e == AgentError::NotFound
                && *final(self) == *old(self)),
            old(self).contains_id(id@) ==> ({
                let i = index_of_id(old(self).actors(), id@);
                let a0 = old(self).actors()[i];
                let a1 = final(self).actors()[i];
                &&& same_except_at(old(self).actors(), final(self).actors(), i)
                &&& a1.id == a0.id
                &&& a1.profile == a0.profile
                &&& (outcome matches Some(text) ==> a1.history@ == a0.history@.push(
                    (Message {
                        role: Role::Assistant,
                        content: text,
                        origin: Origin::Agent,
                        timestamp: now,
                    }),
                ) && (r matches Ok(resp) && resp.response == text))
                &&& (outcome is None ==> a1 == a0 && (r matches Err(e) && e
                    == AgentError::ProviderError))
            }),
    {
        let idx = match self.find(id) {
            Some(i) => i,
            None => {
                return Err(AgentError::NotFound);
            },
        };
        let mut actor = self.agents.remove(idx);
        let result = actor.complete_interact(outcome, now);
        proof {
            lemma_remove_insert(old(self).actors(), idx as int, actor);
        }
        self.agents.insert(idx, actor);
        result
    }

    /// Finishes a reflection cycle for the addressed agent. Success appends
    /// one agent-origin assistant message; a provider failure is absorbed
    /// and the history stays exactly as it was. `NotFound`, and nothing
    /// changed, exactly when the id is absent.
    pub fn finish_reflection(&mut self, id: &String, outcome: Option<String>, now: u64) -> (r:
        Result<(), AgentError>)
        requires
            old(self).wf(),
        ensures
            final(self).wf(),
            !old(self).contains_id(id@) ==> (r matches Err(e) && e == AgentError::NotFound
                && *final(self) == *old(self)),
            old(self).contains_id(id@) ==> (r is Ok && ({
                let i = index_of_id(old(self).actors(), id@);
                let a0 = old(self).actors()[i];
                let a1 = final(self).actors()[i];
                &&& same_except_at(old(self).actors(), final(self).actors(), i)
                &&& a1.id == a0.id
                &&& a1.profile == a0.profile
                &&& (outcome matches Some(text) ==> a1.history@ == a0.history@.push(
                    (Message {
                        role: Role::Assistant,
                        content: text,
                        origin: Origin::Agent,
                        timestamp: now,
                    }),
                ))
                &&& (outcome is None ==> a1 == a0)
            })),
    {
        let idx = match self.find(id) {
            Some(i) => i,
            None => {
                return Err(AgentError::NotFound);
            },
        };
        let mut actor = self.agents.remove(idx);
        actor.complete_reflection(outcome, now);
        proof {
            lemma_remove_insert(old(self).actors(), idx as int, actor);
        }
        self.agents.insert(idx, actor);
        Ok(())
    }
}

} // verus!
