//! The per-agent actor: exclusive owner of one conversation history.
//!
//! Every mutation of a history is one of the steps below, so a driver that
//! serializes the steps of one agent — an inbox worker draining commands and
//! timer fires — gets exactly the behaviour stated here. Completion calls
//! happen between a `begin_*` and a `complete_*` step; the outcome is handed
//! back as a plain value, and the actor decides what the history gains.

use vstd::prelude::*;
use crate::context::{context_window, is_context_window, ContextEntry, DEFAULT_CONTEXT_SIZE};
use crate::errors::AgentError;
use crate::model::{AgentProfile, InteractResponse, Message, Origin, Role};

verus! {

/// A command in an actor's inbox.
pub enum ChatCommand {
    /// Append one message to the history.
    AddMessage(Message),
    /// Ask for a copy of the history as of processing time.
    GetHistory,
    /// A reflection timer fire, injected into the inbox as a distinguished
    /// message.
    Reflect,
}

/// What one inbox step hands back to the driver.
pub enum CommandEffect {
    /// The command changed or read nothing the caller needs.
    Handled,
    /// The history snapshot a `GetHistory` command asked for.
    History(Vec<Message>),
    /// A reflection is due: the driver should run a completion call with
    /// this score nonce and context window, then report the outcome through
    /// [`AgentActor::complete_reflection`].
    Reflection { nonce: u8, window: Vec<ContextEntry> },
}

/// The history after an actor processes one inbox command: only
/// `AddMessage` changes it.
pub open spec fn history_after_command(h: Seq<Message>, cmd: ChatCommand) -> Seq<Message> {
    match cmd {
        ChatCommand::AddMessage(m) => h.push(m),
        _ => h,
    }
}

/// The history after an actor processes a sequence of inbox commands in
/// arrival order.
pub open spec fn history_after_commands(h: Seq<Message>, cmds: Seq<ChatCommand>) -> Seq<Message>
    decreases cmds.len(),
{
    if cmds.len() == 0 {
        h
    } else {
        history_after_commands(history_after_command(h, cmds[0]), cmds.drop_first())
    }
}

/// The messages carried by a sequence of `AddMessage` commands, in
/// submission order.
pub open spec fn submitted_messages(cmds: Seq<ChatCommand>) -> Seq<Message> {
    Seq::new(cmds.len(), |i: int| cmds[i]->0)
}

/// Processing any inbox command only ever appends: the prior history is a
/// prefix of the new one.
pub proof fn lemma_command_appends_only(h: Seq<Message>, cmd: ChatCommand)
    ensures
        history_after_command(h, cmd).len() >= h.len(),
        forall|i: int| 0 <= i < h.len() ==> history_after_command(h, cmd)[i] == h[i],
{
}

/// For any sequence of `AddMessage` submissions processed by one actor in
/// arrival order, with nothing else interleaved, the history afterwards is
/// the prior history followed by the submitted messages in submission
/// order — so a history snapshot returns them in submission order.
pub proof fn lemma_submissions_in_order(h: Seq<Message>, cmds: Seq<ChatCommand>)
    requires
        forall|i: int| 0 <= i < cmds.len() ==> cmds[i] is AddMessage,
    ensures
        history_after_commands(h, cmds) == h + submitted_messages(cmds),
    decreases cmds.len(),
{
    if cmds.len() == 0 {
        assert(h + submitted_messages(cmds) =~= h);
    } else {
        let m = cmds[0]->0;
        lemma_submissions_in_order(h.push(m), cmds.drop_first());
        assert(submitted_messages(cmds.drop_first()) =~= submitted_messages(cmds).drop_first());
        assert(h.push(m) + submitted_messages(cmds).drop_first() =~= h + submitted_messages(
            cmds,
        ));
    }
}

/// Relies on rand::random_range over `0..=100`: it returns a value of the
/// given range, and the range is not empty, so the call does not panic.
#[verifier::external_body]
fn draw_score_nonce() -> (r: u8)
    ensures
        r <= 100,
{
    rand::random_range(0..=100u8)
}

/// One agent's runtime state: its identity, its profile snapshot, and the
/// conversation history it exclusively owns.
pub struct AgentActor {
    pub id: String,
    pub profile: AgentProfile,
    pub history: Vec<Message>,
}

impl AgentActor {
    /// A freshly launched agent: empty history.
    pub fn new(id: String, profile: AgentProfile) -> (a: AgentActor)
        ensures
            a.id == id,
            a.profile@ == profile@,
            a.history@ =~= Seq::<Message>::empty(),
    {
        AgentActor { id, profile, history: Vec::new() }
    }

    /// Processes one inbox command. `AddMessage` appends, `GetHistory`
    /// copies the history as of this step, `Reflect` mutates nothing and
    /// asks the driver for a completion call.
    pub fn handle_command(&mut self, cmd: ChatCommand) -> (e: CommandEffect)
        ensures
            final(self).id == old(self).id,
            final(self).profile == old(self).profile,
            final(self).history@ == history_after_command(old(self).history@, cmd),
            cmd is AddMessage ==> e is Handled,
            cmd is GetHistory ==> (e matches CommandEffect::History(h) && h@ == old(
                self,
            ).history@),
            cmd is Reflect ==> (e matches CommandEffect::Reflection { nonce, window }
                && nonce <= 100 && is_context_window(
                old(self).history@,
                DEFAULT_CONTEXT_SIZE as int,
                window@,
            )),
    {
        match cmd {
            ChatCommand::AddMessage(m) => {
                self.history.push(m);
                CommandEffect::Handled
            },
            ChatCommand::GetHistory => CommandEffect::History(self.snapshot()),
            ChatCommand::Reflect => {
                let (nonce, window) = self.prepare_reflection();
                CommandEffect::Reflection { nonce, window }
            },
        }
    }

    /// A copy of the history as of this call.
    pub fn snapshot(&self) -> (h: Vec<Message>)
        ensures
            h@ == self.history@,
    {
        let mut h: Vec<Message> = Vec::new();
        let mut i: usize = 0;
        while i < self.history.len()
            invariant
                i <= self.history@.len(),
                h@ =~= self.history@.subrange(0, i as int),
            decreases self.history@.len() - i,
        {
            h.push(self.history[i].clone());
            i = i + 1;
        }
        proof {
            assert(h@ =~= self.history@);
        }
        h
    }

    /// First half of an interaction: appends the owner's prompt as a user
    /// message and returns the context window for the completion call. The
    /// window is built over the history as it stood before this step, so it
    /// excludes the in-flight prompt.
    pub fn begin_interact(&mut self, prompt: String, now: u64) -> (w: Vec<ContextEntry>)
        ensures
            final(self).id == old(self).id,
            final(self).profile == old(self).profile,
            final(self).history@ == old(self).history@.push(
                (Message { role: Role::User, content: prompt, origin: Origin::Owner, timestamp: now }),
            ),
            is_context_window(old(self).history@, DEFAULT_CONTEXT_SIZE as int, w@),
    {
        let w = context_window(&self.history, DEFAULT_CONTEXT_SIZE);
        self.history.push(
            Message { role: Role::User, content: prompt, origin: Origin::Owner, timestamp: now },
        );
        w
    }

    /// Second half of an interaction, fed the completion outcome. On
    /// success the history gains exactly one assistant message holding the
    /// returned text; on provider failure the history is left unchanged and
    /// the error is surfaced — never a partial assistant entry.
    pub fn complete_interact(&mut self, outcome: Option<String>, now: u64) -> (r: Result<
        InteractResponse,
        AgentError,
    >)
        ensures
            final(self).id == old(self).id,
            final(self).profile == old(self).profile,
            outcome matches Some(text) ==> {
                &&& final(self).history@ == old(self).history@.push(
                    (Message {
                        role: Role::Assistant,
                        content: text,
                        origin: Origin::Agent,
                        timestamp: now,
                    }),
                )
                &&& r matches Ok(resp) && resp.response == text
            },
            outcome is None ==> {
                &&& *final(self) == *old(self)
                &&& r matches Err(e) && e == AgentError::ProviderError
            },
    {
        match outcome {
            Some(text) => {
                let reply = text.clone();
                self.history.push(
                    Message {
                        role: Role::Assistant,
                        content: text,
                        origin: Origin::Agent,
                        timestamp: now,
                    },
                );
                Ok(InteractResponse { response: reply })
            },
            None => Err(AgentError::ProviderError),
        }
    }

    /// Prepares a self-directed reflection: draws the random score nonce to
    /// embed in the reflection prompt and builds the context window. The
    /// history is untouched.
    pub fn prepare_reflection(&self) -> (r: (u8, Vec<ContextEntry>))
        ensures
            r.0 <= 100,
            is_context_window(self.history@, DEFAULT_CONTEXT_SIZE as int, r.1@),
    {
        let nonce = draw_score_nonce();
        let window = context_window(&self.history, DEFAULT_CONTEXT_SIZE);
        (nonce, window)
    }

    /// Finishes a reflection cycle, fed the completion outcome. On success
    /// the history gains one agent-origin assistant message; on failure the
    /// attempt is discarded and the history is left exactly as it was — the
    /// failure propagates nowhere.
    pub fn complete_reflection(&mut self, outcome: Option<String>, now: u64)
        ensures
            final(self).id == old(self).id,
            final(self).profile == old(self).profile,
            outcome matches Some(text) ==> final(self).history@ == old(self).history@.push(
                (Message {
                    role: Role::Assistant,
                    content: text,
                    origin: Origin::Agent,
                    timestamp: now,
                }),
            ),
            outcome is None ==> *final(self) == *old(self),
    {
        match outcome {
            Some(text) => {
                self.history.push(
                    Message {
                        role: Role::Assistant,
                        content: text,
                        origin: Origin::Agent,
                        timestamp: now,
                    },
                );
            },
            None => {},
        }
    }
}

} // verus!
