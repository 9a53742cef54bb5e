//! The context window builder: a pure function that slices the newest part
//! of a conversation history, oldest-first, for a completion call.

use vstd::prelude::*;
use crate::model::{Message, Role};

verus! {

/// How many recent messages a completion call sees by default.
pub const DEFAULT_CONTEXT_SIZE: usize = 10;

/// One line of the bounded history slice handed to the completion
/// capability: a role from the two-role vocabulary and the message text.
pub struct ContextEntry {
    pub role: Role,
    pub content: String,
}

impl Clone for ContextEntry {
    fn clone(&self) -> (r: Self)
        ensures
            r == *self,
    {
        ContextEntry { role: self.role, content: self.content.clone() }
    }
}

/// The role a history entry presents to the completion capability: user
/// messages stay user messages, everything else is folded to the assistant
/// side.
pub open spec fn folded_role(r: Role) -> Role {
    match r {
        Role::User => Role::User,
        _ => Role::Assistant,
    }
}

/// How many entries a window over `hist_len` messages with bound `k` holds.
pub open spec fn window_len(hist_len: int, k: int) -> int {
    if k <= hist_len {
        k
    } else {
        hist_len
    }
}

/// A window entry faithfully presents one history message.
pub open spec fn entry_matches(e: ContextEntry, m: Message) -> bool {
    &&& e.role == folded_role(m.role)
    &&& e.content@ == m.content@
}

/// `w` is the context window of `h` with bound `k`: exactly
/// `min(k, h.len())` entries, the newest messages of `h`, oldest-first.
pub open spec fn is_context_window(h: Seq<Message>, k: int, w: Seq<ContextEntry>) -> bool {
    &&& w.len() == window_len(h.len() as int, k)
    &&& forall|i: int|
        0 <= i < w.len() ==> entry_matches(#[trigger] w[i], h[h.len() - w.len() + i])
}

/// Builds the context window: the newest `k` messages of `history` (all of
/// them when fewer exist), oldest-first, each with its folded role.
///
/// For every `k >= 0` the result holds exactly `min(k, history.len())`
/// entries, in history order.
pub fn context_window(history: &Vec<Message>, k: usize) -> (w: Vec<ContextEntry>)
    ensures
        is_context_window(history@, k as int, w@),
{
    let len = history.len();
    let start = if k <= len {
        len - k
    } else {
        0
    };
    let mut w: Vec<ContextEntry> = Vec::new();
    let mut i = start;
    while i < len
        invariant
            start <= i <= len,
            len == history@.len(),
            start == if k <= len { len - k } else { 0int },
            w@.len() == i - start,
            forall|j: int|
                0 <= j < w@.len() ==> entry_matches(#[trigger] w@[j], history@[start + j]),
        decreases len - i,
    {
        let role = match history[i].role {
            Role::User => Role::User,
            _ => Role::Assistant,
        };
        w.push(ContextEntry { role, content: history[i].content.clone() });
        i = i + 1;
    }
    w
}

} // verus!
