use vstd::prelude::*;
use crate::context::{
    ChatContext, ContextError, ContextWindow, UserTurn, context_rest, freewill_window, nudge_recorded,
    regen_window,
};
use crate::identifier::MessageIdentifier;
use crate::message::{ChatMessage, ContentView, MessageRole};
use crate::store::{has_synthetic, index_of_key, lemma_taken_synthetic};

verus! {

/// Attempts a turn may use before it fails.
pub const MAX_RETRIES: u32 = 5;

/// Longest reply, in bytes, that counts as a final message.
pub const MAX_REPLY_BYTES: usize = 100000;

/// Which window a turn is built on.
#[derive(Debug)]
pub enum ContextType {
    /// A reply to the user.
    User,
    /// The agent speaking unprompted.
    Freewill,
    /// A new reply in place of the one at the identifier.
    Regen(MessageIdentifier),
}

/// What one completion call came back with, as the engine sees it.
#[derive(Debug)]
pub enum CompletionOutcome {
    /// A final text answer.
    Message(String),
    /// A tool was called: the call and the tool's answer.
    Tool { call: ChatMessage, result: ChatMessage },
    /// The provider or the network failed.
    Failed,
}

/// What the engine does after a completion call.
#[derive(Debug, PartialEq, Eq, Structural)]
pub enum TurnAction {
    /// Build a fresh window and call the provider again.
    Retry,
    /// Record the tool exchange, then build a fresh window and call again.
    RecordAndRetry,
    /// Record the tool exchange, then give up: the budget is spent.
    RecordAndFail,
    /// Accept the reply and commit the turn.
    Commit,
    /// Give up on the turn.
    Fail(TurnError),
}

/// Why a turn failed.
#[derive(Clone, Copy, Debug, PartialEq, Eq, Structural)]
pub enum TurnError {
    /// The provider failed on the last attempt.
    ProviderFailed,
    /// Every attempt ended in a tool call or an oversize reply.
    TooManyRetries,
    /// The window could not be built.
    Context(ContextError),
    /// The turn has no user prompt to send.
    NoPrompt,
    /// The provider called a tool that does not exist.
    UnknownTool,
    /// A tool was called with arguments it could not use, or failed.
    ToolFailed,
}

/// The tools the agent may call.
#[derive(Clone, Copy, Debug, PartialEq, Eq, Structural)]
pub enum ToolKind {
    /// Search long-term memory.
    MemoryRecall,
    /// Save a fact to long-term memory.
    MemoryStore,
}

pub open spec fn tool_for(name: Seq<char>) -> Option<ToolKind> {
    if name == "memory_recall"@ {
        Some(ToolKind::MemoryRecall)
    } else if name == "memory_store"@ {
        Some(ToolKind::MemoryStore)
    } else {
        None
    }
}

impl ToolKind {
    /// The name the provider calls the tool by.
    pub fn name(&self) -> (r: String)
        ensures
            tool_for(r@) == Some(*self),
    {
        proof {
            reveal_strlit("memory_recall");
            reveal_strlit("memory_store");
            assert("memory_store"@.len() != "memory_recall"@.len());
        }
        match self {
            ToolKind::MemoryRecall => String::from_str("memory_recall"),
            ToolKind::MemoryStore => String::from_str("memory_store"),
        }
    }

    /// The tool called `name`; an unknown name is a fatal error for the turn.
    pub fn from_name(name: &str) -> (r: Result<ToolKind, TurnError>)
        ensures
            match tool_for(name@) {
                Some(k) => r == Ok::<ToolKind, TurnError>(k),
                None => r == Err::<ToolKind, TurnError>(TurnError::UnknownTool),
            },
    {
        proof {
            reveal_strlit("memory_recall");
            reveal_strlit("memory_store");
        }
        let n = String::from_str(name);
        if n == String::from_str("memory_recall") {
            Ok(ToolKind::MemoryRecall)
        } else if n == String::from_str("memory_store") {
            Ok(ToolKind::MemoryStore)
        } else {
            Err(TurnError::UnknownTool)
        }
    }
}

/// How far a turn has got: attempts used out of the budget.
#[derive(Clone, Copy, Debug, PartialEq, Eq, Structural)]
pub struct TurnState {
    pub attempt: u32,
    pub budget: u32,
}

/// A reply longer than the platform's ceiling, counted in UTF-8 bytes.
pub open spec fn oversize(t: Seq<char>) -> bool {
    (vstd::utf8::encode_utf8(t).len() as usize) > MAX_REPLY_BYTES
}

/// The next state and action after an outcome. A failure, a tool call and an
/// oversize reply each use one attempt; when that was the last one the turn
/// fails. A reply within the size ceiling is committed.
pub open spec fn advance_spec(s: TurnState, o: CompletionOutcome) -> (TurnState, TurnAction) {
    let used = s.attempt + 1;
    let next = TurnState { attempt: used as u32, budget: s.budget };
    match o {
        CompletionOutcome::Failed => if used >= s.budget {
            (next, TurnAction::Fail(TurnError::ProviderFailed))
        } else {
            (next, TurnAction::Retry)
        },
        CompletionOutcome::Tool { .. } => if used >= s.budget {
            (next, TurnAction::RecordAndFail)
        } else {
            (next, TurnAction::RecordAndRetry)
        },
        CompletionOutcome::Message(t) => if !oversize(t@) {
            (s, TurnAction::Commit)
        } else if used >= s.budget {
            (next, TurnAction::Fail(TurnError::TooManyRetries))
        } else {
            (next, TurnAction::Retry)
        },
    }
}

impl TurnState {
    /// A turn with no attempt used yet.
    pub fn new(budget: u32) -> (r: Self)
        ensures
            r.attempt == 0,
            r.budget == budget,
    {
        TurnState { attempt: 0, budget }
    }

    /// Decides what follows `outcome`; see `advance_spec`. Every action but
    /// a commit uses an attempt, and the turn goes on only while attempts
    /// are left.
    pub fn advance(self, outcome: &CompletionOutcome) -> (r: (TurnState, TurnAction))
        requires
            self.attempt < self.budget,
        ensures
            r == advance_spec(self, *outcome),
            (r.1 is Retry || r.1 is RecordAndRetry) ==> r.0.attempt == self.attempt + 1 && r.0.attempt
                < r.0.budget,
    {
        let used = self.attempt + 1;
        let next = TurnState { attempt: used, budget: self.budget };
        match outcome {
            CompletionOutcome::Failed => {
                if used >= self.budget {
                    (next, TurnAction::Fail(TurnError::ProviderFailed))
                } else {
                    (next, TurnAction::Retry)
                }
            },
            CompletionOutcome::Tool { .. } => {
                if used >= self.budget {
                    (next, TurnAction::RecordAndFail)
                } else {
                    (next, TurnAction::RecordAndRetry)
                }
            },
            CompletionOutcome::Message(t) => {
                if t.as_str().len() <= MAX_REPLY_BYTES {
                    (self, TurnAction::Commit)
                } else if used >= self.budget {
                    (next, TurnAction::Fail(TurnError::TooManyRetries))
                } else {
                    (next, TurnAction::Retry)
                }
            },
        }
    }
}

impl ChatContext {
    /// Builds the window of one attempt, as `intent` asks: a reply to
    /// `pending`, an unprompted turn, or a regeneration. A window without a
    /// user turn to send is refused.
    pub fn build_window(&mut self, intent: &ContextType, pending: Option<String>, now: i64, clock: &str) -> (r: Result<ContextWindow, TurnError>)
        requires
            old(self).wf(),
        ensures
            final(self).wf(),
            final(self).config@ == old(self).config@,
            r matches Ok(w) ==> w.user_prompt is Some,
            match intent {
                ContextType::User => {
                    &&& final(self).store@ == context_rest(old(self).store@, old(self).config@)
                    &&& (r is Ok <==> pending is Some)
                    &&& r matches Ok(w) ==> w@ == crate::context::context_window(
                        old(self).store@,
                        old(self).config@,
                        crate::prompt::opt_text(pending),
                        now,
                        clock@,
                    )
                    &&& r matches Err(e) ==> e == TurnError::NoPrompt
                },
                ContextType::Freewill => match r {
                    Ok(w) => w@ == freewill_window(old(self).store@, old(self).config@, now, clock@)
                        && nudge_recorded(
                        final(self).store@,
                        context_rest(old(self).store@, old(self).config@),
                        now,
                        clock@,
                    ),
                    Err(e) => e == TurnError::Context(ContextError::IdentifierTaken) && final(self).store@
                        == context_rest(old(self).store@, old(self).config@) && has_synthetic(
                        context_rest(old(self).store@, old(self).config@),
                    ),
                },
                ContextType::Regen(id) => {
                    &&& final(self).store@ == old(self).store@
                    &&& match regen_window(old(self).store@, old(self).config@, id@.key, now, clock@) {
                        Ok(wv) => r matches Ok(w) && w@ == wv,
                        Err(e) => r == Err::<ContextWindow, TurnError>(TurnError::Context(e)),
                    }
                },
            },
    {
        match intent {
            ContextType::User => {
                let w = self.get_context_at(pending, now, clock);
                if w.user_prompt.is_none() {
                    Err(TurnError::NoPrompt)
                } else {
                    Ok(w)
                }
            },
            ContextType::Freewill => {
                match self.freewill_context_at(pending, now, clock) {
                    Ok(w) => Ok(w),
                    Err(e) => Err(TurnError::Context(e)),
                }
            },
            ContextType::Regen(id) => {
                match self.get_regen_context_at(&id.key(), now, clock) {
                    Ok(w) => Ok(w),
                    Err(e) => Err(TurnError::Context(e)),
                }
            },
        }
    }

    /// Records a tool call and the tool's answer as two synthetic turns, in
    /// that order, after the turns already there.
    pub fn record_tool_exchange(&mut self, call: ChatMessage, result: ChatMessage, now: i64) -> (r: Result<(), ContextError>)
        requires
            old(self).wf(),
        ensures
            final(self).wf(),
            final(self).config@ == old(self).config@,
            r is Ok ==> {
                &&& final(self).store@.len() == old(self).store@.len() + 2
                &&& final(self).store@.take(old(self).store@.len() as int) == old(self).store@
                &&& final(self).store@[old(self).store@.len() as int].node.versions == seq![(call@, now)]
                &&& final(self).store@[old(self).store@.len() as int + 1].node.versions == seq![(result@, now)]
                &&& final(self).store@[old(self).store@.len() as int].id.key.2
                &&& final(self).store@[old(self).store@.len() as int + 1].id.key.2
            },
            r is Err ==> {
                &&& r == Err::<(), ContextError>(ContextError::IdentifierTaken)
                &&& final(self).store@.len() <= old(self).store@.len() + 1
                &&& final(self).store@.take(old(self).store@.len() as int) == old(self).store@
                &&& has_synthetic(final(self).store@)
            },
    {
        let ghost v0 = self.store@;
        let call_id = MessageIdentifier::random();
        let ghost k1 = call_id@.key;
        if self.store.add(call, call_id, now).is_err() {
            proof {
                lemma_taken_synthetic(v0, k1);
                assert(v0.take(v0.len() as int) =~= v0);
            }
            return Err(ContextError::IdentifierTaken);
        }
        let ghost v1 = self.store@;
        let result_id = MessageIdentifier::random();
        let ghost k2 = result_id@.key;
        if self.store.add(result, result_id, now).is_err() {
            proof {
                lemma_taken_synthetic(v1, k2);
                assert(v1.take(v0.len() as int) =~= v0);
            }
            return Err(ContextError::IdentifierTaken);
        }
        assert(self.store@.take(v0.len() as int) =~= v0);
        assert(self.store@[v0.len() as int] == v1[v0.len() as int]);
        Ok(())
    }

    /// Commits a turn whose reply is `reply`: a fresh user prompt is recorded
    /// at `id` (a synthetic identifier when there is none); a prompt already
    /// in the store is left where it is. Returns the assistant message.
    pub fn commit_turn(&mut self, user: UserTurn, reply: String, id: Option<MessageIdentifier>, now: i64) -> (r: Result<ChatMessage, ContextError>)
        requires
            old(self).wf(),
        ensures
            final(self).wf(),
            final(self).config@ == old(self).config@,
            r matches Ok(m) ==> m@ == (crate::message::MessageView {
                role: MessageRole::Assistant,
                content: ContentView::Text(reply@),
                sent_at: now,
                freewill: false,
            }),
            user is Stored ==> r is Ok && final(self).store@ == old(self).store@,
            user matches UserTurn::Fresh(p) ==> match r {
                Ok(_) => {
                    &&& final(self).store@.len() == old(self).store@.len() + 1
                    &&& final(self).store@.drop_last() == old(self).store@
                    &&& final(self).store@.last().node.versions[0].0.content == ContentView::Text(
                        crate::context::prompt_text(p@),
                    )
                    &&& id matches Some(i) ==> final(self).store@.last().id == i@
                },
                Err(e) => e == ContextError::IdentifierTaken && final(self).store@ == old(self).store@,
            },
            (user is Fresh && id is Some) ==> (r is Ok <==> index_of_key(
                old(self).store@,
                id->Some_0@.key,
            ) is None),
            user is Fresh && id is None && r is Err ==> has_synthetic(old(self).store@),
    {
        match user {
            UserTurn::Fresh(p) => {
                let identifier = match id {
                    Some(i) => i,
                    None => MessageIdentifier::random(),
                };
                let ghost v0 = self.store@;
                let ghost key = identifier@.key;
                match self.add_user_message(p, identifier, now) {
                    Ok(()) => {
                        assert(self.store@.drop_last() =~= v0);
                    },
                    Err(_) => {
                        proof {
                            if id is None {
                                lemma_taken_synthetic(v0, key);
                            }
                        }
                        return Err(ContextError::IdentifierTaken);
                    },
                }
            },
            UserTurn::Stored(_) => {},
        }
        Ok(ChatMessage::assistant(reply, now))
    }
}

} // verus!
