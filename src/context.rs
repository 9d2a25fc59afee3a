use vstd::prelude::*;
use vstd::string::*;
use crate::branch::selected_of;
use crate::identifier::{MessageIdentifier, TurnKey};
use crate::message::{ChatMessage, ContentView, MessageRole, MessageView, is_user_text};
use crate::prompt::{join, join_texts, opt_text, render, filled, texts, PromptView, SystemPromptBuilder};
use crate::store::{
    restored, Turn, has_synthetic, drain_batch, drain_rest, index_of_key, keep_count, messages_view, selected_messages,
    since_last, ConversationStore, StoreError, TurnView,
};
use crate::text::{div_toward_zero, duration_phrase, time_to_string};

verus! {

/// Relies on chrono::Utc::now and DateTime::timestamp_millis: the current
/// time in milliseconds since the Unix epoch. Nothing is known of its value.
#[verifier::external_body]
fn now_millis() -> (r: i64) {
    chrono::Utc::now().timestamp_millis()
}

/// The wall-clock text of a time given in milliseconds since the epoch.
pub uninterp spec fn utc_clock(ms: i64) -> Seq<char>;

/// Relies on chrono's DateTime::from_timestamp_millis and `format`: the time
/// `ms` in UTC as `%Y-%m-%d %H:%M:%S %z`, a function of `ms` alone.
#[verifier::external_body]
fn clock_text(ms: i64) -> (r: String)
    ensures
        r@ == utc_clock(ms),
{
    match chrono::DateTime::from_timestamp_millis(ms) {
        Some(t) => t.format("%Y-%m-%d %H:%M:%S %z").to_string(),
        None => String::new(),
    }
}

/// The wall-clock text of a time given in milliseconds since the epoch, in
/// the zone named `zone`.
pub uninterp spec fn zoned_clock(ms: i64, zone: Seq<char>) -> Seq<char>;

/// Relies on chrono-tz's `FromStr` for `Tz` and chrono's `with_timezone` and
/// `format`: the time `ms` in the named IANA zone as
/// `%Y-%m-%d %H:%M:%S %z`, a function of `ms` and the name alone; `None`
/// for an unknown zone or a time out of range.
#[verifier::external_body]
fn zoned_clock_text(ms: i64, zone: &str) -> (r: Option<String>)
    ensures
        r matches Some(s) ==> s@ == zoned_clock(ms, zone@),
{
    let tz: chrono_tz::Tz = zone.parse().ok()?;
    let t = chrono::DateTime::from_timestamp_millis(ms)?;
    Some(t.with_timezone(&tz).format("%Y-%m-%d %H:%M:%S %z").to_string())
}

/// The note that asks the agent to speak up unprompted.
pub open spec fn nudge_note() -> Seq<char> {
    "Please attempt to pull the user back into the conversation, making sure to keep the same tone and style as you normally would, following all previous instructions, yet keeping the time difference in mind. Your response should only contain the actual response, not your thoughts or anything else."@
}

/// What a user turn is composed from before it is rendered into a message.
#[derive(Debug)]
pub struct UserPrompt {
    pub content: Option<String>,
    pub current_time: String,
    pub time_since: String,
    pub relevant_memories: Vec<String>,
    pub system_note: Option<String>,
    pub freewill: bool,
}

pub ghost struct UserPromptView {
    pub content: Option<Seq<char>>,
    pub current_time: Seq<char>,
    pub time_since: Seq<char>,
    pub relevant_memories: Seq<Seq<char>>,
    pub system_note: Option<Seq<char>>,
    pub freewill: bool,
}

impl View for UserPrompt {
    type V = UserPromptView;

    open spec fn view(&self) -> UserPromptView {
        UserPromptView {
            content: opt_text(self.content),
            current_time: self.current_time@,
            time_since: self.time_since@,
            relevant_memories: texts(self.relevant_memories@),
            system_note: opt_text(self.system_note),
            freewill: self.freewill,
        }
    }
}

/// The paragraphs of a rendered user turn, in order.
pub open spec fn prompt_paragraphs(p: UserPromptView) -> Seq<Seq<char>> {
    (match p.system_note {
        Some(n) => seq!["System Note:\n"@ + n],
        None => Seq::empty(),
    }) + seq![
        "The current time is "@ + p.current_time + ", "@ + p.time_since
            + " since the last message before this one."@,
    ] + (if p.relevant_memories.len() > 0 {
        seq![
            "You have recalled the following memories:\n"@ + join(
                p.relevant_memories.map_values(|m: Seq<char>| "```memory\n"@ + m + "\n```"@),
                "\n"@,
            ),
        ]
    } else {
        Seq::empty()
    }) + (match p.content {
        Some(c) => seq!["Respond to the following message:\n"@ + c],
        None => Seq::empty(),
    })
}

/// The text of a rendered user turn: its paragraphs, a blank line apart.
pub open spec fn prompt_text(p: UserPromptView) -> Seq<char> {
    join(prompt_paragraphs(p), "\n\n"@)
}

impl UserPrompt {
    fn memory_paragraph(memories: &Vec<String>) -> (r: String)
        ensures
            r@ == "You have recalled the following memories:\n"@ + join(
                texts(memories@).map_values(|m: Seq<char>| "```memory\n"@ + m + "\n```"@),
                "\n"@,
            ),
    {
        let mut blocks: Vec<String> = Vec::new();
        let mut i: usize = 0;
        while i < memories.len()
            invariant
                i <= memories@.len(),
                blocks@.len() == i,
                forall|j: int|
                    0 <= j < i ==> (#[trigger] blocks@[j])@ == "```memory\n"@ + memories@[j]@ + "\n```"@,
            decreases memories@.len() - i,
        {
            let mut b = String::from_str("```memory\n");
            b.append(memories[i].as_str());
            b.append("\n```");
            blocks.push(b);
            i = i + 1;
        }
        let ghost bv = blocks@;
        let joined = join_texts(blocks, "\n");
        assert(texts(bv) =~= texts(memories@).map_values(|m: Seq<char>| "```memory\n"@ + m + "\n```"@));
        let mut r = String::from_str("You have recalled the following memories:\n");
        r.append(joined.as_str());
        r
    }

    /// The user message this prompt renders to, sent at `sent_at` and
    /// flagged as agent-initiated when the prompt is.
    pub fn into_message(self, sent_at: i64) -> (r: ChatMessage)
        ensures
            r@ == (MessageView {
                role: MessageRole::User,
                content: ContentView::Text(prompt_text(self@)),
                sent_at,
                freewill: self.freewill,
            }),
    {
        let ghost pv = self@;
        let mut parts: Vec<String> = Vec::new();
        if let Some(note) = &self.system_note {
            let mut p = String::from_str("System Note:\n");
            p.append(note.as_str());
            parts.push(p);
        }
        let mut t = String::from_str("The current time is ");
        t.append(self.current_time.as_str());
        t.append(", ");
        t.append(self.time_since.as_str());
        t.append(" since the last message before this one.");
        parts.push(t);
        if self.relevant_memories.len() > 0 {
            parts.push(Self::memory_paragraph(&self.relevant_memories));
        }
        if let Some(c) = &self.content {
            let mut p = String::from_str("Respond to the following message:\n");
            p.append(c.as_str());
            parts.push(p);
        }
        assert(texts(parts@) =~= prompt_paragraphs(pv));
        let text = join_texts(parts, "\n\n");
        let mut m = ChatMessage::user(text, sent_at);
        m.freewill = self.freewill;
        m
    }
}

/// The user side of a turn about to be completed.
#[derive(Debug)]
pub enum UserTurn {
    /// A prompt to render and record once the turn succeeds.
    Fresh(UserPrompt),
    /// A message already in the store, sent again.
    Stored(ChatMessage),
}

pub ghost enum UserTurnView {
    Fresh(UserPromptView),
    Stored(MessageView),
}

impl View for UserTurn {
    type V = UserTurnView;

    open spec fn view(&self) -> UserTurnView {
        match self {
            UserTurn::Fresh(p) => UserTurnView::Fresh(p@),
            UserTurn::Stored(m) => UserTurnView::Stored(m@),
        }
    }
}

/// What one completion call is given: the pending user turn, the system
/// preamble, the history, and the evicted messages for long-term memory.
#[derive(Debug)]
pub struct ContextWindow {
    pub user_prompt: Option<UserTurn>,
    pub system_prompt: String,
    pub history: Vec<ChatMessage>,
    pub overflow: Option<Vec<ChatMessage>>,
}

pub ghost struct WindowView {
    pub user_prompt: Option<UserTurnView>,
    pub system_prompt: Seq<char>,
    pub history: Seq<MessageView>,
    pub overflow: Option<Seq<MessageView>>,
}

impl View for ContextWindow {
    type V = WindowView;

    open spec fn view(&self) -> WindowView {
        WindowView {
            user_prompt: match self.user_prompt {
                Some(u) => Some(u@),
                None => None,
            },
            system_prompt: self.system_prompt@,
            history: messages_view(self.history@),
            overflow: match self.overflow {
                Some(o) => Some(messages_view(o@)),
                None => None,
            },
        }
    }
}

/// Why a context could not be assembled.
#[derive(Clone, Copy, Debug, PartialEq, Eq, Structural)]
pub enum ContextError {
    /// No turn has the identifier.
    NotFound,
    /// No plain-text user turn precedes the target to prompt again with.
    NoUserPrompt,
    /// The synthetic identifier drawn for a new turn is already taken.
    IdentifierTaken,
}

/// Limits of the short-term memory and the persona.
#[derive(Debug)]
pub struct ContextConfig {
    /// Number of turns at which eviction starts.
    pub max_stm: usize,
    /// Share of `max_stm` kept by an eviction, in thousandths.
    pub retain_permille: u64,
    pub system: SystemPromptBuilder,
}

pub ghost struct ConfigView {
    pub max_stm: nat,
    pub retain_permille: nat,
    pub system: PromptView,
}

impl View for ContextConfig {
    type V = ConfigView;

    open spec fn view(&self) -> ConfigView {
        ConfigView {
            max_stm: self.max_stm as nat,
            retain_permille: self.retain_permille as nat,
            system: self.system@,
        }
    }
}

/// Whole seconds in `ms` milliseconds, rounded toward zero.
pub open spec fn seconds_of(ms: i64) -> int {
    div_toward_zero(ms as int, 1000)
}

/// The prompt composed around pending user text.
pub open spec fn composed(text: Seq<char>, clock: Seq<char>, v: Seq<TurnView>, now: i64) -> UserPromptView {
    UserPromptView {
        content: Some(text),
        current_time: clock,
        time_since: duration_phrase(seconds_of(since_last(v, now))),
        relevant_memories: Seq::empty(),
        system_note: None,
        freewill: false,
    }
}

/// The store after a context is assembled.
pub open spec fn context_rest(v: Seq<TurnView>, c: ConfigView) -> Seq<TurnView> {
    if v.len() == 0 {
        v
    } else {
        drain_rest(v, c.max_stm, c.retain_permille)
    }
}

/// The evicted messages a window hands to long-term memory: the batch of a
/// due eviction, when it is not empty.
pub open spec fn context_overflow(v: Seq<TurnView>, c: ConfigView) -> Option<Seq<MessageView>> {
    if v.len() == 0 {
        None
    } else {
        match drain_batch(v, c.max_stm, c.retain_permille) {
            Some(b) => if b.len() > 0 {
                Some(b)
            } else {
                None
            },
            None => None,
        }
    }
}

/// The window assembled from the store `v`.
pub open spec fn context_window(
    v: Seq<TurnView>,
    c: ConfigView,
    pending: Option<Seq<char>>,
    now: i64,
    clock: Seq<char>,
) -> WindowView {
    WindowView {
        user_prompt: match pending {
            Some(t) => Some(UserTurnView::Fresh(composed(t, clock, v, now))),
            None => None,
        },
        system_prompt: render(
            filled(c.system, clock, duration_phrase(seconds_of(since_last(context_rest(v, c), now)))),
        ),
        history: selected_messages(v),
        overflow: context_overflow(v, c),
    }
}

/// The window for regenerating the reply at `k`, or why there is none.
pub open spec fn regen_window(
    v: Seq<TurnView>,
    c: ConfigView,
    k: TurnKey,
    now: i64,
    clock: Seq<char>,
) -> Result<WindowView, ContextError> {
    match index_of_key(v, k) {
        None => Err(ContextError::NotFound),
        Some(i) => {
            let ms = selected_messages(v.take(i));
            match last_user_text(ms) {
                None => Err(ContextError::NoUserPrompt),
                Some(j) => Ok(
                    WindowView {
                        user_prompt: Some(UserTurnView::Stored(ms[j])),
                        system_prompt: render(
                            filled(c.system, clock, duration_phrase(seconds_of(since_last(v, now)))),
                        ),
                        history: ms.remove(j),
                        overflow: None,
                    },
                ),
            }
        },
    }
}

/// The nudge recorded for an unprompted turn at `now`, after the store
/// became `rest`.
pub open spec fn nudge_message(rest: Seq<TurnView>, now: i64, clock: Seq<char>) -> MessageView {
    MessageView {
        role: MessageRole::User,
        content: ContentView::Text(
            prompt_text(
                UserPromptView {
                    content: None,
                    current_time: clock,
                    time_since: duration_phrase(seconds_of(since_last(rest, now))),
                    relevant_memories: Seq::empty(),
                    system_note: Some(nudge_note()),
                    freewill: true,
                },
            ),
        ),
        sent_at: now,
        freewill: true,
    }
}

/// The window of an unprompted turn: the usual one, with the nudge as the
/// user turn.
pub open spec fn freewill_window(v: Seq<TurnView>, c: ConfigView, now: i64, clock: Seq<char>) -> WindowView {
    WindowView {
        user_prompt: Some(UserTurnView::Stored(nudge_message(context_rest(v, c), now, clock))),
        ..context_window(v, c, None, now, clock)
    }
}

/// The store after an unprompted turn recorded its nudge: one turn more,
/// under a synthetic identifier.
pub open spec fn nudge_recorded(after: Seq<TurnView>, rest: Seq<TurnView>, now: i64, clock: Seq<char>) -> bool {
    &&& after.len() == rest.len() + 1
    &&& after.take(rest.len() as int) == rest
    &&& after.last().id.key.2
    &&& after.last().node.versions == seq![(nudge_message(rest, now, clock), now)]
    &&& after.last().node.selected == 0
}

/// Position of the newest plain-text user message, if any.
pub open spec fn last_user_text(ms: Seq<MessageView>) -> Option<int>
    decreases ms.len(),
{
    if ms.len() == 0 {
        None
    } else if is_user_text(ms.last()) {
        Some(ms.len() - 1)
    } else {
        last_user_text(ms.drop_last())
    }
}

/// Assembling a context twice with nothing changed in between: below the
/// eviction threshold the store is left as it was, and both windows have
/// the same history and preamble (for the same clock) and no overflow; at
/// or above it, an eviction that keeps fewer than `max_stm` turns is not
/// repeated by the second call.
pub proof fn lemma_context_idempotent(
    v: Seq<TurnView>,
    c: ConfigView,
    first: Option<Seq<char>>,
    second: Option<Seq<char>>,
    now: i64,
    clock: Seq<char>,
)
    requires
        c.retain_permille <= 1000,
    ensures
        v.len() < c.max_stm ==> {
            &&& context_rest(v, c) == v
            &&& context_window(context_rest(v, c), c, second, now, clock).history == context_window(
                v,
                c,
                first,
                now,
                clock,
            ).history
            &&& context_window(context_rest(v, c), c, second, now, clock).system_prompt
                == context_window(v, c, first, now, clock).system_prompt
            &&& context_window(v, c, first, now, clock).overflow is None
            &&& context_window(context_rest(v, c), c, second, now, clock).overflow is None
        },
        v.len() >= c.max_stm && keep_count(c.max_stm, c.retain_permille) < c.max_stm ==> {
            &&& context_rest(context_rest(v, c), c).len() == context_rest(v, c).len()
            &&& context_window(context_rest(v, c), c, second, now, clock).overflow is None
        },
{
    if v.len() >= c.max_stm && keep_count(c.max_stm, c.retain_permille) < c.max_stm && v.len() > 0 {
        crate::store::lemma_drain_removes_oldest(v, c.max_stm, c.retain_permille);
    }
}

/// The newest plain-text user message lies within the sequence, and is one.
pub proof fn lemma_last_user_text_bounds(ms: Seq<MessageView>)
    ensures
        last_user_text(ms) matches Some(j) ==> 0 <= j < ms.len() && is_user_text(ms[j]),
    decreases ms.len(),
{
    if ms.len() > 0 && !is_user_text(ms.last()) {
        lemma_last_user_text_bounds(ms.drop_last());
    }
}

/// Position of the newest plain-text user message in `ms`.
fn last_user_text_index(ms: &Vec<ChatMessage>) -> (r: Option<usize>)
    ensures
        match last_user_text(messages_view(ms@)) {
            Some(j) => r == Some(j as usize),
            None => r is None,
        },
{
    let ghost mv = messages_view(ms@);
    assert(mv.take(ms.len() as int) =~= mv);
    let mut j = ms.len();
    while j > 0
        invariant
            j <= ms@.len(),
            mv == messages_view(ms@),
            last_user_text(mv) == last_user_text(mv.take(j as int)),
        decreases j,
    {
        assert(mv.take(j as int).drop_last() =~= mv.take(j - 1));
        assert(mv.take(j as int).last() == mv[j - 1]);
        if ms[j - 1].is_user_text() {
            return Some(j - 1);
        }
        j = j - 1;
    }
    assert(mv.take(0) =~= Seq::<MessageView>::empty());
    None
}

/// The conversation store of one user with its limits and persona.
#[derive(Debug)]
pub struct ChatContext {
    pub store: ConversationStore,
    pub config: ContextConfig,
}

fn seconds_text(ms: i64) -> (r: String)
    ensures
        r@ == duration_phrase(seconds_of(ms)),
{
    time_to_string(seconds_of_ms(ms))
}

impl ChatContext {
    pub open spec fn wf(&self) -> bool {
        &&& self.store.wf()
        &&& self.config.retain_permille <= 1000
    }

    /// An empty context.
    pub fn new(config: ContextConfig) -> (r: Self)
        requires
            config.retain_permille <= 1000,
        ensures
            r.wf(),
            r.store@ == Seq::<TurnView>::empty(),
            r.config@ == config@,
    {
        ChatContext { store: ConversationStore::new(), config }
    }

    /// A context over turns restored from storage, in conversation order;
    /// empty when they do not form a store (a repeated identity or an
    /// invalid selection).
    pub fn restore(config: ContextConfig, turns: Vec<Turn>) -> (r: Self)
        requires
            config.retain_permille <= 1000,
        ensures
            r.wf(),
            r.config@ == config@,
            match restored(turns@.map_values(|t: Turn| t@)) {
                Some(v) => r.store@ == v,
                None => r.store@ == Seq::<TurnView>::empty(),
            },
    {
        let store = match ConversationStore::from_turns(turns) {
            Ok(s) => s,
            Err(_) => ConversationStore::new(),
        };
        ChatContext { store, config }
    }

    /// Records a rendered user prompt as a new turn at `id`.
    pub fn add_user_message(&mut self, prompt: UserPrompt, id: MessageIdentifier, at: i64) -> (r: Result<(), StoreError>)
        requires
            old(self).wf(),
        ensures
            final(self).wf(),
            final(self).config@ == old(self).config@,
            r is Ok <==> index_of_key(old(self).store@, id@.key) is None,
            r is Ok ==> final(self).store@ == old(self).store@.push(
                TurnView {
                    id: id@,
                    node: crate::branch::BranchView {
                        versions: seq![
                            (
                                MessageView {
                                    role: MessageRole::User,
                                    content: ContentView::Text(prompt_text(prompt@)),
                                    sent_at: at,
                                    freewill: prompt.freewill,
                                },
                                at,
                            ),
                        ],
                        selected: 0,
                    },
                },
            ),
            r is Err ==> final(self).store@ == old(self).store@,
    {
        let m = prompt.into_message(at);
        self.store.add(m, id, at)
    }

    /// Assembles the window for a turn at time `now` (milliseconds), whose
    /// wall-clock text is `clock`: the history as it stands, then an
    /// eviction when the store is full, and the preamble rendered with the
    /// time since the newest message.
    pub fn get_context_at(&mut self, pending: Option<String>, now: i64, clock: &str) -> (r: ContextWindow)
        requires
            old(self).wf(),
        ensures
            final(self).wf(),
            final(self).config@ == old(self).config@,
            final(self).store@ == context_rest(old(self).store@, old(self).config@),
            r@ == context_window(old(self).store@, old(self).config@, opt_text(pending), now, clock@),
    {
        let user_prompt = match pending {
            Some(text) => {
                let relevant_memories: Vec<String> = Vec::new();
                assert(texts(relevant_memories@) =~= Seq::<Seq<char>>::empty());
                Some(
                    UserTurn::Fresh(
                        UserPrompt {
                            content: Some(text),
                            current_time: clock.to_owned(),
                            time_since: seconds_text(self.store.time_since_last_at(now)),
                            relevant_memories,
                            system_note: None,
                            freewill: false,
                        },
                    ),
                )
            },
            None => None,
        };
        if self.store.is_empty() {
            let since = self.store.time_since_last_at(now);
            let system_prompt = self.config.system.duplicate().build(clock, seconds_of_ms(since));
            let r = ContextWindow {
                user_prompt,
                system_prompt: system_prompt.to_string(),
                history: Vec::new(),
                overflow: None,
            };
            assert(messages_view(r.history@) =~= selected_messages(old(self).store@));
            return r;
        }
        let history = self.store.get_messages();
        let drained = self.store.drain_overflow(self.config.max_stm, self.config.retain_permille);
        let since = self.store.time_since_last_at(now);
        let system_prompt = self.config.system.duplicate().build(clock, seconds_of_ms(since));
        let overflow = match drained {
            Some(b) => if b.len() > 0 {
                Some(b)
            } else {
                None
            },
            None => None,
        };
        ContextWindow { user_prompt, system_prompt: system_prompt.to_string(), history, overflow }
    }
}

/// Whole seconds in `ms` milliseconds, rounded toward zero.
fn seconds_of_ms(ms: i64) -> (r: i64)
    ensures
        r == seconds_of(ms),
{
    if ms >= 0 {
        ms / 1000
    } else {
        (-((-(ms as i128)) / 1000)) as i64
    }
}

impl ChatContext {
    /// The wall-clock text of `now` in the configured zone, or in UTC when
    /// none is configured or the zone is unknown.
    pub fn clock_at(&self, now: i64) -> (r: String)
        ensures
            match self.config@.system.timezone {
                None => r@ == utc_clock(now),
                Some(z) => r@ == zoned_clock(now, z) || r@ == utc_clock(now),
            },
    {
        match &self.config.system.timezone {
            Some(z) => match zoned_clock_text(now, z.as_str()) {
                Some(t) => t,
                None => clock_text(now),
            },
            None => clock_text(now),
        }
    }

    /// Assembles the window for a turn now; see `get_context_at`. Whatever
    /// the clock reads, the store evicts as it is due and the history is the
    /// store's as it was.
    pub fn get_context(&mut self, pending: Option<String>) -> (r: ContextWindow)
        requires
            old(self).wf(),
        ensures
            final(self).wf(),
            final(self).config@ == old(self).config@,
            final(self).store@ == context_rest(old(self).store@, old(self).config@),
            r@.history == selected_messages(old(self).store@),
            r@.overflow == context_overflow(old(self).store@, old(self).config@),
            match pending {
                Some(t) => r@.user_prompt matches Some(UserTurnView::Fresh(p)) && p.content == Some(t@)
                    && p.relevant_memories == Seq::<Seq<char>>::empty() && p.system_note is None
                    && !p.freewill,
                None => r@.user_prompt is None,
            },
    {
        let now = now_millis();
        let clock = self.clock_at(now);
        self.get_context_at(pending, now, clock.as_str())
    }

    /// Milliseconds since the newest message, by the clock now.
    pub fn time_since_last(&self) -> (r: i64)
        requires
            self.wf(),
        ensures
            self.store@.len() == 0 ==> r == 0,
    {
        self.store.time_since_last_at(now_millis())
    }

    /// The window for regenerating the reply at `target`: the history before
    /// it, less the newest plain-text user turn there, which is sent again.
    /// The store is not changed.
    pub fn get_regen_context_at(&self, target: &TurnKey, now: i64, clock: &str) -> (r: Result<ContextWindow, ContextError>)
        requires
            self.wf(),
        ensures
            match regen_window(self.store@, self.config@, *target, now, clock@) {
                Ok(wv) => r matches Ok(w) && w@ == wv,
                Err(e) => r == Err::<ContextWindow, ContextError>(e),
            },
    {
        let i = match self.store.index_of(target) {
            Some(i) => i,
            None => return Err(ContextError::NotFound),
        };
        let ghost ms = selected_messages(self.store@.take(i as int));
        let mut history = self.selected_before(i);
        let j = match last_user_text_index(&history) {
            Some(j) => j,
            None => return Err(ContextError::NoUserPrompt),
        };
        proof {
            lemma_last_user_text_bounds(ms);
        }
        let prompt = history.remove(j);
        assert(messages_view(history@) =~= ms.remove(j as int));
        let since = self.store.time_since_last_at(now);
        let system_prompt = self.config.system.duplicate().build(clock, seconds_of_ms(since));
        Ok(ContextWindow {
            user_prompt: Some(UserTurn::Stored(prompt)),
            system_prompt: system_prompt.to_string(),
            history,
            overflow: None,
        })
    }

    /// The selected messages of the first `i` turns.
    fn selected_before(&self, i: usize) -> (r: Vec<ChatMessage>)
        requires
            self.wf(),
            i <= self.store@.len(),
        ensures
            messages_view(r@) == selected_messages(self.store@.take(i as int)),
    {
        let ghost v = self.store@;
        let ghost ms = selected_messages(v.take(i as int));
        proof {
            self.store.lemma_wf();
        }
        let mut history: Vec<ChatMessage> = Vec::new();
        let mut k: usize = 0;
        while k < i
            invariant
                i <= v.len(),
                v == self.store@,
                crate::store::turns_wf(v),
                ms == selected_messages(v.take(i as int)),
                k <= i,
                history@.len() == k,
                forall|j: int| 0 <= j < k ==> (#[trigger] history@[j])@ == ms[j],
            decreases i - k,
        {
            let t = self.store.turn(k);
            proof {
                crate::store::lemma_turn_wf(v, k as int);
            }
            history.push(t.node.selected().duplicate());
            k = k + 1;
        }
        assert(messages_view(history@) =~= ms);
        history
    }

    /// `get_regen_context_at` by the clock now.
    pub fn get_regen_context(&self, target: &TurnKey) -> (r: Result<ContextWindow, ContextError>)
        requires
            self.wf(),
        ensures
            match index_of_key(self.store@, *target) {
                None => r == Err::<ContextWindow, ContextError>(ContextError::NotFound),
                Some(i) => {
                    let ms = selected_messages(self.store@.take(i));
                    match last_user_text(ms) {
                        None => r == Err::<ContextWindow, ContextError>(ContextError::NoUserPrompt),
                        Some(j) => r matches Ok(w) && w@.history == ms.remove(j) && w@.user_prompt == Some(
                            UserTurnView::Stored(ms[j]),
                        ) && w@.overflow is None,
                    }
                },
            },
    {
        let now = now_millis();
        let clock = self.clock_at(now);
        self.get_regen_context_at(target, now, clock.as_str())
    }

    /// The window for the agent to speak unprompted at `now`: the usual
    /// window, with a system nudge as the user turn (any `pending` text is
    /// not sent). The nudge is recorded at once under a fresh synthetic
    /// identifier, flagged as agent-initiated.
    pub fn freewill_context_at(&mut self, pending: Option<String>, now: i64, clock: &str) -> (r: Result<ContextWindow, ContextError>)
        requires
            old(self).wf(),
        ensures
            final(self).wf(),
            final(self).config@ == old(self).config@,
            match r {
                Ok(w) => w@ == freewill_window(old(self).store@, old(self).config@, now, clock@)
                    && nudge_recorded(
                    final(self).store@,
                    context_rest(old(self).store@, old(self).config@),
                    now,
                    clock@,
                ),
                Err(e) => e == ContextError::IdentifierTaken && final(self).store@ == context_rest(
                    old(self).store@,
                    old(self).config@,
                ) && has_synthetic(context_rest(old(self).store@, old(self).config@)),
            },
    {
        let w = self.get_context_at(None, now, clock);
        let ghost rest = self.store@;
        let relevant_memories: Vec<String> = Vec::new();
        assert(texts(relevant_memories@) =~= Seq::<Seq<char>>::empty());
        let nudge = UserPrompt {
            content: None,
            current_time: clock.to_owned(),
            time_since: seconds_text(self.store.time_since_last_at(now)),
            relevant_memories,
            system_note: Some(String::from_str("Please attempt to pull the user back into the conversation, making sure to keep the same tone and style as you normally would, following all previous instructions, yet keeping the time difference in mind. Your response should only contain the actual response, not your thoughts or anything else.")),
            freewill: true,
        };
        let message = nudge.into_message(now);
        let id = MessageIdentifier::random();
        match self.store.add(message.duplicate(), id, now) {
            Ok(()) => {
                assert(self.store@.take(rest.len() as int) =~= rest);
                Ok(ContextWindow {
                    user_prompt: Some(UserTurn::Stored(message)),
                    system_prompt: w.system_prompt,
                    history: w.history,
                    overflow: w.overflow,
                })
            },
            Err(_) => {
                proof {
                    crate::store::lemma_taken_synthetic(rest, id@.key);
                }
                Err(ContextError::IdentifierTaken)
            },
        }
    }

    /// `freewill_context_at` by the clock now.
    pub fn freewill_context(&mut self, pending: Option<String>) -> (r: Result<ContextWindow, ContextError>)
        requires
            old(self).wf(),
        ensures
            final(self).wf(),
            final(self).config@ == old(self).config@,
            ({
                let rest = context_rest(old(self).store@, old(self).config@);
                match r {
                    Ok(w) => {
                        &&& w@.history == selected_messages(old(self).store@)
                        &&& w@.overflow == context_overflow(old(self).store@, old(self).config@)
                        &&& final(self).store@.len() == rest.len() + 1
                        &&& final(self).store@.take(rest.len() as int) == rest
                        &&& final(self).store@.last().id.key.2
                        &&& final(self).store@.last().node.selected == 0
                        &&& final(self).store@.last().node.versions.len() == 1
                        &&& final(self).store@.last().node.versions[0].0.role == MessageRole::User
                        &&& final(self).store@.last().node.versions[0].0.freewill
                        &&& w@.user_prompt == Some(
                            UserTurnView::Stored(final(self).store@.last().node.versions[0].0),
                        )
                    },
                    Err(e) => e == ContextError::IdentifierTaken && final(self).store@ == rest
                        && has_synthetic(rest),
                }
            }),
    {
        let now = now_millis();
        let clock = self.clock_at(now);
        self.freewill_context_at(pending, now, clock.as_str())
    }
}

} // verus!
