use vstd::prelude::*;

verus! {

/// Who authored one version of a turn.
#[derive(Clone, Copy, Debug, PartialEq, Eq, Structural)]
pub enum MessageRole {
    User,
    Assistant,
}

impl MessageRole {
    /// The lower-case name of the role.
    pub fn name(&self) -> (r: String)
        ensures
            r@ == role_name(*self),
    {
        match self {
            MessageRole::User => {
                proof { reveal_strlit("user"); }
                String::from_str("user")
            },
            MessageRole::Assistant => {
                proof { reveal_strlit("assistant"); }
                String::from_str("assistant")
            },
        }
    }
}

pub open spec fn role_name(r: MessageRole) -> Seq<char> {
    match r {
        MessageRole::User => seq!['u', 's', 'e', 'r'],
        MessageRole::Assistant => seq!['a', 's', 's', 'i', 's', 't', 'a', 'n', 't'],
    }
}

/// What one version of a turn holds.
#[derive(Debug)]
pub enum MessageContent {
    /// Plain text.
    Text(String),
    /// A request of the assistant to run a tool.
    ToolCall { id: String, name: String, arguments: String },
    /// What a tool answered to the call with the same id.
    ToolResult { id: String, output: String },
}

pub ghost enum ContentView {
    Text(Seq<char>),
    ToolCall(Seq<char>, Seq<char>, Seq<char>),
    ToolResult(Seq<char>, Seq<char>),
}

impl View for MessageContent {
    type V = ContentView;

    open spec fn view(&self) -> ContentView {
        match self {
            MessageContent::Text(t) => ContentView::Text(t@),
            MessageContent::ToolCall { id, name, arguments } => ContentView::ToolCall(
                id@,
                name@,
                arguments@,
            ),
            MessageContent::ToolResult { id, output } => ContentView::ToolResult(id@, output@),
        }
    }
}

impl MessageContent {
    /// A copy with the same view.
    pub fn duplicate(&self) -> (r: Self)
        ensures
            r@ == self@,
    {
        match self {
            MessageContent::Text(t) => MessageContent::Text(t.clone()),
            MessageContent::ToolCall { id, name, arguments } => MessageContent::ToolCall {
                id: id.clone(),
                name: name.clone(),
                arguments: arguments.clone(),
            },
            MessageContent::ToolResult { id, output } => MessageContent::ToolResult {
                id: id.clone(),
                output: output.clone(),
            },
        }
    }
}

/// One concrete version of a turn. `sent_at` is in milliseconds since the
/// Unix epoch; `freewill` marks agent-initiated turns and eviction
/// boundaries.
#[derive(Debug)]
pub struct ChatMessage {
    pub role: MessageRole,
    pub content: MessageContent,
    pub sent_at: i64,
    pub freewill: bool,
}

pub ghost struct MessageView {
    pub role: MessageRole,
    pub content: ContentView,
    pub sent_at: i64,
    pub freewill: bool,
}

impl View for ChatMessage {
    type V = MessageView;

    open spec fn view(&self) -> MessageView {
        MessageView {
            role: self.role,
            content: self.content@,
            sent_at: self.sent_at,
            freewill: self.freewill,
        }
    }
}

/// The text of a message, when it holds plain text.
pub open spec fn text_of(m: MessageView) -> Option<Seq<char>> {
    match m.content {
        ContentView::Text(t) => Some(t),
        _ => None,
    }
}

/// A user turn whose content is plain text (not a tool result).
pub open spec fn is_user_text(m: MessageView) -> bool {
    m.role == MessageRole::User && text_of(m) is Some
}

impl ChatMessage {
    /// A plain-text user message sent at `sent_at`.
    pub fn user(content: String, sent_at: i64) -> (r: Self)
        ensures
            r.role == MessageRole::User,
            r.content@ == ContentView::Text(content@),
            r.sent_at == sent_at,
            !r.freewill,
    {
        ChatMessage { role: MessageRole::User, content: MessageContent::Text(content), sent_at, freewill: false }
    }

    /// A plain-text assistant message sent at `sent_at`.
    pub fn assistant(content: String, sent_at: i64) -> (r: Self)
        ensures
            r.role == MessageRole::Assistant,
            r.content@ == ContentView::Text(content@),
            r.sent_at == sent_at,
            !r.freewill,
    {
        ChatMessage {
            role: MessageRole::Assistant,
            content: MessageContent::Text(content),
            sent_at,
            freewill: false,
        }
    }

    /// The text, when the message holds plain text.
    pub fn content(&self) -> (r: Option<String>)
        ensures
            match r {
                Some(t) => text_of(self@) == Some(t@),
                None => text_of(self@) is None,
            },
    {
        match &self.content {
            MessageContent::Text(t) => Some(t.clone()),
            _ => None,
        }
    }

    pub fn role(&self) -> (r: MessageRole)
        ensures
            r == self.role,
    {
        self.role
    }

    /// Whether this is a user turn of plain text.
    pub fn is_user_text(&self) -> (r: bool)
        ensures
            r == is_user_text(self@),
    {
        match &self.content {
            MessageContent::Text(_) => self.role == MessageRole::User,
            _ => false,
        }
    }

    /// A copy with the same view.
    pub fn duplicate(&self) -> (r: Self)
        ensures
            r@ == self@,
    {
        ChatMessage {
            role: self.role,
            content: self.content.duplicate(),
            sent_at: self.sent_at,
            freewill: self.freewill,
        }
    }
}

} // verus!
