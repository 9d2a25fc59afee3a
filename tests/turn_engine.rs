use branchmind::context::{ChatContext, ContextConfig, UserTurn};
use branchmind::engine::{
    CompletionOutcome, ContextType, ToolKind, TurnAction, TurnError, TurnState, MAX_REPLY_BYTES, MAX_RETRIES,
};
use branchmind::identifier::MessageIdentifier;
use branchmind::message::{ChatMessage, MessageContent, MessageRole};
use branchmind::prompt::SystemPromptBuilder;

fn ctx() -> ChatContext {
    let system = SystemPromptBuilder {
        chatbot_name: "Ava".to_string(),
        user_name: "Sam".to_string(),
        about: "x".to_string(),
        max_ltm: 3,
        tone: None,
        age: None,
        likes: None,
        dislikes: None,
        history: None,
        conversation_goals: None,
        conversational_examples: None,
        context: None,
        long_term_memory: None,
        user_about: None,
        timezone: None,
        language: None,
    };
    ChatContext::new(ContextConfig { max_stm: 50, retain_permille: 800, system })
}

fn text(m: &ChatMessage) -> String {
    m.content().unwrap_or_default()
}

fn tool_pair() -> (ChatMessage, ChatMessage) {
    let call = ChatMessage {
        role: MessageRole::Assistant,
        content: MessageContent::ToolCall {
            id: "c1".to_string(),
            name: "memory_recall".to_string(),
            arguments: "{\"query\":\"cat\"}".to_string(),
        },
        sent_at: 0,
        freewill: false,
    };
    let result = ChatMessage {
        role: MessageRole::User,
        content: MessageContent::ToolResult { id: "c1".to_string(), output: "{\"name\":\"memory_recall\"}".to_string() },
        sent_at: 0,
        freewill: false,
    };
    (call, result)
}

#[test]
fn advance_decisions() {
    let s = TurnState::new(MAX_RETRIES);
    assert_eq!(s.advance(&CompletionOutcome::Message("ok".to_string())), (s, TurnAction::Commit));
    let (n, a) = s.advance(&CompletionOutcome::Failed);
    assert_eq!((n.attempt, a), (1, TurnAction::Retry));
    let (call, result) = tool_pair();
    let (n, a) = s.advance(&CompletionOutcome::Tool { call, result });
    assert_eq!((n.attempt, a), (1, TurnAction::RecordAndRetry));
    let big = "x".repeat(MAX_REPLY_BYTES + 1);
    let (n, a) = s.advance(&CompletionOutcome::Message(big.clone()));
    assert_eq!((n.attempt, a), (1, TurnAction::Retry));
    let exact = "x".repeat(MAX_REPLY_BYTES);
    assert_eq!(s.advance(&CompletionOutcome::Message(exact)).1, TurnAction::Commit);
    let last = TurnState { attempt: 4, budget: 5 };
    assert_eq!(last.advance(&CompletionOutcome::Failed).1, TurnAction::Fail(TurnError::ProviderFailed));
    assert_eq!(last.advance(&CompletionOutcome::Message(big)).1, TurnAction::Fail(TurnError::TooManyRetries));
    let (call, result) = tool_pair();
    assert_eq!(last.advance(&CompletionOutcome::Tool { call, result }).1, TurnAction::RecordAndFail);
}

#[test]
fn tool_cycle_extends_history_in_order() {
    let mut c = ctx();
    c.store.add(ChatMessage::user("earlier".to_string(), 0), MessageIdentifier::new(1, 1), 0).unwrap();
    let intent = ContextType::User;
    let state = TurnState::new(MAX_RETRIES);
    let first = c.build_window(&intent, Some("what is my cat called?".to_string()), 0, "t").unwrap();
    assert_eq!(first.history.len(), 1);
    let (call, result) = tool_pair();
    let outcome = CompletionOutcome::Tool { call, result };
    let (state, action) = state.advance(&outcome);
    assert_eq!(action, TurnAction::RecordAndRetry);
    if let CompletionOutcome::Tool { call, result } = outcome {
        c.record_tool_exchange(call, result, 0).unwrap();
    }
    let second = c.build_window(&intent, Some("what is my cat called?".to_string()), 0, "t").unwrap();
    assert_eq!(second.history.len(), 3);
    assert!(matches!(second.history[1].content, MessageContent::ToolCall { .. }));
    assert!(matches!(second.history[2].content, MessageContent::ToolResult { .. }));
    assert!(c.store.turn(1).identifier.random && c.store.turn(2).identifier.random);
    let reply = CompletionOutcome::Message("Whiskers".to_string());
    let (_, action) = state.advance(&reply);
    assert_eq!(action, TurnAction::Commit);
    let user = second.user_prompt.unwrap();
    let m = c.commit_turn(user, "Whiskers".to_string(), Some(MessageIdentifier::new(50, 1)), 10).unwrap();
    assert_eq!(text(&m), "Whiskers");
    assert_eq!(m.role, MessageRole::Assistant);
    assert_eq!(c.store.len(), 4);
    assert_eq!(c.store.turn(3).identifier.key(), (50, 1, false));
    assert!(text(c.store.latest().unwrap().selected()).ends_with("Respond to the following message:\nwhat is my cat called?"));
}

#[test]
fn user_window_without_prompt_is_refused() {
    let mut c = ctx();
    assert_eq!(c.build_window(&ContextType::User, None, 0, "t").err(), Some(TurnError::NoPrompt));
}

#[test]
fn regen_window_and_commit_leave_user_turn_in_place() {
    let mut c = ctx();
    c.store.add(ChatMessage::user("q".to_string(), 0), MessageIdentifier::new(1, 1), 0).unwrap();
    c.store.add(ChatMessage::assistant("a".to_string(), 0), MessageIdentifier::new(2, 1), 0).unwrap();
    let w = c.build_window(&ContextType::Regen(MessageIdentifier::new(2, 1)), None, 0, "t").unwrap();
    assert!(matches!(w.user_prompt, Some(UserTurn::Stored(_))));
    let m = c.commit_turn(w.user_prompt.unwrap(), "b".to_string(), None, 0).unwrap();
    assert_eq!(text(&m), "b");
    assert_eq!(c.store.len(), 2);
}

#[test]
fn freewill_window_records_nudge() {
    let mut c = ctx();
    c.store.add(ChatMessage::assistant("a".to_string(), 0), MessageIdentifier::new(2, 1), 0).unwrap();
    let w = c.build_window(&ContextType::Freewill, None, 0, "t").unwrap();
    assert_eq!(w.history.len(), 1);
    assert_eq!(c.store.len(), 2);
}

#[test]
fn tool_names_dispatch() {
    assert_eq!(ToolKind::from_name("memory_recall"), Ok(ToolKind::MemoryRecall));
    assert_eq!(ToolKind::from_name("memory_store"), Ok(ToolKind::MemoryStore));
    assert_eq!(ToolKind::from_name("web_search"), Err(TurnError::UnknownTool));
    assert_eq!(ToolKind::MemoryRecall.name(), "memory_recall");
    assert_eq!(ToolKind::MemoryStore.name(), "memory_store");
}
