use branchmind::context::{ChatContext, ContextConfig, ContextError, UserPrompt, UserTurn};
use branchmind::identifier::MessageIdentifier;
use branchmind::message::ChatMessage;
use branchmind::prompt::SystemPromptBuilder;

fn builder() -> SystemPromptBuilder {
    SystemPromptBuilder {
        chatbot_name: "Ava".to_string(),
        user_name: "Sam".to_string(),
        about: "A helpful friend.".to_string(),
        max_ltm: 3,
        tone: Some("warm to {user}, it is {time}".to_string()),
        age: None,
        likes: None,
        dislikes: None,
        history: None,
        conversation_goals: None,
        conversational_examples: None,
        context: None,
        long_term_memory: None,
        user_about: None,
        timezone: None,
        language: None,
    }
}

fn ctx(max_stm: usize) -> ChatContext {
    ChatContext::new(ContextConfig { max_stm, retain_permille: 800, system: builder() })
}

fn text(m: &ChatMessage) -> String {
    m.content().expect("text message")
}

fn add(c: &mut ChatContext, s: &str, user: bool, id: u64, at: i64) {
    let m = if user { ChatMessage::user(s.to_string(), at) } else { ChatMessage::assistant(s.to_string(), at) };
    c.store.add(m, MessageIdentifier::new(id, 1), at).unwrap();
}

#[test]
fn empty_store_gives_empty_history_and_pending_prompt() {
    let mut c = ctx(10);
    let w = c.get_context_at(Some("hello there".to_string()), 1_000, "2024-01-01 00:00:00 +0000");
    assert!(w.history.is_empty());
    assert!(w.overflow.is_none());
    match w.user_prompt {
        Some(UserTurn::Fresh(p)) => {
            assert_eq!(p.content, Some("hello there".to_string()));
            assert_eq!(p.time_since, "0 seconds");
            assert!(!p.freewill);
        }
        _ => panic!("expected a fresh prompt"),
    }
    assert!(w.system_prompt.contains("## Tone\nwarm to Sam, it is 2024-01-01 00:00:00 +0000\n\n"));
}

#[test]
fn history_is_store_in_order() {
    let mut c = ctx(10);
    add(&mut c, "hi", true, 1, 0);
    add(&mut c, "hello", false, 2, 1_000);
    let w = c.get_context_at(Some("next".to_string()), 61_000, "now");
    assert_eq!(w.history.iter().map(text).collect::<Vec<_>>(), vec!["hi", "hello"]);
    match w.user_prompt {
        Some(UserTurn::Fresh(p)) => assert_eq!(p.time_since, "1 minute"),
        _ => panic!("expected a fresh prompt"),
    }
    assert_eq!(c.store.len(), 2);
}

#[test]
fn get_context_twice_is_stable_below_threshold() {
    let mut c = ctx(10);
    add(&mut c, "hi", true, 1, 0);
    add(&mut c, "hello", false, 2, 1_000);
    let a = c.get_context_at(None, 5_000, "t");
    let b = c.get_context_at(None, 5_000, "t");
    assert_eq!(a.history.iter().map(text).collect::<Vec<_>>(), b.history.iter().map(text).collect::<Vec<_>>());
    assert_eq!(a.system_prompt, b.system_prompt);
    assert!(a.overflow.is_none() && b.overflow.is_none());
    assert!(a.user_prompt.is_none());
}

#[test]
fn get_context_drains_only_once() {
    let mut c = ctx(3);
    add(&mut c, "a", true, 1, 0);
    add(&mut c, "b", false, 2, 0);
    add(&mut c, "c", true, 3, 0);
    let first = c.get_context_at(None, 0, "t");
    assert_eq!(first.history.len(), 3);
    assert_eq!(first.overflow.map(|o| o.iter().map(text).collect::<Vec<_>>()), Some(vec!["a".to_string()]));
    assert_eq!(c.store.len(), 2);
    let second = c.get_context_at(None, 0, "t");
    assert!(second.overflow.is_none());
    assert_eq!(c.store.len(), 2);
}

#[test]
fn regen_context_resends_last_user_turn() {
    let mut c = ctx(10);
    add(&mut c, "question", true, 1, 0);
    add(&mut c, "old answer", false, 2, 0);
    add(&mut c, "follow-up", true, 3, 0);
    add(&mut c, "second answer", false, 4, 0);
    let w = c.get_regen_context_at(&(4, 1, false), 0, "t").unwrap();
    assert_eq!(w.history.iter().map(text).collect::<Vec<_>>(), vec!["question", "old answer"]);
    match w.user_prompt {
        Some(UserTurn::Stored(m)) => assert_eq!(text(&m), "follow-up"),
        _ => panic!("expected the stored user turn"),
    }
    assert!(w.overflow.is_none());
    assert_eq!(c.store.len(), 4);
}

#[test]
fn regen_without_user_turn_fails_and_leaves_store() {
    let mut c = ctx(10);
    add(&mut c, "one", false, 1, 0);
    add(&mut c, "two", false, 2, 0);
    add(&mut c, "three", false, 3, 0);
    let r = c.get_regen_context_at(&(3, 1, false), 0, "t");
    assert_eq!(r.err(), Some(ContextError::NoUserPrompt));
    assert_eq!(c.store.len(), 3);
    let r = c.get_regen_context_at(&(99, 1, false), 0, "t");
    assert_eq!(r.err(), Some(ContextError::NotFound));
}

#[test]
fn freewill_context_records_a_nudge() {
    let mut c = ctx(10);
    add(&mut c, "hi", true, 1, 0);
    add(&mut c, "hello", false, 2, 0);
    let w = c.freewill_context_at(None, 7_200_000, "t").unwrap();
    assert_eq!(w.history.len(), 2);
    assert_eq!(c.store.len(), 3);
    let last = c.store.latest().unwrap().selected();
    assert!(last.freewill);
    let body = text(last);
    assert!(body.starts_with("System Note:\nPlease attempt to pull the user back"));
    assert!(body.ends_with("The current time is t, 2 hours since the last message before this one."));
    assert!(c.store.turn(2).identifier.random);
    match w.user_prompt {
        Some(UserTurn::Stored(m)) => assert_eq!(text(&m), body),
        _ => panic!("expected the recorded nudge"),
    }
}

#[test]
fn user_prompt_renders_paragraphs() {
    let p = UserPrompt {
        content: Some("how are you?".to_string()),
        current_time: "T".to_string(),
        time_since: "5 seconds".to_string(),
        relevant_memories: vec!["likes tea".to_string(), "has a cat".to_string()],
        system_note: None,
        freewill: false,
    };
    let m = p.into_message(42);
    assert_eq!(
        text(&m),
        "The current time is T, 5 seconds since the last message before this one.\n\n\
You have recalled the following memories:\n```memory\nlikes tea\n```\n```memory\nhas a cat\n```\n\n\
Respond to the following message:\nhow are you?"
    );
    assert_eq!(m.sent_at, 42);
}

#[test]
fn add_user_message_records_rendered_prompt() {
    let mut c = ctx(10);
    let p = UserPrompt {
        content: Some("yo".to_string()),
        current_time: "T".to_string(),
        time_since: "1 day".to_string(),
        relevant_memories: vec![],
        system_note: Some("be brief".to_string()),
        freewill: false,
    };
    c.add_user_message(p, MessageIdentifier::new(5, 5), 9).unwrap();
    assert_eq!(
        text(c.store.latest().unwrap().selected()),
        "System Note:\nbe brief\n\nThe current time is T, 1 day since the last message before this one.\n\nRespond to the following message:\nyo"
    );
}

#[test]
fn clock_reading_entry_points() {
    let mut c = ctx(10);
    let w = c.get_context(Some("x".to_string()));
    assert!(w.user_prompt.is_some());
    assert!(w.history.is_empty());
    assert_eq!(c.time_since_last(), 0);
    add(&mut c, "q", true, 1, 0);
    add(&mut c, "a", false, 2, 0);
    assert!(c.get_regen_context(&(2, 1, false)).is_ok());
    assert!(c.freewill_context(None).is_ok());
    assert_eq!(c.store.len(), 3);
}

#[test]
fn clock_text_is_filled_in_by_get_context() {
    let mut c = ctx(10);
    let w = c.get_context(Some("x".to_string()));
    let start = w.system_prompt.find("## Tone\nwarm to Sam, it is ").expect("tone section") + "## Tone\nwarm to Sam, it is ".len();
    let stamp: String = w.system_prompt[start..].chars().take(25).collect();
    assert_eq!(stamp.len(), 25);
    assert!(stamp.ends_with(" +0000"));
    assert_eq!(&stamp[4..5], "-");
    assert_eq!(&stamp[13..14], ":");
}

#[test]
fn restore_keeps_valid_turns_and_drops_invalid_ones() {
    let mut c = ctx(10);
    add(&mut c, "a", true, 1, 0);
    add(&mut c, "b", false, 2, 0);
    let turns = std::mem::replace(&mut c.store, branchmind::store::ConversationStore::new()).into_turns();
    let r = ChatContext::restore(ContextConfig { max_stm: 10, retain_permille: 800, system: builder() }, turns);
    assert_eq!(r.store.get_messages().iter().map(text).collect::<Vec<_>>(), vec!["a", "b"]);
    let dup = vec![
        branchmind::store::Turn {
            identifier: MessageIdentifier::new(1, 1),
            node: branchmind::branch::BranchNode::new(ChatMessage::user("x".to_string(), 0), 0),
        },
        branchmind::store::Turn {
            identifier: MessageIdentifier::new(1, 1),
            node: branchmind::branch::BranchNode::new(ChatMessage::user("y".to_string(), 0), 0),
        },
    ];
    let r = ChatContext::restore(ContextConfig { max_stm: 10, retain_permille: 800, system: builder() }, dup);
    assert!(r.store.is_empty());
}

#[test]
fn clock_uses_configured_zone() {
    let mut b = builder();
    b.timezone = Some("Asia/Tokyo".to_string());
    let c = ChatContext::new(ContextConfig { max_stm: 10, retain_permille: 800, system: b });
    assert_eq!(c.clock_at(0), "1970-01-01 09:00:00 +0900");
    let mut b = builder();
    b.timezone = Some("Nowhere/Special".to_string());
    let c = ChatContext::new(ContextConfig { max_stm: 10, retain_permille: 800, system: b });
    assert_eq!(c.clock_at(0), "1970-01-01 00:00:00 +0000");
    assert_eq!(ctx(10).clock_at(86_400_000), "1970-01-02 00:00:00 +0000");
}

#[test]
fn commit_at_taken_identifier_fails() {
    let mut c = ctx(10);
    add(&mut c, "a", true, 1, 0);
    let w = c.get_context_at(Some("q".to_string()), 0, "t");
    let r = c.commit_turn(w.user_prompt.unwrap(), "r".to_string(), Some(MessageIdentifier::new(1, 1)), 0);
    assert_eq!(r.err(), Some(ContextError::IdentifierTaken));
    assert_eq!(c.store.len(), 1);
}
