use branchmind::branch::BranchNode;
use branchmind::buttons::{ButtonStates, RegenOrNext};
use branchmind::context::UserPrompt;
use branchmind::memory::{add_recalled, anonymize, personalize, recall_result, summary_transcript};
use branchmind::message::{ChatMessage, MessageContent, MessageRole};
use branchmind::reply::clean_reply;

#[test]
fn reasoning_blocks_and_spacing_are_cleaned() {
    let raw = "<think>plan\nsteps</think>\nHello  there   friend  \n\nBye\n\n\n\nok";
    assert_eq!(clean_reply(raw, false).unwrap(), "Hello there friend\n\nBye\n\nok");
    assert_eq!(clean_reply("<reasoning>x</reasoning>A  B", false).unwrap(), "A B");
    assert_eq!(clean_reply("plain", false).unwrap(), "plain");
}

#[test]
fn lowercase_is_applied_first() {
    assert_eq!(clean_reply("Hello  WORLD", true).unwrap(), "hello world");
}

#[test]
fn memory_placeholders() {
    assert_eq!(personalize("<user> likes <assistant>'s jokes", "Sam", "Ava"), "Sam likes Ava's jokes");
    assert_eq!(anonymize("Sam likes Ava's jokes", "Sam", "Ava"), "<user> likes <assistant>'s jokes");
    assert_eq!(anonymize("Sam", "", "Ava"), "Sam");
}

#[test]
fn transcript_for_summary() {
    let tool = ChatMessage {
        role: MessageRole::Assistant,
        content: MessageContent::ToolCall { id: "1".to_string(), name: "memory_store".to_string(), arguments: "{}".to_string() },
        sent_at: 0,
        freewill: false,
    };
    let ms = vec![
        ChatMessage::user("I am Sam".to_string(), 0),
        tool,
        ChatMessage::assistant("Hi Sam, I am Ava".to_string(), 0),
    ];
    assert_eq!(
        summary_transcript(&ms, "Sam", "Ava"),
        "<user>: I am <user>\n---\n<assistant>: Hi <user>, I am <assistant>"
    );
    assert_eq!(summary_transcript(&vec![], "Sam", "Ava"), "");
}

#[test]
fn transcript_trims_every_trailing_separator() {
    let ms = vec![ChatMessage::assistant("done\n---\n".to_string(), 0)];
    assert_eq!(summary_transcript(&ms, "U", "A"), "<assistant>: done");
}

#[test]
fn button_states_follow_selection() {
    let mut b = BranchNode::new(ChatMessage::assistant("a".to_string(), 0), 0);
    assert_eq!(ButtonStates::for_branch(&b), ButtonStates { prev_disabled: true, regen_or_next: RegenOrNext::Regen });
    b.push(ChatMessage::assistant("b".to_string(), 1), 1);
    assert_eq!(ButtonStates::for_branch(&b), ButtonStates { prev_disabled: false, regen_or_next: RegenOrNext::Regen });
    b.select_previous();
    assert_eq!(ButtonStates::for_branch(&b), ButtonStates { prev_disabled: true, regen_or_next: RegenOrNext::Next });
}

#[test]
fn recall_result_texts() {
    assert_eq!(recall_result(&vec![]), "{\"memory_recall_result\":\"Could not find any relevant memories\"}");
    assert_eq!(
        recall_result(&vec!["likes \"tea\"\n".to_string(), "a\\b\u{1}".to_string()]),
        "{\"memories\":[\"likes \\\"tea\\\"\\n\",\"a\\\\b\\u0001\"],\"memory_recall_result\":\"Found relevant memories\"}"
    );
}

#[test]
fn recalled_memories_are_added_personalized() {
    let mut p = UserPrompt {
        content: Some("hi".to_string()),
        current_time: "T".to_string(),
        time_since: "1 second".to_string(),
        relevant_memories: vec!["old".to_string()],
        system_note: None,
        freewill: false,
    };
    add_recalled(&mut p, &vec!["<user> has a cat".to_string()], "Sam", "Ava");
    assert_eq!(p.relevant_memories, vec!["old".to_string(), "Sam has a cat".to_string()]);
}
