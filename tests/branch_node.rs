use branchmind::branch::BranchNode;
use branchmind::message::{ChatMessage, MessageContent, MessageRole};

fn text(m: &ChatMessage) -> String {
    m.content().expect("text message")
}

#[test]
fn new_branch_selects_its_only_version() {
    let b = BranchNode::new(ChatMessage::assistant("hello".to_string(), 10), 11);
    assert_eq!(b.len(), 1);
    assert_eq!(b.selected_index(), 0);
    assert!(!b.has_previous());
    assert!(!b.has_next());
    assert_eq!(text(b.selected()), "hello");
}

#[test]
fn pushes_keep_selection_valid_and_select_newest() {
    let mut b = BranchNode::new(ChatMessage::assistant("v0".to_string(), 0), 0);
    for i in 1..6 {
        b.push(ChatMessage::assistant(format!("v{i}"), i), i);
        assert!(b.selected_index() < b.len());
        assert_eq!(b.selected_index(), b.len() - 1);
    }
    assert_eq!(b.len(), 6);
    assert_eq!(text(b.selected()), "v5");
}

#[test]
fn navigation_moves_selection_without_changing_length() {
    let mut b = BranchNode::new(ChatMessage::assistant("a".to_string(), 0), 0);
    b.push(ChatMessage::assistant("b".to_string(), 1), 1);
    b.push(ChatMessage::assistant("c".to_string(), 2), 2);
    assert!(b.has_previous());
    b.select_previous();
    assert_eq!(b.len(), 3);
    assert_eq!(text(b.selected()), "b");
    b.select_previous();
    assert_eq!(text(b.selected()), "a");
    assert!(!b.has_previous());
    assert!(b.has_next());
    b.select_next();
    assert_eq!(b.len(), 3);
    assert_eq!(text(b.selected()), "b");
    b.select_next();
    assert!(!b.has_next());
    assert_eq!(text(b.selected()), "c");
}

#[test]
fn boundary_flag_is_set_on_selected_version_only() {
    let mut b = BranchNode::new(ChatMessage::user("a".to_string(), 0), 0);
    b.push(ChatMessage::user("b".to_string(), 1), 1);
    b.set_selected_freewill(true);
    assert!(b.selected().freewill);
    b.select_previous();
    assert!(!b.selected().freewill);
}

#[test]
fn versions_round_trip_and_bad_selection_is_refused() {
    let mut b = BranchNode::new(ChatMessage::user("a".to_string(), 0), 5);
    b.push(ChatMessage::assistant("b".to_string(), 1), 6);
    b.select_previous();
    let (list, selected) = b.into_versions();
    assert_eq!(list.len(), 2);
    assert_eq!(selected, 0);
    assert_eq!(list[1].1, 6);
    let again = BranchNode::from_versions(list, selected).expect("valid selection");
    assert_eq!(again.selected_index(), 0);
    assert_eq!(text(again.selected()), "a");
    let list = vec![(ChatMessage::user("x".to_string(), 0), 0)];
    assert!(BranchNode::from_versions(list, 1).is_none());
}

#[test]
fn message_helpers() {
    let m = ChatMessage::user("hi".to_string(), 3);
    assert_eq!(m.role(), MessageRole::User);
    assert!(m.is_user_text());
    assert_eq!(MessageRole::User.name(), "user");
    assert_eq!(MessageRole::Assistant.name(), "assistant");
    let tool = ChatMessage {
        role: MessageRole::User,
        content: MessageContent::ToolResult { id: "1".to_string(), output: "{}".to_string() },
        sent_at: 0,
        freewill: false,
    };
    assert!(!tool.is_user_text());
    assert_eq!(tool.content(), None);
    let d = m.duplicate();
    assert_eq!(d.content(), Some("hi".to_string()));
    assert_eq!(d.sent_at, 3);
}
