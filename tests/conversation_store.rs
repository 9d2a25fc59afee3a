use branchmind::identifier::MessageIdentifier;
use branchmind::message::{ChatMessage, MessageRole};
use branchmind::store::{ConversationStore, StoreError, Turn};

fn text(m: &ChatMessage) -> String {
    m.content().expect("text message")
}

fn store_of(n: u64) -> ConversationStore {
    let mut s = ConversationStore::new();
    for i in 0..n {
        let m = if i % 2 == 0 {
            ChatMessage::user(format!("m{i}"), i as i64)
        } else {
            ChatMessage::assistant(format!("m{i}"), i as i64)
        };
        s.add(m, MessageIdentifier::new(100 + i, 7), i as i64).unwrap();
    }
    s
}

fn texts(s: &ConversationStore) -> Vec<String> {
    s.get_messages().iter().map(text).collect()
}

#[test]
fn add_then_find_and_duplicate_is_refused() {
    let mut s = ConversationStore::new();
    assert!(s.is_empty());
    s.add(ChatMessage::user("a".to_string(), 1), MessageIdentifier::new(1, 2), 1).unwrap();
    let r = s.add(ChatMessage::user("b".to_string(), 2), MessageIdentifier::new(1, 2), 2);
    assert_eq!(r, Err(StoreError::AlreadyExists));
    assert_eq!(s.len(), 1);
    assert_eq!(text(s.find(&(1, 2, false)).unwrap().selected()), "a");
    assert!(s.find(&(1, 2, true)).is_none());
    let (i, id, node) = s.find_full(&(1, 2, false)).unwrap();
    assert_eq!(i, 0);
    assert_eq!(id.messages(), vec![1]);
    assert_eq!(node.len(), 1);
}

#[test]
fn identity_ignores_page_list() {
    let a = MessageIdentifier::with_pages(5, 6, vec![3, 4, 5]);
    let b = MessageIdentifier::new(5, 6);
    assert!(a == b);
    assert_eq!(a.key(), b.key());
    assert_eq!(a.channel(), 6);
    assert_eq!(a.message(), 5);
    assert_eq!(a.messages(), vec![3, 4, 5]);
}

#[test]
fn synthetic_identifiers_are_flagged() {
    let r = MessageIdentifier::random();
    assert!(r.random);
    assert_eq!(r.messages(), vec![r.message_id]);
    let f = MessageIdentifier::from_ids(None);
    assert!(f.random);
    let g = MessageIdentifier::from_ids(Some((9, 8)));
    assert_eq!(g.key(), (9, 8, false));
}

#[test]
fn swap_identifier_keeps_contents_and_position() {
    let mut s = store_of(3);
    let before = texts(&s);
    s.swap_identifiers(&(101, 7, false), MessageIdentifier::with_pages(900, 7, vec![899, 900])).unwrap();
    assert_eq!(texts(&s), before);
    assert!(s.find(&(101, 7, false)).is_none());
    let (i, id, node) = s.find_full(&(900, 7, false)).unwrap();
    assert_eq!(i, 1);
    assert_eq!(id.messages(), vec![899, 900]);
    assert_eq!(text(node.selected()), "m1");
    assert_eq!(s.len(), 3);
}

#[test]
fn swap_identifier_errors() {
    let mut s = store_of(2);
    assert_eq!(
        s.swap_identifiers(&(555, 7, false), MessageIdentifier::new(1, 1)),
        Err(StoreError::NotFound)
    );
    assert_eq!(
        s.swap_identifiers(&(100, 7, false), MessageIdentifier::new(101, 7)),
        Err(StoreError::AlreadyExists)
    );
    assert_eq!(texts(&s), vec!["m0", "m1"]);
}

#[test]
fn latest_and_latest_with_role() {
    let s = store_of(4);
    assert_eq!(text(s.latest().unwrap().selected()), "m3");
    assert_eq!(text(s.latest_with_role(MessageRole::User).unwrap().selected()), "m2");
    let (id, _) = s.latest_with_role_full(MessageRole::Assistant).unwrap();
    assert_eq!(id.key(), (103, 7, false));
    let e = ConversationStore::new();
    assert!(e.latest().is_none());
    assert!(e.latest_with_role(MessageRole::User).is_none());
}

#[test]
fn push_and_navigate_by_identifier() {
    let mut s = store_of(2);
    s.push_version(&(101, 7, false), ChatMessage::assistant("again".to_string(), 9), 9).unwrap();
    assert_eq!(texts(&s), vec!["m0", "again"]);
    s.select_previous(&(101, 7, false)).unwrap();
    assert_eq!(texts(&s), vec!["m0", "m1"]);
    s.select_next(&(101, 7, false)).unwrap();
    assert_eq!(texts(&s), vec!["m0", "again"]);
    assert_eq!(s.push_version(&(1, 1, false), ChatMessage::user("x".to_string(), 0), 0), Err(StoreError::NotFound));
}

#[test]
fn scenario_three_turns_drains_one() {
    let mut s = store_of(3);
    let batch = s.drain_overflow(3, 800).expect("store is full");
    assert_eq!(s.len(), 2);
    assert_eq!(batch.iter().map(text).collect::<Vec<_>>(), vec!["m0"]);
    assert_eq!(texts(&s), vec!["m1", "m2"]);
}

#[test]
fn drain_removes_oldest_and_keeps_order() {
    let mut s = store_of(12);
    let batch = s.drain_overflow(10, 800).expect("store is full");
    // 12 - round(0.8 * 10) = 4 removed
    assert_eq!(batch.len(), 4);
    assert_eq!(s.len(), 8);
    assert_eq!(texts(&s), (4..12).map(|i| format!("m{i}")).collect::<Vec<_>>());
    assert!(s.latest().unwrap().selected().freewill);
}

#[test]
fn drain_rounds_to_nearest() {
    let mut s = store_of(5);
    // round(0.5 * 5) = round(2.5) = 3 kept
    s.drain_overflow(5, 500).unwrap();
    assert_eq!(s.len(), 3);
}

#[test]
fn drain_below_threshold_does_nothing() {
    let mut s = store_of(2);
    assert!(s.drain_overflow(3, 800).is_none());
    assert_eq!(s.len(), 2);
    assert!(!s.latest().unwrap().selected().freewill);
}

#[test]
fn second_drain_stops_at_boundary() {
    let mut s = store_of(5);
    s.drain_overflow(5, 600).unwrap(); // keeps 3: m2 m3 m4, boundary at m4
    for i in 5..9u64 {
        s.add(ChatMessage::user(format!("m{i}"), i as i64), MessageIdentifier::new(100 + i, 7), 0).unwrap();
    }
    // 7 turns; keep 3 -> evict m2 m3 m4 m5, read back from m5 and stop at m4
    let batch = s.drain_overflow(5, 600).unwrap();
    assert_eq!(batch.iter().map(text).collect::<Vec<_>>(), vec!["m5"]);
    assert_eq!(texts(&s), vec!["m6", "m7", "m8"]);
}

#[test]
fn take_until_freewill_after_drain() {
    let mut s = store_of(4);
    s.drain_overflow(4, 500).unwrap(); // keeps m2 m3*, boundary at m3
    assert!(s.take_until_freewill().is_empty());
    for i in 4..7u64 {
        s.add(ChatMessage::user(format!("m{i}"), i as i64), MessageIdentifier::new(100 + i, 7), 0).unwrap();
    }
    let since = s.take_until_freewill();
    assert_eq!(since.iter().map(text).collect::<Vec<_>>(), vec!["m4", "m5", "m6"]);
}

#[test]
fn take_until_freewill_without_boundary_returns_all() {
    let s = store_of(3);
    assert_eq!(s.take_until_freewill().iter().map(text).collect::<Vec<_>>(), vec!["m0", "m1", "m2"]);
}

#[test]
fn time_since_last_is_measured_from_newest() {
    let s = store_of(3);
    assert_eq!(s.time_since_last_at(5002), 5000);
    assert_eq!(ConversationStore::new().time_since_last_at(77), 0);
}

#[test]
fn clear_empties_store() {
    let mut s = store_of(3);
    s.clear();
    assert!(s.is_empty());
}

type Plain = Vec<(u64, u64, bool, Vec<u64>, usize, Vec<(bool, String, i64, bool, i64)>)>;

fn to_plain(s: ConversationStore) -> Plain {
    s.into_turns()
        .into_iter()
        .map(|t| {
            let Turn { identifier, node } = t;
            let pages = identifier.messages();
            let (list, selected) = node.into_versions();
            let versions = list
                .into_iter()
                .map(|(m, at)| (m.role == MessageRole::User, m.content().unwrap(), m.sent_at, m.freewill, at))
                .collect();
            (identifier.message_id, identifier.channel_id, identifier.random, pages, selected, versions)
        })
        .collect()
}

fn from_plain(p: Plain) -> ConversationStore {
    let turns = p
        .into_iter()
        .map(|(m, c, r, pages, selected, versions)| {
            let list = versions
                .into_iter()
                .map(|(user, t, sent, fw, at)| {
                    let mut msg = if user { ChatMessage::user(t, sent) } else { ChatMessage::assistant(t, sent) };
                    msg.freewill = fw;
                    (msg, at)
                })
                .collect();
            let mut identifier = MessageIdentifier::with_pages(m, c, pages);
            identifier.random = r;
            Turn { identifier, node: branchmind::branch::BranchNode::from_versions(list, selected).unwrap() }
        })
        .collect();
    ConversationStore::from_turns(turns).unwrap()
}

#[test]
fn serialized_store_round_trips() {
    let mut s = store_of(4);
    s.push_version(&(101, 7, false), ChatMessage::assistant("alt".to_string(), 50), 51).unwrap();
    s.select_previous(&(101, 7, false)).unwrap();
    s.swap_identifiers(&(102, 7, false), MessageIdentifier::with_pages(300, 7, vec![299, 300])).unwrap();
    let plain = to_plain(s);
    let mut bytes: Vec<u8> = Vec::new();
    ciborium::into_writer(&plain, &mut bytes).unwrap();
    let back: Plain = ciborium::from_reader(bytes.as_slice()).unwrap();
    assert_eq!(back, plain);
    let restored = from_plain(back);
    assert_eq!(to_plain(restored), plain);
}

#[test]
fn restore_refuses_duplicate_identity() {
    let a = Turn {
        identifier: MessageIdentifier::new(1, 1),
        node: branchmind::branch::BranchNode::new(ChatMessage::user("a".to_string(), 0), 0),
    };
    let b = Turn {
        identifier: MessageIdentifier::with_pages(1, 1, vec![0, 1]),
        node: branchmind::branch::BranchNode::new(ChatMessage::user("b".to_string(), 0), 0),
    };
    assert_eq!(ConversationStore::from_turns(vec![a, b]).err(), Some(StoreError::AlreadyExists));
}

#[test]
fn newest_turn_regenerate_and_navigate() {
    let mut s = store_of(2);
    s.regenerate(ChatMessage::assistant("again".to_string(), 5), 5).unwrap();
    assert_eq!(texts(&s), vec!["m0", "again"]);
    let (m, more) = s.go_back().unwrap();
    assert_eq!(text(&m), "m1");
    assert!(!more);
    assert_eq!(texts(&s), vec!["m0", "m1"]);
    let (m, more) = s.go_fwd().unwrap();
    assert_eq!(text(&m), "again");
    assert!(!more);
    assert_eq!(s.latest().unwrap().len(), 2);
    let mut e = ConversationStore::new();
    assert_eq!(e.regenerate(ChatMessage::user("x".to_string(), 0), 0), Err(StoreError::NotFound));
    assert!(e.go_back().is_err());
}
