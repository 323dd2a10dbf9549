use ikoro::llm::Message;
use ikoro::session::{Session, SessionStore, MAX_SUMMARY_LENGTH, SESSION_COMPRESS_THRESHOLD};

fn session_with(key: &str, n: usize, updated_at: i64) -> Session {
    let mut s = Session::new(key, updated_at);
    for i in 0..n {
        s.messages.push(Message::user(&format!("m{}", i)));
    }
    s
}

#[test]
fn test_session_filename_uniqueness() {
    let a = SessionStore::session_filename("slack:user1");
    let b = SessionStore::session_filename("slack_user1");
    assert_ne!(a, b, "different keys must produce different filenames");
}

#[test]
fn test_session_filename_deterministic() {
    let a = SessionStore::session_filename("test:key");
    let b = SessionStore::session_filename("test:key");
    assert_eq!(a, b);
}

#[test]
fn filename_is_sixteen_hex_digits() {
    for key in ["", "cli:alice", "slack:U123/../x", "k\u{e9}y"] {
        let name = SessionStore::session_filename(key);
        assert_eq!(name.len(), 16);
        assert!(name.chars().all(|c| c.is_ascii_digit() || ('a'..='f').contains(&c)));
    }
}

#[test]
fn save_plan_names_the_record_and_its_temporary_file() {
    let store = SessionStore::new("/mem".to_string(), vec![]);
    let name = SessionStore::session_filename("cli:alice");
    let plan = store.save_to_disk("cli:alice", 4242);
    assert_eq!(plan.path, format!("/mem/sessions/{}.json", name));
    assert_eq!(plan.tmp, format!("/mem/sessions/{}.4242.json.tmp", name));
}

#[test]
fn new_key_gets_an_empty_conversation() {
    let mut store = SessionStore::new("/mem".to_string(), vec![]);
    let s = store.get_or_create("slack:U123", 7).expect("free");
    assert_eq!(s.key, "slack:U123");
    assert!(s.messages.is_empty());
    assert_eq!(s.summary, None);
    assert_eq!(s.updated_at, 7);
}

#[test]
fn held_conversation_is_exclusive_until_released() {
    let mut store = SessionStore::new("/mem".to_string(), vec![]);
    let mut s = store.get_or_create("a", 1).expect("free");
    assert!(store.get_or_create("a", 2).is_none());
    assert!(store.get_or_create("a", 3).is_none());
    s.push_user("hello", 4);
    store.release(s);
    let s = store.get_or_create("a", 5).expect("free again");
    assert_eq!(s.messages.len(), 1);
    assert_eq!(s.updated_at, 4);
}

#[test]
fn keys_do_not_see_each_other() {
    let mut store = SessionStore::new("/mem".to_string(), vec![]);
    let mut a = store.get_or_create("a", 1).unwrap();
    let mut b = store.get_or_create("b", 1).unwrap();
    a.push_user("for a", 2);
    b.push_user("for b", 3);
    store.release(b);
    store.release(a);
    let a = store.get_or_create("a", 9).unwrap();
    let b = store.get_or_create("b", 9).unwrap();
    assert_eq!(a.messages.len(), 1);
    assert_eq!(a.messages[0].content.as_deref(), Some("for a"));
    assert_eq!(b.messages.len(), 1);
    assert_eq!(b.messages[0].content.as_deref(), Some("for b"));
}

#[test]
fn two_turns_on_one_key_are_both_kept() {
    let mut store = SessionStore::new("/mem".to_string(), vec![]);
    let mut s = store.get_or_create("k", 1).unwrap();
    s.push_user("A", 1);
    s.extend(vec![Message::assistant("a")], 2);
    store.release(s);
    let mut s = store.get_or_create("k", 3).unwrap();
    s.push_user("B", 3);
    s.extend(vec![Message::assistant("b")], 4);
    store.release(s);
    let s = store.get_or_create("k", 5).unwrap();
    let texts: Vec<&str> = s.messages.iter().map(|m| m.content.as_deref().unwrap()).collect();
    assert_eq!(texts, vec!["A", "a", "B", "b"]);
}

#[test]
fn loading_keeps_the_later_record_of_a_key() {
    let records = vec![
        session_with("a", 1, 10),
        session_with("b", 2, 5),
        session_with("a", 3, 20),
        session_with("a", 4, 15),
        session_with("b", 5, 5),
    ];
    let mut store = SessionStore::new("/mem".to_string(), records);
    let a = store.get_or_create("a", 99).unwrap();
    assert_eq!(a.updated_at, 20);
    assert_eq!(a.messages.len(), 3);
    let b = store.get_or_create("b", 99).unwrap();
    assert_eq!(b.updated_at, 5);
    assert_eq!(b.messages.len(), 2);
    let c = store.get_or_create("c", 99).unwrap();
    assert!(c.messages.is_empty());
}

#[test]
fn loaded_record_comes_back_as_it_was_saved() {
    let mut saved = session_with("cli:alice", 3, 10);
    saved.summary = Some("Earlier: caf\u{e9}.\n\nMore.".to_string());
    saved.messages.push(Message::tool_result("t1", "line\n\u{1f600}"));
    let copy = saved.clone();
    let mut store = SessionStore::new("/mem".to_string(), vec![saved]);
    let loaded = store.get_or_create("cli:alice", 99).unwrap();
    assert_eq!(loaded.summary, copy.summary);
    assert_eq!(loaded.messages.len(), copy.messages.len());
    for (a, b) in loaded.messages.iter().zip(copy.messages.iter()) {
        assert_eq!(a.role, b.role);
        assert_eq!(a.content, b.content);
        assert_eq!(a.tool_call_id, b.tool_call_id);
    }
}

#[test]
fn short_conversation_is_not_compressed() {
    let mut s = session_with("k", 19, 1);
    assert!(!s.needs_compression(SESSION_COMPRESS_THRESHOLD));
    assert!(s.compression_request(SESSION_COMPRESS_THRESHOLD).is_none());
    s.compress(SESSION_COMPRESS_THRESHOLD, "summary");
    assert_eq!(s.messages.len(), 19);
    assert_eq!(s.summary, None);
}

#[test]
fn compression_keeps_the_newer_half() {
    let mut s = session_with("k", 20, 1);
    assert!(s.needs_compression(SESSION_COMPRESS_THRESHOLD));
    s.compress(SESSION_COMPRESS_THRESHOLD, "first");
    assert_eq!(s.messages.len(), 10);
    assert_eq!(s.messages[0].content.as_deref(), Some("m10"));
    assert_eq!(s.summary.as_deref(), Some("first"));

    let mut s = session_with("k", 21, 1);
    s.compress(20, "first");
    assert_eq!(s.messages.len(), 11);
    assert_eq!(s.messages[0].content.as_deref(), Some("m10"));

    // Running it again on what is now short changes nothing.
    s.compress(20, "second");
    assert_eq!(s.messages.len(), 11);
    assert_eq!(s.summary.as_deref(), Some("first"));
}

#[test]
fn summaries_are_merged_up_to_the_cap() {
    let mut s = session_with("k", 4, 1);
    s.summary = Some("old".to_string());
    s.compress(4, "new");
    assert_eq!(s.summary.as_deref(), Some("old\n\nnew"));
    assert_eq!(s.messages.len(), 2);

    let mut s = session_with("k", 4, 1);
    s.summary = Some("x".repeat(MAX_SUMMARY_LENGTH - 5));
    s.compress(4, "new");
    assert_eq!(s.summary.as_ref().unwrap().len(), MAX_SUMMARY_LENGTH);

    let mut s = session_with("k", 4, 1);
    s.summary = Some("x".repeat(MAX_SUMMARY_LENGTH - 4));
    s.compress(4, "new");
    assert_eq!(s.summary.as_deref(), Some("new"));
}

#[test]
fn summary_request_quotes_the_older_half() {
    let mut s = Session::new("k", 1);
    s.messages.push(Message::user("hi"));
    s.messages.push(Message::assistant_with_tool_calls(None, vec![]));
    s.messages.push(Message::tool_result("t", "out"));
    s.messages.push(Message::assistant("bye"));
    s.messages.push(Message::user("again"));
    let request = s.compression_request(5).expect("at the threshold");
    assert_eq!(request.len(), 2);
    assert_eq!(request[1].role, "user");
    assert_eq!(request[1].content.as_deref(), Some("user: hi\nassistant: [tool call]\n"));
}
