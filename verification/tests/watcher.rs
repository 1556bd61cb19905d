use clipboard_watcher::cursor::cursor_position_of_query;
use clipboard_watcher::cursor::CursorPosition;
use clipboard_watcher::history::ClipboardHistory;
use clipboard_watcher::history::PreviousClipboard;
use clipboard_watcher::state::SharedClipboardState;

#[test]
fn history_scenario_poll_poll_change() {
    // clipboard "a" -> poll -> ["a"]; "a" again -> poll -> still ["a"];
    // "b" -> poll -> ["a", "b"].
    let mut h = ClipboardHistory::new();
    let appended = h.observe(String::from("a"));
    assert!(appended);
    assert_eq!(h.get_previous_content(), vec!["a".to_string()]);
    let appended = h.observe(String::from("a"));
    assert!(!appended);
    assert_eq!(h.get_previous_content(), vec!["a".to_string()]);
    let appended = h.observe(String::from("b"));
    assert!(appended);
    assert_eq!(h.get_previous_content(), vec!["a".to_string(), "b".to_string()]);
}

#[test]
fn history_no_adjacent_dups_and_order() {
    let mut h = ClipboardHistory::new();
    let reads = ["a", "a", "b", "b", "b", "a", "c", "c"];
    for r in reads {
        h.observe(String::from(r));
    }
    let stored = h.get_previous_content();
    assert_eq!(stored, vec!["a", "b", "a", "c"]);
    for w in stored.windows(2) {
        assert_ne!(w[0], w[1]);
    }
}

#[test]
fn empty_history_always_appends() {
    // The first observed value is appended even when it is the empty string.
    let mut h = ClipboardHistory::new();
    let appended = h.observe(String::new());
    assert!(appended);
    assert_eq!(h.get_previous_content(), vec![String::new()]);

    let mut h2 = ClipboardHistory::new();
    let appended = h2.observe(String::from("first"));
    assert!(appended);
    assert_eq!(h2.get_previous_content(), vec!["first".to_string()]);
}

#[test]
fn poll_swallows_failed_reads() {
    let mut h = ClipboardHistory::new();
    let appended = h.poll(Some(String::from("a")));
    assert!(appended);
    let appended = h.poll(None);
    assert!(!appended);
    assert_eq!(h.get_previous_content(), vec!["a".to_string()]);
    let appended = h.poll(Some(String::from("b")));
    assert!(appended);
    assert_eq!(h.get_previous_content(), vec!["a".to_string(), "b".to_string()]);
}

#[test]
fn singleton_settles_on_repeated_value() {
    // v1, then v2 != v1, then v3 == v2: the store holds v2 and the third
    // poll does not overwrite again.
    let mut p = PreviousClipboard::new();
    assert_eq!(p.get_current(), String::new());
    let overwritten = p.observe(String::from("x"));
    assert!(overwritten);
    let overwritten = p.observe(String::from("y"));
    assert!(overwritten);
    let overwritten = p.observe(String::from("y"));
    assert!(!overwritten);
    assert_eq!(p.get_current(), "y".to_string());
}

#[test]
fn shared_state_polls_through_the_lock() {
    let state = SharedClipboardState::new();
    assert_eq!(state.get_previous_content(), Vec::<String>::new());
    assert!(state.poll(Some(String::from("a"))));
    assert!(!state.poll(Some(String::from("a"))));
    assert!(!state.poll(None));
    assert!(state.poll(Some(String::from("b"))));
    let snapshot = state.get_previous_content();
    assert_eq!(snapshot, vec!["a".to_string(), "b".to_string()]);
    for w in snapshot.windows(2) {
        assert_ne!(w[0], w[1]);
    }
}

#[test]
fn cursor_position_success_is_reported_verbatim() {
    let r = cursor_position_of_query(Some((3, -7)));
    assert_eq!(r, CursorPosition { x: 3, y: -7 });
}

#[test]
fn cursor_position_failure_is_the_origin() {
    // A simulated query failure yields exactly {0, 0}.
    let r = cursor_position_of_query(None);
    assert_eq!(r, CursorPosition { x: 0, y: 0 });
}
