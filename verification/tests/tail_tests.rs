use logscraper::filters::{Filter, SearchFilter};
use logscraper::tail::TailSession;

#[test]
fn test_live_tail_success() {
    let path = "test.log".to_string();
    let mut session = TailSession::start(&vec![(path.clone(), 0)]);
    let out = session.on_change(&path, &b"new test log\n".to_vec(), &Vec::new());
    assert_eq!(out, vec!["new test log".to_string()]);
}

#[test]
fn unterminated_write_emits_nothing_until_the_break_arrives() {
    let path = "test.log".to_string();
    let mut session = TailSession::start(&vec![(path.clone(), 0)]);

    let early = session.on_change(&path, &b"new test log".to_vec(), &Vec::new());
    assert!(early.is_empty());

    let done = session.on_change(&path, &b"\n".to_vec(), &Vec::new());
    assert_eq!(done, vec!["new test log".to_string()]);
}

#[test]
fn fragment_completes_across_partial_writes() {
    let path = "a.log".to_string();
    let mut session = TailSession::start(&vec![(path.clone(), 7)]);
    assert!(session.on_change(&path, &b"new te".to_vec(), &Vec::new()).is_empty());
    let out = session.on_change(&path, &b"st log\nnext".to_vec(), &Vec::new());
    assert_eq!(out, vec!["new test log".to_string()]);
    assert_eq!(session.cursors[0].pending, b"next".to_vec());
    assert_eq!(session.cursors[0].position, 7 + 13);
}

#[test]
fn tail_applies_the_filter_chain() {
    let path = "a.log".to_string();
    let mut session = TailSession::start(&vec![(path.clone(), 0)]);
    let filters = vec![Filter::Search(SearchFilter { substr: "test".to_string() })];
    let out = session.on_change(&path, &b"a test line\na wrong line\ntest again\n".to_vec(), &filters);
    assert_eq!(out, vec!["a test line".to_string(), "test again".to_string()]);
}

#[test]
fn change_on_unknown_path_yields_nothing() {
    let watched = "a.log".to_string();
    let other = "b.log".to_string();
    let mut session = TailSession::start(&vec![(watched, 0)]);
    let out = session.on_change(&other, &b"line\n".to_vec(), &Vec::new());
    assert!(out.is_empty());
    assert_eq!(session.cursor_count(), 1);
}

#[test]
fn failed_cursor_is_excluded_until_restart() {
    let path = "a.log".to_string();
    let mut session = TailSession::start(&vec![(path.clone(), 0)]);
    session.mark_failed(&path);
    let out = session.on_change(&path, &b"line\n".to_vec(), &Vec::new());
    assert!(out.is_empty());

    let restarted = TailSession::start(&vec![(path.clone(), 0)]);
    assert!(!restarted.cursors[0].failed);
}

#[test]
fn restart_after_cancel_behaves_like_a_first_start() {
    let inputs = vec![("a.log".to_string(), 17), ("b.log".to_string(), 0)];

    let mut first = TailSession::start(&inputs);
    let first_out = first.on_change(&"b.log".to_string(), &b"x test\n".to_vec(), &Vec::new());
    first.cancel();

    let mut second = TailSession::start(&inputs);
    assert_eq!(second.cursor_count(), 2);
    for (i, (path, size)) in inputs.iter().enumerate() {
        assert_eq!(&second.cursors[i].path, path);
        assert_eq!(second.cursors[i].position, *size);
        assert!(second.cursors[i].pending.is_empty());
        assert!(!second.cursors[i].failed);
    }
    let second_out = second.on_change(&"b.log".to_string(), &b"x test\n".to_vec(), &Vec::new());
    assert_eq!(first_out, second_out);
    second.cancel();
}

#[test]
fn position_advances_only_past_terminators() {
    let path = "a.log".to_string();
    let mut session = TailSession::start(&vec![(path.clone(), 100)]);
    session.on_change(&path, &b"ab\ncd".to_vec(), &Vec::new());
    assert_eq!(session.cursors[0].position, 103);
    assert_eq!(session.cursors[0].pending, b"cd".to_vec());
}

#[test]
fn empty_line_is_a_complete_line() {
    let path = "a.log".to_string();
    let mut session = TailSession::start(&vec![(path.clone(), 0)]);
    let out = session.on_change(&path, &b"\n\n".to_vec(), &Vec::new());
    assert_eq!(out, vec!["".to_string(), "".to_string()]);
}
