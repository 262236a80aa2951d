use textmanip::cli::Request;
use textmanip::session::{Action, Event, IoErrorKind, RunError, Session, Shown};

fn names(n: usize) -> Vec<String> {
    (0..n).map(|i| format!("f{}.txt", i)).collect()
}

fn replace_request(n: usize, pattern: &str, replacement: &str, ignore_case: bool) -> Request {
    Request::Replace {
        files: names(n),
        pattern: pattern.to_string(),
        replacement: replacement.to_string(),
        ignore_case,
    }
}

fn expect_read(s: &Session, i: usize) {
    match s.action() {
        Action::Read(j) => assert_eq!(j, i),
        other => panic!("expected read of {}, got {:?}", i, other),
    }
}

fn expect_show(s: &Session, i: usize, kind: Shown, text: &str) {
    match s.action() {
        Action::Show(j, k, t) => {
            assert_eq!(j, i);
            assert_eq!(k, kind);
            assert_eq!(t, text);
        }
        other => panic!("expected show, got {:?}", other),
    }
}

fn expect_write(s: &Session, i: usize, text: &str) {
    match s.action() {
        Action::Write(j, t) => {
            assert_eq!(j, i);
            assert_eq!(t, text);
        }
        other => panic!("expected write, got {:?}", other),
    }
}

#[test]
fn replace_runs_each_file_in_turn() {
    let mut s = Session::new(&replace_request(2, "cat", "dog", false));
    for (i, before, after) in [(0, "a cat", "a dog"), (1, "no match", "no match")] {
        expect_read(&s, i);
        s.advance(Event::Loaded(before.to_string()));
        expect_show(&s, i, Shown::Before, before);
        s.advance(Event::Done);
        expect_write(&s, i, after);
        s.advance(Event::Done);
        expect_read(&s, i);
        s.advance(Event::Loaded(after.to_string()));
        expect_show(&s, i, Shown::After, after);
        s.advance(Event::Done);
    }
    assert!(s.is_over());
    assert!(matches!(s.action(), Action::Finish));
}

#[test]
fn replace_keeps_multibyte_text() {
    let mut s = Session::new(&replace_request(1, "ü", "ue", false));
    s.advance(Event::Loaded("Grüße, Über".to_string()));
    s.advance(Event::Done);
    expect_write(&s, 0, "Grueße, Über");
}

#[test]
fn find_shows_content_with_matches_removed() {
    let req = Request::Find { files: names(1), pattern: "o".to_string() };
    let mut s = Session::new(&req);
    expect_read(&s, 0);
    s.advance(Event::Loaded("foo bOo".to_string()));
    expect_show(&s, 0, Shown::Found, "f bO");
    s.advance(Event::Done);
    assert!(matches!(s.action(), Action::Finish));
}

#[test]
fn read_failure_on_second_file_stops_batch() {
    let mut s = Session::new(&replace_request(3, "a", "b", false));
    s.advance(Event::Loaded("a".to_string()));
    s.advance(Event::Done);
    expect_write(&s, 0, "b");
    s.advance(Event::Done);
    s.advance(Event::Loaded("b".to_string()));
    s.advance(Event::Done);
    expect_read(&s, 1);
    s.advance(Event::Failed(IoErrorKind::NotFound));
    assert!(s.is_over());
    for _ in 0..3 {
        match s.action() {
            Action::Abort(RunError::Io { file, kind }) => {
                assert_eq!(file, 1);
                assert_eq!(kind, IoErrorKind::NotFound);
            }
            other => panic!("unexpected {:?}", other),
        }
        s.advance(Event::Loaded("a".to_string()));
        s.advance(Event::Done);
    }
}

#[test]
fn invalid_pattern_aborts_before_any_write() {
    let mut s = Session::new(&replace_request(2, "(", "x", false));
    expect_read(&s, 0);
    s.advance(Event::Loaded("text (".to_string()));
    match s.action() {
        Action::Abort(RunError::Pattern(e)) => assert_eq!(e.pattern, "("),
        other => panic!("unexpected {:?}", other),
    }
}

#[test]
fn empty_batch_finishes_at_once() {
    let s = Session::new(&replace_request(0, "a", "b", false));
    assert!(matches!(s.action(), Action::Finish));
}

#[test]
fn out_of_turn_event_is_ignored() {
    let mut s = Session::new(&replace_request(1, "a", "b", false));
    s.advance(Event::Done);
    expect_read(&s, 0);
}

#[test]
fn write_failure_stops_batch() {
    let mut s = Session::new(&replace_request(2, "a", "b", true));
    s.advance(Event::Loaded("A".to_string()));
    s.advance(Event::Done);
    expect_write(&s, 0, "b");
    s.advance(Event::Failed(IoErrorKind::PermissionDenied));
    match s.action() {
        Action::Abort(RunError::Io { file, kind }) => {
            assert_eq!(file, 0);
            assert_eq!(kind, IoErrorKind::PermissionDenied);
        }
        other => panic!("unexpected {:?}", other),
    }
}
