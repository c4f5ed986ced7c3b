use notes::command::{flag, parse_command, parse_u32, Command};
use notes::note::{Note, StoreError, COMPLETION_MARKER};
use notes::path::resolve_path;
use notes::render::{decimal_string, render_line, render_listing, render_summary, shorten};
use notes::session::{exit_code, run, Report};
use notes::store::{trim_line_end, NoteStore};

fn args(items: &[&str]) -> Vec<String> {
    items.iter().map(|s| s.to_string()).collect()
}

fn note(id: u32, text: &str, done: Option<u32>) -> Note {
    Note { id, text: text.to_string(), done }
}

#[test]
fn round_trip_buy_milk() {
    let mut store = NoteStore::new();
    let id = store.insert("buy milk").unwrap();
    let n = store.get(id).unwrap();
    assert_eq!(n.text, "buy milk");
    assert_eq!(n.done, None);
}

#[test]
fn insert_strips_line_terminator() {
    let mut store = NoteStore::new();
    let a = store.insert("buy milk\n").unwrap();
    let b = store.insert("call mom\r\n").unwrap();
    assert_eq!(store.get(a).unwrap().text, "buy milk");
    assert_eq!(store.get(b).unwrap().text, "call mom");
    assert_eq!(trim_line_end("a\n\n"), "a\n");
    assert_eq!(trim_line_end("plain"), "plain");
    assert_eq!(trim_line_end(""), "");
}

#[test]
fn ids_are_distinct_increasing_and_never_reused() {
    let mut store = NoteStore::new();
    let mut ids = Vec::new();
    for i in 0..5 {
        ids.push(store.insert(&format!("note {}", i)).unwrap());
    }
    assert_eq!(ids, vec![1, 2, 3, 4, 5]);
    store.delete(5);
    assert!(!store.has_note(5));
    let next = store.insert("again").unwrap();
    assert_eq!(next, 6);
    let listed: Vec<u32> = store.list_all().iter().map(|n| n.id).collect();
    assert_eq!(listed, vec![1, 2, 3, 4, 6]);
}

#[test]
fn truncation_at_display_width() {
    let long = "x".repeat(60);
    let shown = shorten(&long);
    assert_eq!(shown.chars().count(), 50);
    assert!(shown.ends_with("..."));
    assert_eq!(shown, format!("{}...", "x".repeat(47)));
    let short = "y".repeat(49);
    assert_eq!(shorten(&short), short);
    let exact = "z".repeat(50);
    assert_eq!(shorten(&exact), format!("{}...", "z".repeat(47)));
    let line = render_line(&note(7, &long, None));
    assert_eq!(line, format!("7 {}...", "x".repeat(47)));
}

#[test]
fn truncation_counts_characters() {
    let text = "é".repeat(55);
    assert_eq!(shorten(&text), format!("{}...", "é".repeat(47)));
}

#[test]
fn strikethrough_only_when_done() {
    assert_eq!(render_line(&note(3, "done", Some(COMPLETION_MARKER))), "\x1b[9m3 done\x1b[0m ");
    assert_eq!(render_line(&note(3, "open", None)), "3 open");
    assert_eq!(render_line(&note(3, "other", Some(2))), "3 other");
    assert!(note(3, "a", Some(1)).is_done());
    assert!(!note(3, "a", Some(0)).is_done());
}

#[test]
fn decimal_writing() {
    assert_eq!(decimal_string(0), "0");
    assert_eq!(decimal_string(42), "42");
    assert_eq!(decimal_string(4294967295), "4294967295");
}

#[test]
fn summary_only_for_empty_store() {
    assert_eq!(
        render_summary(0),
        vec!["No notes where found.".to_string(), "Try with the -h option for more information.".to_string()]
    );
    assert!(render_summary(3).is_empty());
    let lines = render_listing(&vec![note(1, "a", None), note(2, "b", Some(1))], 2);
    assert_eq!(lines, vec!["1 a".to_string(), "\x1b[9m2 b\x1b[0m ".to_string()]);
}

#[test]
fn not_found_does_not_mutate() {
    let mut store = NoteStore::new();
    store.insert("keep").unwrap();
    for cmd in [Command::Delete(9), Command::Mark(9), Command::View(9)] {
        let r = run(&mut store, cmd, "");
        assert!(matches!(r, Report::NotFound(9)));
        assert_eq!(exit_code(&r), 1);
        let all = store.list_all();
        assert_eq!(all.len(), 1);
        assert_eq!(all[0].id, 1);
        assert_eq!(all[0].text, "keep");
        assert_eq!(all[0].done, None);
    }
}

#[test]
fn end_to_end_scenario() {
    let mut store = NoteStore::new();
    let r = run(&mut store, Command::List, "");
    match &r {
        Report::Listing(lines) => assert_eq!(lines, &render_summary(0)),
        _ => panic!("expected a listing"),
    }
    assert_eq!(exit_code(&r), 0);

    let r = run(&mut store, Command::Add, "test note\n");
    match &r {
        Report::Added(n) => {
            assert_eq!(n.id, 1);
            assert_eq!(n.text, "test note");
        }
        _ => panic!("expected an added note"),
    }
    assert_eq!(store.count(), 1);
    assert!(store.has_note(1));

    let r = run(&mut store, Command::Mark(1), "");
    assert!(matches!(r, Report::Marked(1)));
    match run(&mut store, Command::View(1), "") {
        Report::Viewed(t) => assert_eq!(t, "test note"),
        _ => panic!("expected the text"),
    }
    match run(&mut store, Command::List, "") {
        Report::Listing(lines) => assert_eq!(lines, vec!["\x1b[9m1 test note\x1b[0m ".to_string()]),
        _ => panic!("expected a listing"),
    }

    let r = run(&mut store, Command::Delete(1), "");
    assert!(matches!(r, Report::Deleted(1)));
    assert_eq!(exit_code(&r), 0);
    assert_eq!(store.count(), 0);
    let r = run(&mut store, Command::Delete(1), "");
    assert!(matches!(r, Report::NotFound(1)));
    assert_eq!(exit_code(&r), 1);
}

#[test]
fn full_store_refuses_insert() {
    let mut store = NoteStore::from_rows(vec![note(4294967295, "last", None)], 1, 4294967296).unwrap();
    assert_eq!(store.insert("more"), Err(StoreError::Write));
    let r = run(&mut store, Command::Add, "more");
    assert!(matches!(r, Report::Failed(StoreError::Write)));
    assert_eq!(exit_code(&r), 1);
    assert_eq!(store.count(), 1);
}

#[test]
fn from_rows_checks_identifiers() {
    assert!(NoteStore::from_rows(vec![note(1, "a", None), note(3, "b", None)], 2, 4).is_some());
    assert!(NoteStore::from_rows(vec![note(3, "a", None), note(1, "b", None)], 2, 4).is_none());
    assert!(NoteStore::from_rows(vec![note(2, "a", None), note(2, "b", None)], 2, 4).is_none());
    assert!(NoteStore::from_rows(vec![note(4, "a", None)], 1, 4).is_none());
    assert!(NoteStore::from_rows(vec![note(0, "a", None)], 1, 4).is_none());
    assert!(NoteStore::from_rows(vec![], 0, 0).is_none());
    let mut s = NoteStore::from_rows(vec![note(2, "a", None)], 1, 9).unwrap();
    assert_eq!(s.insert("b"), Ok(9));
}

#[test]
fn mark_sets_completion_marker() {
    let mut store = NoteStore::new();
    store.insert("a").unwrap();
    store.insert("b").unwrap();
    store.set_done(2);
    assert_eq!(store.get(2).unwrap().done, Some(COMPLETION_MARKER));
    assert_eq!(store.get(1).unwrap().done, None);
    store.set_done(7);
    assert_eq!(store.count(), 2);
}

#[test]
fn parses_commands() {
    assert_eq!(parse_command(&args(&["notes"])), Command::List);
    assert_eq!(parse_command(&args(&["notes", "-a"])), Command::Add);
    assert_eq!(parse_command(&args(&["notes", "a"])), Command::Add);
    assert_eq!(parse_command(&args(&["notes", "-L"])), Command::List);
    assert_eq!(parse_command(&args(&["notes", "--h"])), Command::Help);
    assert_eq!(parse_command(&args(&["notes", "-x"])), Command::Invalid);
    assert_eq!(parse_command(&args(&["notes", "-ab"])), Command::Invalid);
    assert_eq!(parse_command(&args(&["notes", "-d", "3"])), Command::Delete(3));
    assert_eq!(parse_command(&args(&["notes", "m", "+12"])), Command::Mark(12));
    assert_eq!(parse_command(&args(&["notes", "-v", "1"])), Command::View(1));
    assert_eq!(parse_command(&args(&["notes", "-d", "0"])), Command::Invalid);
    assert_eq!(parse_command(&args(&["notes", "-d", "-3"])), Command::Invalid);
    assert_eq!(parse_command(&args(&["notes", "-d", "abc"])), Command::Invalid);
    assert_eq!(parse_command(&args(&["notes", "-a", "1"])), Command::Invalid);
    assert_eq!(parse_command(&args(&["notes", "-d", "1", "2"])), Command::Invalid);
    assert_eq!(parse_command(&args(&[])), Command::Invalid);
}

#[test]
fn parses_identifiers_like_std() {
    for s in ["0", "7", "+7", "4294967295", "4294967296", "", "+", "-1", "1a", "007", "99999999999"] {
        assert_eq!(parse_u32(s), s.parse::<u32>().ok(), "input {:?}", s);
    }
    assert_eq!(flag("--d"), Some('d'));
    assert_eq!(flag("---"), None);
}

#[test]
fn exit_codes() {
    assert_eq!(exit_code(&Report::Help), 0);
    assert_eq!(exit_code(&Report::Misuse), 1);
    assert_eq!(exit_code(&Report::Failed(StoreError::Connection)), 1);
    assert_eq!(exit_code(&Report::Marked(1)), 0);
    let mut store = NoteStore::new();
    assert!(matches!(run(&mut store, Command::Help, ""), Report::Help));
    assert!(matches!(run(&mut store, Command::Invalid, ""), Report::Misuse));
}

#[test]
fn store_path_from_environment_values() {
    assert_eq!(resolve_path(Some("/home/u".to_string()), None, "/"), "/home/u/.config/notes.db");
    assert_eq!(
        resolve_path(Some("/home/u".to_string()), Some("data".to_string()), "/"),
        "/home/u/data/notes.db"
    );
    assert_eq!(resolve_path(None, None, "/"), "/.config/notes.db");
}

#[test]
fn unreadable_rows_count_but_are_not_listed() {
    let mut store = NoteStore::from_rows(vec![], 2, 5).unwrap();
    assert_eq!(store.count(), 2);
    match run(&mut store, Command::List, "") {
        Report::Listing(lines) => assert!(lines.is_empty()),
        _ => panic!("expected a listing"),
    }
    assert!(render_listing(&vec![], 0).len() == 2);
    assert_eq!(render_listing(&vec![note(1, "a", None)], 3), vec!["1 a".to_string()]);
    assert_eq!(store.insert("next"), Ok(5));
    assert_eq!(store.count(), 3);
    assert!(NoteStore::from_rows(vec![note(1, "a", None)], 0, 2).is_none());
}
