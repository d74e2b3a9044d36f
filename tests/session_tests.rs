use nyaa_browse::marker::{watermark_from_text, watermark_text};
use nyaa_browse::params::Params;
use nyaa_browse::results::{id_number, App, Response};
use nyaa_browse::session::{Action, Key, Mode, Session};
use nyaa_browse::text::{decimal_text, parse_unsigned_str, trim_str};

fn record(id: &str) -> Response {
    Response {
        id: id.to_string(),
        name: format!("name {}", id),
        magnet: format!("magnet:?xt={}", id),
        torrent: format!("https://example.org/{}.torrent", id),
        ..Default::default()
    }
}

fn records(ids: &[&str]) -> Vec<Response> {
    ids.iter().map(|i| record(i)).collect()
}

fn session_with(ids: &[&str]) -> Session {
    let mut app = App::new();
    app.update_items(records(ids));
    Session::new(app, Params::new())
}

#[test]
fn moves_down_stay_in_list() {
    let mut app = App::new();
    app.update_items(records(&["1", "2", "3", "4"]));
    for amount in [0usize, 1, 2, 5, usize::MAX, 3, 1] {
        app.next_by(amount);
        let i = app.current.unwrap();
        assert!(i < 4);
    }
    app.current = Some(1);
    app.next_by(1);
    assert_eq!(app.current, Some(2));
    app.next_by(usize::MAX);
    assert_eq!(app.current, Some(3));
}

#[test]
fn move_without_selection_starts_at_first_row() {
    let mut app = App::new();
    app.update_items(records(&["1", "2", "3"]));
    app.previous_by(2);
    assert_eq!(app.current, Some(0));
    app.current = None;
    app.next_by(2);
    assert_eq!(app.current, Some(0));
}

#[test]
fn moves_on_empty_list_do_nothing() {
    let mut app = App::new();
    app.next_by(3);
    app.previous_by(3);
    app.first_item();
    app.last_item();
    assert_eq!(app.current, None);
}

#[test]
fn move_up_stops_at_first_row() {
    let mut app = App::new();
    app.update_items(records(&["1", "2", "3", "4", "5"]));
    app.last_item();
    assert_eq!(app.current, Some(4));
    app.previous_by(3);
    assert_eq!(app.current, Some(1));
    app.previous_by(3);
    assert_eq!(app.current, Some(0));
    app.first_item();
    assert_eq!(app.current, Some(0));
}

#[test]
fn repeat_count_from_digits() {
    let mut s = session_with(&["1"]);
    s.accumulate_digit('1');
    s.accumulate_digit('2');
    assert_eq!(s.consume_repeat_count(u64::MAX), 12);
    assert_eq!(s.amount, "");
    assert_eq!(s.consume_repeat_count(u64::MAX), 1);
    assert_eq!(s.amount, "");
    s.accumulate_digit('x');
    assert_eq!(s.amount, "");
}

#[test]
fn repeat_count_too_large_is_one() {
    let mut s = session_with(&["1"]);
    for c in "70000".chars() {
        s.accumulate_digit(c);
    }
    assert_eq!(s.consume_repeat_count(u16::MAX as u64), 1);
    assert_eq!(s.amount, "");
}

#[test]
fn next_page_stops_at_last_page() {
    let mut p = Params::new();
    p.page = 998;
    p.next_page_by(5);
    assert_eq!(p.page, 1000);
    p.next_page_by(u16::MAX);
    assert_eq!(p.page, 1000);
    p.page = 1;
    p.next_page_by(1);
    assert_eq!(p.page, 2);
}

#[test]
fn prev_page_stops_at_zero() {
    let mut p = Params::new();
    p.page = 3;
    p.prev_page_by(5);
    assert_eq!(p.page, 0);
    p.page = 10;
    p.prev_page_by(4);
    assert_eq!(p.page, 6);
}

#[test]
fn new_params_and_set_query() {
    let mut p = Params::new();
    assert_eq!(p.page, 1);
    assert_eq!(p.query, "");
    p.set_query("abc".to_string());
    assert_eq!(p.query, "abc");
    assert_eq!(p.page, 1);
}

#[test]
fn viewed_follows_watermark() {
    let mut app = App::new();
    app.update_items(records(&["42", "41", "43", "oops"]));
    app.set_id(41);
    assert!(!app.is_viewed(0));
    assert!(app.is_viewed(1));
    assert!(app.is_viewed(3));
    app.set_id(42);
    assert!(app.is_viewed(0));
    assert!(app.is_viewed(1));
    assert!(!app.is_viewed(2));
}

#[test]
fn mark_viewed_sets_watermark_from_selection() {
    let mut s = session_with(&["40", "42", "43"]);
    s.handle_key(Key::Char('j'));
    s.handle_key(Key::Char('j'));
    assert_eq!(s.app.current, Some(1));
    assert!(!s.app.is_viewed(1));
    match s.handle_key(Key::Char('s')) {
        Action::Persist(id) => assert_eq!(id, 42),
        other => panic!("unexpected {:?}", other),
    }
    assert_eq!(s.app.last_id, 42);
    assert!(s.app.is_viewed(0));
    assert!(s.app.is_viewed(1));
    assert!(!s.app.is_viewed(2));
}

#[test]
fn mark_viewed_on_empty_list_does_nothing() {
    let mut s = session_with(&[]);
    assert!(matches!(s.handle_key(Key::Char('s')), Action::Continue));
    assert_eq!(s.app.last_id, 0);
}

#[test]
fn watermark_round_trip() {
    let text = watermark_text(1234);
    assert_eq!(text, "1234");
    assert_eq!(watermark_from_text(&text), 1234);
    assert_eq!(watermark_from_text("1234\n"), 1234);
    assert_eq!(watermark_text(0), "0");
    assert_eq!(watermark_from_text(&watermark_text(u64::MAX)), u64::MAX);
}

#[test]
fn corrupt_watermark_is_zero() {
    assert_eq!(watermark_from_text(""), 0);
    assert_eq!(watermark_from_text("abc"), 0);
    assert_eq!(watermark_from_text("12a"), 0);
    assert_eq!(watermark_from_text("18446744073709551616"), 0);
}

#[test]
fn shorter_list_moves_selection_to_last_row() {
    let mut app = App::new();
    app.update_items(records(&["1", "2", "3", "4", "5"]));
    app.last_item();
    assert_eq!(app.current, Some(4));
    app.update_items(records(&["1", "2"]));
    assert_eq!(app.current, Some(1));
    app.next_by(1);
    assert_eq!(app.current, Some(1));
    app.update_items(records(&[]));
    assert_eq!(app.current, None);
    app.update_items(records(&["7"]));
    assert_eq!(app.current, None);
}

#[test]
fn search_entry_fetches_once_with_query() {
    let mut s = session_with(&["1", "2", "3"]);
    s.params.page = 7;
    assert!(matches!(s.handle_key(Key::Char('/')), Action::Continue));
    assert_eq!(s.mode, Mode::Search);
    let mut fetches = 0;
    for key in [Key::Char('f'), Key::Char('o'), Key::Char('x'), Key::Backspace, Key::Char('o')] {
        match s.handle_key(key) {
            Action::Continue => {}
            other => panic!("unexpected {:?}", other),
        }
    }
    assert_eq!(s.query, "foo");
    match s.handle_key(Key::Enter) {
        Action::Fetch(p) => {
            fetches += 1;
            assert_eq!(p.page, 7);
            assert_eq!(p.query, "foo");
        }
        other => panic!("unexpected {:?}", other),
    }
    assert_eq!(fetches, 1);
    assert_eq!(s.mode, Mode::Browse);
    assert_eq!(s.params.query, "foo");
    s.receive_items(records(&["9"]));
    assert_eq!(s.app.items.len(), 1);
    assert_eq!(s.app.items[0].id, "9");
}

#[test]
fn search_keys_do_not_command() {
    let mut s = session_with(&["1", "2"]);
    s.handle_key(Key::Char('/'));
    assert!(matches!(s.handle_key(Key::Char('q')), Action::Continue));
    assert!(matches!(s.handle_key(Key::Char('j')), Action::Continue));
    assert!(matches!(s.handle_key(Key::Down), Action::Continue));
    s.handle_key(Key::Backspace);
    s.handle_key(Key::Backspace);
    s.handle_key(Key::Backspace);
    assert_eq!(s.query, "");
    assert_eq!(s.app.current, None);
}

#[test]
fn count_prefix_drives_moves_and_pages() {
    let mut s = session_with(&["1", "2", "3", "4", "5", "6"]);
    s.handle_key(Key::Char('3'));
    s.handle_key(Key::Down);
    assert_eq!(s.app.current, Some(0));
    s.handle_key(Key::Char('3'));
    s.handle_key(Key::Char('j'));
    assert_eq!(s.app.current, Some(3));
    s.handle_key(Key::Char('2'));
    s.handle_key(Key::Char('k'));
    assert_eq!(s.app.current, Some(1));
    s.handle_key(Key::Up);
    assert_eq!(s.app.current, Some(0));
    s.handle_key(Key::Char('5'));
    match s.handle_key(Key::Char('n')) {
        Action::Fetch(p) => assert_eq!(p.page, 6),
        other => panic!("unexpected {:?}", other),
    }
    assert_eq!(s.amount, "");
    match s.handle_key(Key::Char('p')) {
        Action::Fetch(p) => assert_eq!(p.page, 5),
        other => panic!("unexpected {:?}", other),
    }
    s.handle_key(Key::Char('G'));
    assert_eq!(s.app.current, Some(5));
    s.handle_key(Key::Char('g'));
    assert_eq!(s.app.current, Some(0));
}

#[test]
fn open_commands_give_addresses() {
    let mut s = session_with(&["100", "200"]);
    s.handle_key(Key::Char('j'));
    s.handle_key(Key::Char('j'));
    match s.handle_key(Key::Char('o')) {
        Action::Open(url) => assert_eq!(url, "https://nyaa.si/view/200"),
        other => panic!("unexpected {:?}", other),
    }
    match s.handle_key(Key::Char('m')) {
        Action::Open(url) => assert_eq!(url, "magnet:?xt=200"),
        other => panic!("unexpected {:?}", other),
    }
    match s.handle_key(Key::Char('t')) {
        Action::Open(url) => assert_eq!(url, "https://example.org/200.torrent"),
        other => panic!("unexpected {:?}", other),
    }
    let mut empty = session_with(&[]);
    assert!(matches!(empty.handle_key(Key::Char('o')), Action::Continue));
}

#[test]
fn reset_query_keeps_page() {
    let mut s = session_with(&["1"]);
    s.params.set_query("abc".to_string());
    s.params.page = 4;
    match s.handle_key(Key::Char('b')) {
        Action::Fetch(p) => {
            assert_eq!(p.page, 4);
            assert_eq!(p.query, "");
        }
        other => panic!("unexpected {:?}", other),
    }
}

#[test]
fn help_and_quit() {
    let mut s = session_with(&["1"]);
    s.handle_key(Key::Char('h'));
    assert_eq!(s.mode, Mode::Help);
    assert!(matches!(s.handle_key(Key::Char('q')), Action::Continue));
    assert_eq!(s.mode, Mode::Browse);
    assert!(matches!(s.handle_key(Key::Char('z')), Action::Continue));
    assert!(matches!(s.handle_key(Key::Enter), Action::Continue));
    assert!(matches!(s.handle_key(Key::Char('q')), Action::Quit));
}

#[test]
fn parse_follows_unsigned_rules() {
    assert_eq!(parse_unsigned_str("0", u64::MAX), Some(0));
    assert_eq!(parse_unsigned_str("+5", u64::MAX), Some(5));
    assert_eq!(parse_unsigned_str("+", u64::MAX), None);
    assert_eq!(parse_unsigned_str("", u64::MAX), None);
    assert_eq!(parse_unsigned_str("-5", u64::MAX), None);
    assert_eq!(parse_unsigned_str(" 5", u64::MAX), None);
    assert_eq!(parse_unsigned_str("65535", u16::MAX as u64), Some(65535));
    assert_eq!(parse_unsigned_str("65536", u16::MAX as u64), None);
    assert_eq!(parse_unsigned_str("18446744073709551615", u64::MAX), Some(u64::MAX));
}

#[test]
fn trim_and_decimal() {
    assert_eq!(trim_str("  7\t\n"), "7");
    assert_eq!(trim_str("\u{3000}a b\u{a0}"), "a b");
    assert_eq!(trim_str("   "), "");
    assert_eq!(decimal_text(1234), "1234");
    assert_eq!(decimal_text(9), "9");
    assert_eq!(decimal_text(10), "10");
}

#[test]
fn identifiers_read_as_numbers() {
    assert_eq!(id_number("42"), 42);
    assert_eq!(id_number("+42"), 42);
    assert_eq!(id_number("4 2"), 0);
    assert_eq!(id_number(""), 0);
}
