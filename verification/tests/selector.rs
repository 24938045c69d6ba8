use oxidizer_firewall::selector::KeyFeed;
use oxidizer_firewall::selector::{CountrySelector, AVAILABLE_COUNTRIES};

#[test]
fn default_selection_is_everything() {
    let s = CountrySelector::new();
    assert_eq!(s.chosen(), vec!["CN", "RU", "KP", "IR", "CU", "BY"]);
    assert_eq!(AVAILABLE_COUNTRIES.len(), 6);
}

#[test]
fn toggling_and_moving() {
    let mut s = CountrySelector::new();
    assert!(!s.handle_key(b' ', None));
    assert!(!s.handle_key(27, Some((b'[', b'B'))));
    assert!(!s.handle_key(27, Some((b'[', b'B'))));
    assert!(!s.handle_key(b' ', None));
    assert!(!s.handle_key(27, Some((b'[', b'A'))));
    assert!(!s.handle_key(b'x', None));
    assert!(s.handle_key(b'\r', None));
    assert_eq!(s.chosen(), vec!["RU", "IR", "CU", "BY"]);
}

#[test]
fn cursor_stays_in_menu() {
    let mut s = CountrySelector::new();
    s.handle_key(27, Some((b'[', b'A')));
    s.handle_key(b' ', None);
    assert_eq!(s.chosen(), vec!["RU", "KP", "IR", "CU", "BY"]);
    for _ in 0..10 {
        s.handle_key(27, Some((b'[', b'B')));
    }
    s.handle_key(b' ', None);
    assert_eq!(s.chosen(), vec!["RU", "KP", "IR", "CU"]);
    s.handle_key(27, None);
    s.handle_key(b' ', None);
    assert_eq!(s.chosen(), vec!["RU", "KP", "IR", "CU", "BY"]);
    assert!(s.handle_key(b'\n', None));
}

#[test]
fn render_rows() {
    let mut s = CountrySelector::new();
    let first = s.render();
    assert!(first.starts_with("\r\x1b[K\x1b[36;1m > [x] CN - China\x1b[0m\n\r\x1b[K   [x] RU - Russia\n"));
    assert!(first.ends_with("\r\x1b[K   [x] BY - Belarus\n"));
    s.handle_key(b' ', None);
    let second = s.render();
    assert!(second.starts_with("\x1b[6A\r\x1b[K\x1b[36;1m > [ ] CN - China\x1b[0m\n"));
    assert_eq!(second.matches('\n').count(), 6);
}

#[test]
fn space_twice_restores() {
    let mut s = CountrySelector::new();
    s.handle_key(27, Some((b'[', b'B')));
    s.handle_key(b' ', None);
    assert_eq!(s.chosen(), vec!["CN", "KP", "IR", "CU", "BY"]);
    s.handle_key(b' ', None);
    assert_eq!(s.chosen(), vec!["CN", "RU", "KP", "IR", "CU", "BY"]);
}

#[test]
fn feeding_bytes() {
    let mut s = CountrySelector::new();
    assert!(matches!(s.feed(27), KeyFeed::Pending));
    assert!(matches!(s.feed(b'['), KeyFeed::Pending));
    assert!(matches!(s.feed(b'B'), KeyFeed::Handled));
    assert!(matches!(s.feed(b' '), KeyFeed::Handled));
    assert!(matches!(s.feed(b'\n'), KeyFeed::Confirmed));
    assert_eq!(s.chosen(), vec!["CN", "KP", "IR", "CU", "BY"]);
    assert!(!s.end_of_input());
    assert!(matches!(s.feed(27), KeyFeed::Pending));
    assert!(s.end_of_input());
    assert!(matches!(s.feed(b'\r'), KeyFeed::Confirmed));
}
