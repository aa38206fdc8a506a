use mc_tools::config::Config;
use mc_tools::menu::{Key, Menu, Outcome};
use mc_tools::state::{Request, State};

#[test]
fn cursor_wraps_both_ways() {
    let mut m = Menu { index: 3 };
    m.next();
    assert_eq!(m.index, 0);
    m.prev();
    assert_eq!(m.index, 3);
    let mut m = Menu::new();
    assert_eq!(m.handle(Key::Prev), Outcome::Stay);
    assert_eq!(m.index, 3);
    assert_eq!(m.handle(Key::Next), Outcome::Stay);
    assert_eq!(m.index, 0);
}

#[test]
fn cursor_walks_through_all_entries() {
    let mut m = Menu::new();
    let mut seen = Vec::new();
    for _ in 0..4 {
        seen.push(m.index);
        m.next();
    }
    assert_eq!(seen, vec![0, 1, 2, 3]);
    assert_eq!(m.index, 0);
}

#[test]
fn toggle_entry_confirm_and_edit_agree() {
    let start = State { enabled: false, config: Config { min_key: 2, max_key: 7 } };
    let mut results = Vec::new();
    for key in [Key::Confirm, Key::Left, Key::Right] {
        let mut m = Menu::new();
        let outcome = m.handle(key);
        assert_eq!(outcome, Outcome::Change(Request::Toggle));
        assert_eq!(m.index, 0);
        let mut s = start;
        if let Outcome::Change(r) = outcome {
            s.apply(r);
        }
        results.push(s);
    }
    for s in &results {
        assert!(s.enabled);
        assert_eq!(s.config, start.config);
    }
}

#[test]
fn edits_on_each_entry() {
    let mut m = Menu { index: 1 };
    assert_eq!(m.handle(Key::Left), Outcome::Change(Request::MinDown));
    assert_eq!(m.handle(Key::Right), Outcome::Change(Request::MinUp));
    assert_eq!(m.handle(Key::Confirm), Outcome::Stay);
    let mut m = Menu { index: 2 };
    assert_eq!(m.handle(Key::Left), Outcome::Change(Request::MaxDown));
    assert_eq!(m.handle(Key::Right), Outcome::Change(Request::MaxUp));
    assert_eq!(m.handle(Key::Confirm), Outcome::Stay);
    let mut m = Menu { index: 3 };
    assert_eq!(m.handle(Key::Left), Outcome::Stay);
    assert_eq!(m.handle(Key::Right), Outcome::Stay);
    assert_eq!(m.handle(Key::Confirm), Outcome::Save);
    assert_eq!(m.handle(Key::Quit), Outcome::Quit);
    assert_eq!(m.index, 3);
}

#[test]
fn min_key_wraps_without_clamping() {
    let mut s = State::new(Config { min_key: 9, max_key: 9 });
    assert!(!s.enabled);
    s.apply(Request::MinUp);
    assert_eq!(s.config.min_key, 0);
    s.apply(Request::MinDown);
    assert_eq!(s.config.min_key, 9);
    s.apply(Request::MinDown);
    assert_eq!(s.config.min_key, 8);
    assert_eq!(s.config.max_key, 9);
}

#[test]
fn max_key_wraps_and_may_pass_min() {
    let mut s = State::new(Config { min_key: 3, max_key: 0 });
    s.apply(Request::MaxDown);
    assert_eq!(s.config.max_key, 9);
    s.apply(Request::MaxUp);
    assert_eq!(s.config.max_key, 0);
    s.apply(Request::MaxUp);
    assert_eq!(s.config, Config { min_key: 3, max_key: 1 });
    assert!(!s.config.is_ordered());
}
