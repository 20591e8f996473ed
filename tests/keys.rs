use soundkid::keys::{KeyPress, TagAssembler};

#[test]
fn digits_then_enter() {
    let mut t = TagAssembler::new();
    assert_eq!(t.feed(KeyPress::Digit(4), 1), None);
    assert_eq!(t.feed(KeyPress::Digit(2), 1), None);
    assert_eq!(t.feed(KeyPress::Enter, 1), Some("42".to_string()));
    assert_eq!(t.feed(KeyPress::Digit(0), 1), None);
    assert_eq!(t.feed(KeyPress::Enter, 1), Some("0".to_string()));
}

#[test]
fn releases_and_other_keys_ignored() {
    let mut t = TagAssembler::new();
    assert_eq!(t.feed(KeyPress::Digit(1), 1), None);
    assert_eq!(t.feed(KeyPress::Digit(1), 0), None);
    assert_eq!(t.feed(KeyPress::Digit(5), 2), None);
    assert_eq!(t.feed(KeyPress::Other, 1), None);
    assert_eq!(t.feed(KeyPress::Digit(12), 1), None);
    assert_eq!(t.feed(KeyPress::Enter, 0), None);
    assert_eq!(t.feed(KeyPress::Enter, 1), Some("1".to_string()));
}

#[test]
fn empty_enter_gives_nothing() {
    let mut t = TagAssembler::new();
    assert_eq!(t.feed(KeyPress::Enter, 1), None);
    assert_eq!(t.feed(KeyPress::Digit(9), 1), None);
    assert_eq!(t.feed(KeyPress::Enter, 1), Some("9".to_string()));
}
