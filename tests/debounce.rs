use soundkid::debounce::DebounceFilter;

fn s(x: &str) -> String {
    x.to_string()
}

#[test]
fn second_event_inside_window_rejected() {
    let mut f = DebounceFilter::new();
    assert!(f.accept(&s("chip0"), &s("3"), 0));
    assert!(!f.accept(&s("chip0"), &s("3"), 150));
}

#[test]
fn second_event_after_window_accepted() {
    let mut f = DebounceFilter::new();
    assert!(f.accept(&s("chip0"), &s("3"), 0));
    assert!(f.accept(&s("chip0"), &s("3"), 250));
}

#[test]
fn window_measured_from_last_accepted() {
    let mut f = DebounceFilter::new();
    assert!(f.accept(&s("chip0"), &s("3"), 0));
    assert!(!f.accept(&s("chip0"), &s("3"), 150));
    assert!(f.accept(&s("chip0"), &s("3"), 200));
    assert!(!f.accept(&s("chip0"), &s("3"), 350));
    assert!(f.accept(&s("chip0"), &s("3"), 400));
}

#[test]
fn lines_are_independent() {
    let mut f = DebounceFilter::new();
    assert!(f.accept(&s("chip0"), &s("3"), 1000));
    assert!(f.accept(&s("chip0"), &s("4"), 1010));
    assert!(f.accept(&s("chip1"), &s("3"), 1020));
    assert!(!f.accept(&s("chip0"), &s("3"), 1100));
}

#[test]
fn earlier_clock_rejected() {
    let mut f = DebounceFilter::new();
    assert!(f.accept(&s("chip0"), &s("3"), 5000));
    assert!(!f.accept(&s("chip0"), &s("3"), 100));
    assert!(f.accept(&s("chip0"), &s("3"), u64::MAX));
}
