use mark_us_down::pending::PendingSlot;

#[test]
fn offer_fills_an_empty_slot() {
    let mut p = PendingSlot::new();
    assert!(p.is_empty());
    assert!(p.offer("a.md".to_string(), "text".to_string()));
    assert!(!p.is_empty());
}

#[test]
fn first_wins_a_second_offer_is_dropped() {
    let mut p = PendingSlot::new();
    assert!(p.offer("first.md".to_string(), "one".to_string()));
    assert!(!p.offer("second.md".to_string(), "two".to_string()));
    assert_eq!(p.take(), Some(("first.md".to_string(), "one".to_string())));
}

#[test]
fn exactly_one_reader_observes_a_buffered_entry() {
    let mut p = PendingSlot::new();
    p.offer("a.md".to_string(), "text".to_string());
    let first = p.take();
    let second = p.take();
    assert_eq!(first, Some(("a.md".to_string(), "text".to_string())));
    assert_eq!(second, None);
    assert!(p.is_empty());
}

#[test]
fn take_on_an_empty_slot_is_none() {
    let mut p = PendingSlot::new();
    assert_eq!(p.take(), None);
}
