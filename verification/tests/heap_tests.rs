use march_time::heap::TimerHeap;

#[test]
fn heap_starts_empty() {
    let h = TimerHeap::new();
    assert!(h.is_empty());
    assert!(h.peek_deadline().is_none());
}

#[test]
fn heap_peek_returns_minimum() {
    let mut h = TimerHeap::new();
    h.push(100, 1);
    h.push(50, 2);
    h.push(70, 3);
    assert_eq!(h.peek_deadline(), Some(50));
    assert!(!h.is_empty());
}

#[test]
fn heap_pop_expired_returns_minimum_only_when_due() {
    let mut h = TimerHeap::new();
    h.push(100, 1);
    h.push(50, 2);
    h.push(70, 3);
    // Only the entry with the minimum deadline comes out, and only once due.
    assert_eq!(h.pop_expired(60), Some(2));
    assert_eq!(h.pop_expired(60), None);
    assert_eq!(h.pop_expired(100), Some(3));
    assert_eq!(h.pop_expired(100), Some(1));
    assert_eq!(h.pop_expired(100), None);
    assert!(h.is_empty());
}

#[test]
fn heap_pop_expired_on_empty_returns_none() {
    let mut h = TimerHeap::new();
    assert_eq!(h.pop_expired(u64::MAX), None);
}

#[test]
fn heap_equal_deadlines_fire_in_insertion_order() {
    let mut h = TimerHeap::new();
    h.push(50, 1);
    h.push(50, 2);
    h.push(50, 3);
    assert_eq!(h.pop_expired(50), Some(1));
    assert_eq!(h.pop_expired(50), Some(2));
    assert_eq!(h.pop_expired(50), Some(3));
}

#[test]
fn heap_pop_ignores_past_deadline_not_reached() {
    let mut h = TimerHeap::new();
    h.push(1_000, 9);
    assert_eq!(h.pop_expired(999), None);
    assert_eq!(h.pop_expired(1_000), Some(9));
}
