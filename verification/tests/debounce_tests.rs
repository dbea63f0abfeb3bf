use gtany::debounce::Debounce;
use gtany::debounce::debounce_all;

#[test]
fn test_debounce() {
    // 1, 2, 3 arrive together; 4 and 5 arrive 150 ms apart, slower than
    // the 100 ms quiescence, so the burst collapses and the rest pass.
    let arrivals: Vec<(u64, i32)> = vec![(0, 1), (0, 2), (0, 3), (150, 4), (300, 5)];
    assert_eq!(vec![3, 4, 5], debounce_all(100, &arrivals));
}

#[test]
fn test_debounce_zero_returns_all() {
    let arrivals: Vec<(u64, i32)> = vec![(0, 1), (0, 2), (0, 3), (0, 4), (0, 5)];
    assert_eq!(vec![1, 2, 3, 4, 5], debounce_all(0, &arrivals));
}

#[test]
fn test_debounce_returns_last() {
    let arrivals: Vec<(u64, i32)> = vec![(0, 1), (0, 2), (0, 3), (0, 4), (0, 5)];
    assert_eq!(vec![5], debounce_all(50, &arrivals));
}

#[test]
fn burst_emits_only_newest_after_quiescence() {
    // Three items within less than 100 ms of each other: only the newest
    // comes out, and only once its deadline has passed.
    let mut d: Debounce<i32> = Debounce::new(100);
    assert_eq!(d.on_item(1, 0), None);
    assert_eq!(d.on_item(2, 30), None);
    assert_eq!(d.on_item(3, 60), None);
    // Deadline is 160: polling earlier yields nothing.
    assert_eq!(d.check_deadline(100), None);
    assert_eq!(d.check_deadline(159), None);
    assert_eq!(d.check_deadline(160), Some(3));
    // The buffer is now empty: completion must not re-emit a stale item.
    assert_eq!(d.on_complete(), None);
}

#[test]
fn trailing_flush_emits_buffered_item() {
    let mut d: Debounce<&str> = Debounce::new(100);
    assert_eq!(d.on_item("only", 5), None);
    assert_eq!(d.on_complete(), Some("only"));
    assert_eq!(d.on_complete(), None);
}

#[test]
fn zero_wait_emits_immediately() {
    let mut d: Debounce<i32> = Debounce::new(0);
    assert_eq!(d.on_item(7, 0), Some(7));
    assert_eq!(d.on_item(8, 0), Some(8));
    assert_eq!(d.on_complete(), None);
}

#[test]
fn slow_items_all_pass() {
    // Gaps of 200 ms with a 100 ms wait: every item is emitted.
    let arrivals: Vec<(u64, i32)> = vec![(0, 1), (200, 2), (400, 3)];
    assert_eq!(vec![1, 2, 3], debounce_all(100, &arrivals));
}
