use sacn_bridge::event_counter::EventCounter;

#[test]
fn test_initialization() {
    let interval = 5000;
    let max_history_size = 20;
    let counter = EventCounter::new(interval, max_history_size, 0);
    assert_eq!(counter.get_count(), 0);
    assert!(counter.time_since_last_clear(0) < interval);
}

#[test]
fn test_increment() {
    let interval = 5000;
    let max_history_size = 20;
    let mut counter = EventCounter::new(interval, max_history_size, 0);
    counter.increment();
    assert_eq!(counter.get_count(), 1);
    counter.increment();
    assert_eq!(counter.get_count(), 2);
}

#[test]
fn test_clear() {
    let interval = 5000;
    let max_history_size = 20;
    let mut counter = EventCounter::new(interval, max_history_size, 0);
    counter.increment();
    counter.increment();
    assert_eq!(counter.get_count(), 2);
    counter.clear(0);
    assert_eq!(counter.get_count(), 0);
    assert!(counter.time_since_last_clear(0) < interval);
}

#[test]
fn test_time_since_last_clear() {
    let interval = 1000;
    let max_history_size = 20;
    let counter = EventCounter::new(interval, max_history_size, 0);
    assert!(counter.time_since_last_clear(2000) >= 2000);
}

#[test]
fn test_should_clear() {
    let interval = 1000;
    let max_history_size = 20;
    let counter = EventCounter::new(interval, max_history_size, 0);
    assert!(!counter.should_clear(0));
    assert!(counter.should_clear(2000));
}

#[test]
fn test_clear_resets_timer() {
    let interval = 1000;
    let max_history_size = 20;
    let mut counter = EventCounter::new(interval, max_history_size, 0);
    assert!(counter.should_clear(2000));
    counter.clear(2000);
    assert!(!counter.should_clear(2000));
}

#[test]
fn test_history_is_bounded() {
    let mut counter = EventCounter::new(1000, 2, 0);
    counter.increment();
    counter.clear(1000);
    counter.increment();
    counter.increment();
    counter.clear(2000);
    counter.increment();
    counter.increment();
    counter.increment();
    counter.clear(3000);
    let history: Vec<u64> = counter.get_history().iter().copied().collect();
    assert_eq!(history, vec![2, 3]);
}
