use rand::thread_rng;
use tetrs::game::garbage::GarbageQueue;
use tetrs::time::Duration;

#[test]
fn test_add_garbage() {
    let mut gq = GarbageQueue::new();
    gq.add(4);
    assert_eq!(gq.pending(), 4);
}

#[test]
fn test_cancel_garbage() {
    let mut gq = GarbageQueue::new();
    gq.add(4);
    let remaining = gq.cancel(2);
    assert_eq!(remaining, 0);
    assert_eq!(gq.pending(), 2);
}

#[test]
fn test_cancel_overflow() {
    let mut gq = GarbageQueue::new();
    gq.add(2);
    let remaining = gq.cancel(5);
    assert_eq!(remaining, 3);
    assert_eq!(gq.pending(), 0);
}

#[test]
fn test_tick_garbage() {
    let mut gq = GarbageQueue::new();
    gq.add(3);
    let ready = gq.tick(Duration::from_millis(200));
    assert_eq!(ready, 0);
    let ready = gq.tick(Duration::from_millis(400));
    assert_eq!(ready, 3);
}

#[test]
fn cancel_consumes_the_oldest_batch_first() {
    let mut gq = GarbageQueue::new();
    gq.add(2);
    gq.tick(Duration::from_millis(300));
    gq.add(3);
    gq.add(0);
    assert_eq!(gq.pending(), 5);
    // takes the whole first batch and one line of the second
    assert_eq!(gq.cancel(3), 0);
    assert_eq!(gq.pending(), 2);
    // the first batch would have arrived now; what is left is the younger one
    assert_eq!(gq.tick(Duration::from_millis(200)), 0);
    assert_eq!(gq.tick(Duration::from_millis(300)), 2);
    assert_eq!(gq.pending(), 0);
    assert_eq!(gq.cancel(4), 4);
    assert_eq!(gq.cancel(0), 0);
}

#[test]
fn cancel_of_exactly_what_is_pending_leaves_nothing() {
    let mut gq = GarbageQueue::new();
    gq.add(2);
    gq.add(5);
    assert_eq!(gq.cancel(7), 0);
    assert_eq!(gq.pending(), 0);
}

#[test]
fn tick_hands_out_only_what_has_arrived() {
    let mut gq = GarbageQueue::new();
    gq.add(1);
    gq.tick(Duration::from_millis(100));
    gq.add(2);
    gq.tick(Duration::from_millis(100));
    gq.add(4);
    assert_eq!(gq.tick(Duration::from_millis(300)), 1);
    assert_eq!(gq.pending(), 6);
    assert_eq!(gq.tick(Duration::from_millis(100)), 2);
    assert_eq!(gq.tick(Duration::from_millis(99)), 0);
    assert_eq!(gq.tick(Duration::from_millis(1)), 4);
    gq.add(9);
    gq.clear();
    assert_eq!(gq.pending(), 0);
}

#[test]
fn settings_of_a_new_queue() {
    let mut gq = GarbageQueue::new();
    assert_eq!(gq.travel_time(), Duration::from_millis(500));
    assert_eq!(gq.messiness(), 30);
    gq.set_travel_time(Duration::from_millis(50));
    gq.add(1);
    assert_eq!(gq.tick(Duration::from_millis(50)), 1);
    gq.set_messiness(75);
    assert_eq!(gq.messiness(), 75);
}

#[test]
fn gap_stays_without_messiness() {
    let mut rng = thread_rng();
    let mut gq = GarbageQueue::new();
    gq.set_messiness(0);
    for _ in 0..200 {
        assert_eq!(gq.gap_column(&mut rng), 4);
    }
    assert_eq!(gq.use_gap(None), 4);
    assert_eq!(gq.use_gap(Some(8)), 8);
    assert_eq!(gq.use_gap(None), 8);
    for _ in 0..50 {
        assert_eq!(gq.gap_column(&mut rng), 8);
    }
}

#[test]
fn gap_moves_with_full_messiness() {
    let mut rng = thread_rng();
    let mut gq = GarbageQueue::new();
    gq.set_messiness(100);
    let mut seen = [false; 10];
    for _ in 0..400 {
        let col = gq.gap_column(&mut rng);
        assert!(col < 10);
        seen[col] = true;
        assert_eq!(gq.use_gap(None), col);
    }
    assert!(seen.iter().filter(|&&s| s).count() >= 5);
}

#[test]
fn gap_is_mostly_sticky_by_default() {
    let mut rng = thread_rng();
    let mut gq = GarbageQueue::new();
    let mut last = 4;
    let mut changes = 0;
    for _ in 0..2000 {
        let col = gq.gap_column(&mut rng);
        assert!(col < 10);
        if col != last {
            changes += 1;
        }
        last = col;
    }
    assert!(changes > 200 && changes < 900, "{} changes", changes);
}
