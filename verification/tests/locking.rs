use tetrs::game::locking::{lock_delay, LockDelay, MAX_LOCK_RESETS};
use tetrs::time::Duration;

#[test]
fn test_lock_delay_activation() {
    let mut ld = LockDelay::new();
    assert!(!ld.active);
    ld.start_if_grounded(true);
    assert!(ld.active);
}

#[test]
fn test_lock_delay_tick() {
    let mut ld = LockDelay::new();
    ld.start_if_grounded(true);
    assert!(!ld.tick(Duration::from_millis(200)));
    assert!(ld.tick(Duration::from_millis(400)));
}

#[test]
fn test_lock_reset() {
    let mut ld = LockDelay::new();
    ld.start_if_grounded(true);
    ld.tick(Duration::from_millis(400));
    assert!(ld.try_reset());
    assert!(!ld.tick(Duration::from_millis(400)));
}

#[test]
fn test_max_resets() {
    let mut ld = LockDelay::new();
    ld.start_if_grounded(true);
    for _ in 0..MAX_LOCK_RESETS {
        assert!(ld.try_reset());
    }
    assert!(!ld.try_reset());
}

#[test]
fn lock_timer_counts_down_exactly() {
    let mut ld = LockDelay::new();
    assert_eq!(ld.timer, Duration::from_millis(500));
    assert_eq!(lock_delay(), Duration::from_millis(500));
    assert!(!ld.tick(Duration::from_millis(900)));
    assert_eq!(ld.timer, Duration::from_millis(500));
    ld.start_if_grounded(true);
    assert!(ld.grounded);
    assert!(!ld.tick(Duration::from_millis(120)));
    assert_eq!(ld.timer, Duration::from_millis(380));
    assert!(ld.tick(Duration::from_millis(380)));
    assert_eq!(ld.timer, Duration::zero());
}

#[test]
fn leaving_the_ground_restores_the_timer_but_not_the_resets() {
    let mut ld = LockDelay::new();
    ld.start_if_grounded(true);
    ld.tick(Duration::from_millis(300));
    assert!(ld.try_reset());
    ld.tick(Duration::from_millis(100));
    ld.start_if_grounded(false);
    assert!(!ld.active);
    assert!(!ld.grounded);
    assert_eq!(ld.timer, Duration::from_millis(500));
    assert_eq!(ld.resets, 1);
    assert_eq!(ld.resets_remaining(), 14);
    assert!(!ld.try_reset());
    ld.start_if_grounded(true);
    ld.tick(Duration::from_millis(100));
    ld.start_if_grounded(true);
    assert_eq!(ld.timer, Duration::from_millis(400));
    ld.reset();
    assert_eq!(ld, LockDelay::new());
    assert_eq!(ld.resets_remaining(), 15);
}
