use tetrs::input::das::{das_delay, DasHandler, DasPhase, DasState};
use tetrs::time::Duration;

#[test]
fn test_das_charging() {
    let mut das = DasState::new();
    das.press();
    let moves = das.tick(
        Duration::from_millis(100),
        das_delay(),
        Duration::from_millis(50),
    );
    assert_eq!(moves, 0);
    let moves = das.tick(
        Duration::from_millis(50),
        das_delay(),
        Duration::from_millis(50),
    );
    assert!(moves >= 1);
}

#[test]
fn test_das_instant_arr() {
    let mut das = DasState::new();
    das.press();
    let moves = das.tick(Duration::from_millis(200), das_delay(), Duration::zero());
    assert_eq!(moves, 20);
}

#[test]
fn test_das_release() {
    let mut das = DasState::new();
    das.press();
    das.release();
    let moves = das.tick(
        Duration::from_millis(200),
        das_delay(),
        Duration::from_millis(50),
    );
    assert_eq!(moves, 0);
}

#[test]
fn das_counts_the_repeats_that_fit() {
    let mut das = DasState::new();
    assert!(!das.is_active());
    das.press();
    assert!(das.is_active());
    assert_eq!(das.phase, DasPhase::Charging);
    let arr = Duration::from_millis(50);
    // 133 ms of delay, then 117 ms: the first move and two repeats
    assert_eq!(das.tick(Duration::from_millis(250), das_delay(), arr), 3);
    assert_eq!(das.phase, DasPhase::Repeating);
    assert_eq!(das.timer, Duration::from_millis(117));
    // 117 + 40 = 157 ms: three repeats and 7 ms left
    assert_eq!(das.tick(Duration::from_millis(40), das_delay(), arr), 3);
    assert_eq!(das.timer, Duration::from_millis(7));
    assert_eq!(das.tick(Duration::from_millis(42), das_delay(), arr), 0);
    assert_eq!(das.tick(Duration::from_millis(1), das_delay(), arr), 1);
    assert_eq!(das.tick(Duration::from_millis(1), das_delay(), Duration::zero()), 20);
    das.reset();
    assert_eq!(das, DasState::new());
}

#[test]
fn the_handler_ticks_each_key_with_its_own_rate() {
    let mut handler = DasHandler::new();
    assert_eq!(handler.das_delay, Duration::from_millis(133));
    assert_eq!(handler.arr_delay, Duration::zero());
    handler.arr_delay = Duration::from_millis(10);
    handler.left.press();
    handler.soft_drop.press();
    assert_eq!(handler.tick(Duration::from_millis(100)), (0, 0, 0));
    assert_eq!(handler.tick(Duration::from_millis(58)), (3, 0, 20));
    handler.right.press();
    // the left key carries 25 ms over from the step in which it began to repeat
    assert_eq!(handler.tick(Duration::from_millis(133)), (15, 1, 20));
    handler.reset();
    assert_eq!(handler.tick(Duration::from_millis(500)), (0, 0, 0));
    assert_eq!(handler.arr_delay, Duration::from_millis(10));
}
