use tetrs::game::gravity::Gravity;
use tetrs::time::Duration;

fn secs(d: Duration) -> f64 {
    d.as_nanos() as f64 / 1e9
}

#[test]
fn test_gravity_level_0() {
    let g = Gravity::new();
    let interval = g.interval();
    assert!((secs(interval) - 1.0).abs() < 0.01);
}

#[test]
fn test_gravity_increases_with_level() {
    let mut g1 = Gravity::new();
    g1.level = 0;
    let mut g2 = Gravity::new();
    g2.level = 5;
    assert!(g2.interval() < g1.interval());
}

#[test]
fn test_soft_drop_faster() {
    let mut g = Gravity::new();
    let normal = g.interval();
    g.soft_dropping = true;
    let soft = g.interval();
    assert!(soft < normal);
}

#[test]
fn test_gravity_tick() {
    let mut g = Gravity::new();
    let drops = g.tick(Duration::from_millis(500));
    assert_eq!(drops, 0);
    let drops = g.tick(Duration::from_millis(600));
    assert_eq!(drops, 1);
}

#[test]
fn interval_follows_the_formula_at_every_level() {
    for level in 0..40u32 {
        for soft in [false, true] {
            let mut g = Gravity::new();
            g.level = level;
            g.soft_dropping = soft;
            let l = level as f64;
            let mut seconds = (0.8 - l * 0.007).max(0.001).powf(l);
            if soft {
                seconds /= 20.0;
            }
            let expected = (seconds.max(0.001) * 1e9).round() as i128;
            let got = g.interval().as_nanos() as i128;
            assert!((got - expected).abs() <= 1, "level {} soft {}", level, soft);
        }
    }
}

#[test]
fn interval_has_exact_values() {
    let mut g = Gravity::new();
    assert_eq!(g.interval(), Duration::from_nanos(1_000_000_000));
    g.level = 1;
    assert_eq!(g.interval(), Duration::from_nanos(793_000_000));
    g.level = 2;
    assert_eq!(g.interval(), Duration::from_nanos(617_796_000));
    g.soft_dropping = true;
    assert_eq!(g.interval(), Duration::from_nanos(30_889_800));
    g.level = 17;
    assert_eq!(g.interval(), Duration::from_millis(1));
    g.soft_dropping = false;
    assert_eq!(g.interval(), Duration::from_nanos(1_457_139));
    g.level = 18;
    assert_eq!(g.interval(), Duration::from_millis(1));
    g.level = 4_000_000_000;
    assert_eq!(g.interval(), Duration::from_millis(1));
}

#[test]
fn tick_keeps_the_remainder_and_caps_the_drops() {
    let mut g = Gravity::new();
    assert_eq!(g.tick(Duration::from_millis(2500)), 2);
    assert_eq!(g.accumulator, Duration::from_millis(500));
    assert_eq!(g.tick(Duration::from_millis(500)), 1);
    assert_eq!(g.accumulator, Duration::zero());
    assert_eq!(g.tick(Duration::from_secs(60)), 20);
    assert_eq!(g.accumulator, Duration::zero());
    g.tick(Duration::from_millis(300));
    g.reset();
    assert_eq!(g.accumulator, Duration::zero());
    assert_eq!(g.level, 0);
}
