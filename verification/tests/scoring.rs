use tetrs::game::clear::ClearType;
use tetrs::game::scoring::Scoring;

#[test]
fn test_single_score() {
    let mut scoring = Scoring::new();
    let (score, _) = scoring.process_clear(&ClearType::Single, 1, false);
    assert_eq!(score, 100);
}

#[test]
fn test_tetris_score() {
    let mut scoring = Scoring::new();
    let (score, _) = scoring.process_clear(&ClearType::Quad, 4, false);
    assert_eq!(score, 800);
}

#[test]
fn test_combo_bonus() {
    let mut scoring = Scoring::new();
    scoring.process_clear(&ClearType::Single, 1, false);
    let (score, _) = scoring.process_clear(&ClearType::Single, 1, false);
    assert_eq!(score, 150);
}

#[test]
fn test_btb() {
    let mut scoring = Scoring::new();
    scoring.process_clear(&ClearType::Quad, 4, false);
    let (score, _) = scoring.process_clear(&ClearType::Quad, 4, false);
    assert!(score > 800);
}

#[test]
fn test_perfect_clear() {
    let mut scoring = Scoring::new();
    let (score, attack) = scoring.process_clear(&ClearType::Quad, 4, true);
    assert!(score >= 3500 + 800);
    assert!(attack >= 10);
}

#[test]
fn test_combo_reset() {
    let mut scoring = Scoring::new();
    scoring.process_clear(&ClearType::Single, 1, false);
    assert_eq!(scoring.combo, 0);
    scoring.process_clear(&ClearType::NoClear, 0, false);
    assert_eq!(scoring.combo, -1);
}

#[test]
fn test_level_up() {
    let mut scoring = Scoring::new();
    for _ in 0..10 {
        scoring.process_clear(&ClearType::Single, 1, false);
    }
    assert_eq!(scoring.level, 1);
}

#[test]
fn back_to_back_quad_scores_exactly() {
    let mut scoring = Scoring::new();
    let first = scoring.process_clear(&ClearType::Quad, 4, false);
    assert_eq!(first, (800, 4));
    assert_eq!(scoring.btb, 0);
    let second = scoring.process_clear(&ClearType::Quad, 4, false);
    // (800 + 50 * 1) * 3 / 2 = 1275; table row of the quad at combo 1 is 5, chain bonus 1
    assert_eq!(second, (1275, 6));
    assert_eq!(scoring.btb, 1);
    assert_eq!(scoring.combo, 1);
    assert_eq!(scoring.score, 2075);
    assert_eq!(scoring.lines_cleared, 8);
}

#[test]
fn an_easy_clear_ends_the_chain() {
    let mut scoring = Scoring::new();
    scoring.process_clear(&ClearType::Quad, 4, false);
    scoring.process_clear(&ClearType::TSpinDouble, 2, false);
    assert_eq!(scoring.btb, 1);
    scoring.process_clear(&ClearType::Single, 1, false);
    assert_eq!(scoring.btb, -1);
    assert_eq!(scoring.combo, 2);
}

#[test]
fn a_lock_without_lines_ends_the_combo_and_keeps_the_chain() {
    let mut scoring = Scoring::new();
    scoring.process_clear(&ClearType::Quad, 4, false);
    scoring.process_clear(&ClearType::Quad, 4, false);
    let result = scoring.process_clear(&ClearType::NoClear, 0, false);
    assert_eq!(result, (0, 0));
    assert_eq!(scoring.combo, -1);
    assert_eq!(scoring.btb, 1);
    let spin = scoring.process_clear(&ClearType::TSpin, 0, false);
    // 400 * 3 / 2 while the chain runs; the chain bonus is the only attack
    assert_eq!(spin, (600, 1));
    assert_eq!(scoring.combo, -1);
    assert_eq!(scoring.btb, 1);
}

#[test]
fn level_multiplies_the_score() {
    let mut scoring = Scoring::new();
    scoring.level = 4;
    scoring.lines_cleared = 40;
    let (score, attack) = scoring.process_clear(&ClearType::Triple, 3, false);
    assert_eq!(score, 2500);
    assert_eq!(attack, 2);
    assert_eq!(scoring.level, 4);
    scoring.lines_cleared = 49;
    scoring.process_clear(&ClearType::Single, 1, false);
    assert_eq!(scoring.level, 5);
}

#[test]
fn perfect_clear_adds_its_bonus_to_score_and_attack() {
    let mut scoring = Scoring::new();
    let result = scoring.process_clear(&ClearType::Single, 1, true);
    assert_eq!(result, (3600, 10));
}

#[test]
fn long_combo_sends_at_least_one_line() {
    let mut scoring = Scoring::new();
    scoring.combo = 2;
    // All-spin clears have no table row; at combo 3 the floor applies
    scoring.btb = -5;
    let (_, attack) = scoring.process_clear(&ClearType::AllSpin(1), 1, false);
    assert_eq!(scoring.combo, 3);
    assert_eq!(attack, 1);
    let mut scoring = Scoring::new();
    let (_, attack) = scoring.process_clear(&ClearType::Single, 1, false);
    assert_eq!(attack, 0);
}

#[test]
fn attack_table_is_read_at_the_combo_capped_at_twenty() {
    let mut scoring = Scoring::new();
    scoring.combo = 30;
    let (_, attack) = scoring.process_clear(&ClearType::Double, 2, false);
    assert_eq!(attack, 6);
    let mut scoring = Scoring::new();
    scoring.combo = 15;
    let (_, attack) = scoring.process_clear(&ClearType::TSpinTriple, 3, false);
    // row of the T-spin triple at combo 16 is 30; the chain starts at 0 and adds nothing
    assert_eq!(attack, 30);
}

#[test]
fn chain_bonus_grows_with_the_logarithm_of_the_chain() {
    let expect = |btb: i32, bonus: u32| {
        let mut scoring = Scoring::new();
        scoring.btb = btb - 1;
        let (_, attack) = scoring.process_clear(&ClearType::Quad, 4, false);
        assert_eq!(attack, 4 + bonus, "chain {}", btb);
    };
    expect(1, 1);
    expect(2, 1);
    expect(3, 2);
    expect(7, 2);
    expect(8, 3);
    expect(23, 3);
    expect(24, 4);
    expect(66, 4);
    expect(67, 5);
    for btb in 1..400 {
        let x = (1.0 + btb as f64 * 0.8).ln();
        let bonus = ((x + 1.0).floor() + (1.0 + (x % 1.0)) / 3.0).floor() as u32;
        expect(btb, bonus);
    }
}

#[test]
fn drops_add_points() {
    let mut scoring = Scoring::new();
    scoring.add_hard_drop(7);
    assert_eq!(scoring.score, 14);
    scoring.add_soft_drop(3);
    assert_eq!(scoring.score, 17);
    scoring.reset();
    assert_eq!(scoring, Scoring::new());
}
