//! Score, combo and back-to-back tracking, and the attack that a clear sends.

use vstd::prelude::*;
use super::clear::ClearType;

verus! {

/// Attack by table row and combo count; the rows are, in order: single,
/// double, triple, quad, T-spin single, T-spin double, T-spin triple,
/// mini T-spin single.
pub const ATTACK_TABLE: [[u32; 21]; 8] = [
    [0, 0, 1, 1, 1, 1, 2, 2, 2, 2, 2, 2, 2, 2, 2, 2, 3, 3, 3, 3, 3],
    [1, 1, 1, 1, 2, 2, 2, 2, 3, 3, 3, 3, 4, 4, 4, 4, 5, 5, 5, 5, 6],
    [2, 2, 3, 3, 4, 4, 5, 5, 6, 6, 7, 7, 8, 8, 9, 9, 10, 10, 11, 11, 12],
    [4, 5, 6, 7, 8, 9, 10, 11, 12, 13, 14, 15, 16, 17, 18, 19, 20, 21, 22, 23, 24],
    [2, 2, 3, 3, 4, 4, 5, 5, 6, 6, 7, 7, 8, 8, 9, 9, 10, 10, 11, 11, 12],
    [4, 5, 6, 7, 8, 9, 10, 11, 12, 13, 14, 15, 16, 17, 18, 19, 20, 21, 22, 23, 24],
    [6, 7, 9, 10, 12, 13, 15, 16, 18, 19, 21, 22, 24, 25, 27, 28, 30, 31, 33, 34, 36],
    [0, 0, 1, 1, 1, 1, 2, 2, 2, 2, 2, 2, 2, 2, 2, 2, 3, 3, 3, 3, 3],
];

/// The highest combo count that the attack table distinguishes.
pub const MAX_ATTACK_COMBO: usize = 20;

/// Chain lengths at which the back-to-back bonus grows by one. Entry `k` is
/// the least chain length `b` for which the natural logarithm of `1 + 0.8 * b`
/// reaches `k + 1`.
pub const BTB_STEPS: [i32; 21] = [
    3,
    8,
    24,
    67,
    185,
    504,
    1370,
    3725,
    10128,
    27532,
    74842,
    203443,
    553016,
    1503255,
    4086271,
    11107637,
    30193690,
    82074961,
    223102875,
    606456494,
    1648519667,
];

/// Score added when a clear leaves the board empty.
pub const PERFECT_CLEAR_SCORE: u64 = 3500;

/// Attack added when a clear leaves the board empty.
pub const PERFECT_CLEAR_ATTACK: u32 = 10;

/// Score added per combo count.
pub const COMBO_SCORE: u64 = 50;

/// The score of a clear type before any bonus.
pub open spec fn spec_base_score(clear_type: ClearType) -> u32 {
    match clear_type {
        ClearType::Single => 100,
        ClearType::Double => 300,
        ClearType::Triple => 500,
        ClearType::Quad => 800,
        ClearType::TSpin => 400,
        ClearType::TSpinSingle => 800,
        ClearType::TSpinDouble => 1200,
        ClearType::TSpinTriple => 1600,
        ClearType::MiniTSpin => 100,
        ClearType::MiniTSpinSingle => 200,
        ClearType::MiniTSpinDouble => 400,
        ClearType::AllSpin(_) => 400,
        ClearType::NoClear => 0,
    }
}

/// The row of the attack table for a clear type, if it has one.
pub open spec fn spec_attack_index(clear_type: ClearType) -> Option<usize> {
    match clear_type {
        ClearType::Single => Some(0usize),
        ClearType::Double => Some(1usize),
        ClearType::Triple => Some(2usize),
        ClearType::Quad => Some(3usize),
        ClearType::TSpinSingle => Some(4usize),
        ClearType::TSpinDouble => Some(5usize),
        ClearType::TSpinTriple => Some(6usize),
        ClearType::MiniTSpinSingle => Some(7usize),
        _ => None,
    }
}

/// How many of the first `n` back-to-back steps a chain of length `btb` has reached.
pub open spec fn btb_steps_reached(btb: int, n: int) -> int
    decreases n,
{
    if n <= 0 {
        0
    } else {
        btb_steps_reached(btb, n - 1) + if btb >= BTB_STEPS[n - 1] {
            1int
        } else {
            0int
        }
    }
}

/// The attack bonus of a back-to-back chain of length `btb`: nothing without
/// a chain, otherwise one more than the whole part of the natural logarithm
/// of `1 + 0.8 * btb`.
pub open spec fn btb_bonus(btb: int) -> int {
    if btb > 0 {
        1 + btb_steps_reached(btb, 21)
    } else {
        0
    }
}

/// The attack that the table gives for a clear type at a combo count.
pub open spec fn table_attack(clear_type: ClearType, combo: int) -> int {
    let column = if combo < 0 {
        0
    } else if combo > 20 {
        20
    } else {
        combo
    };
    match spec_attack_index(clear_type) {
        Some(row) => ATTACK_TABLE[row as int][column] as int,
        None => 0,
    }
}

/// The score of a clear type before any bonus.
fn base_score(clear_type: &ClearType) -> (score: u32)
    ensures
        score == spec_base_score(*clear_type),
{
    match clear_type {
        ClearType::Single => 100,
        ClearType::Double => 300,
        ClearType::Triple => 500,
        ClearType::Quad => 800,
        ClearType::TSpin => 400,
        ClearType::TSpinSingle => 800,
        ClearType::TSpinDouble => 1200,
        ClearType::TSpinTriple => 1600,
        ClearType::MiniTSpin => 100,
        ClearType::MiniTSpinSingle => 200,
        ClearType::MiniTSpinDouble => 400,
        ClearType::AllSpin(_) => 400,
        ClearType::NoClear => 0,
    }
}

/// The row of the attack table for a clear type, if it has one.
fn attack_index(clear_type: &ClearType) -> (row: Option<usize>)
    ensures
        row == spec_attack_index(*clear_type),
{
    match clear_type {
        ClearType::Single => Some(0),
        ClearType::Double => Some(1),
        ClearType::Triple => Some(2),
        ClearType::Quad => Some(3),
        ClearType::TSpinSingle => Some(4),
        ClearType::TSpinDouble => Some(5),
        ClearType::TSpinTriple => Some(6),
        ClearType::MiniTSpinSingle => Some(7),
        _ => None,
    }
}

/// Score, combo, back-to-back chain and level of one game.
#[derive(Debug, Clone, Copy, PartialEq, Eq, Structural)]
pub struct Scoring {
    pub score: u64,
    /// Consecutive clears beyond the first; -1 while no combo runs.
    pub combo: i32,
    /// Consecutive difficult clears beyond the first; -1 while no chain runs.
    pub btb: i32,
    pub level: u32,
    pub lines_cleared: u32,
    pub lines_per_level: u32,
}

impl Scoring {
    /// The state at the start of a game.
    pub open spec fn spec_new() -> Scoring {
        Scoring {
            score: 0,
            combo: -1i32,
            btb: -1i32,
            level: 0,
            lines_cleared: 0,
            lines_per_level: 10,
        }
    }

    /// Whether a lock with this outcome changes nothing but the combo.
    pub open spec fn is_idle(clear_type: ClearType, lines: u32) -> bool {
        clear_type is NoClear && lines == 0
    }

    /// The combo count after a lock: one more after a clear of at least one
    /// line, inactive after a lock that cleared nothing.
    pub open spec fn next_combo(self, lines: u32) -> int {
        if lines > 0 {
            self.combo + 1
        } else if self.combo >= 0 {
            -1
        } else {
            self.combo as int
        }
    }

    /// The back-to-back chain after a lock: a difficult clear of at least one
    /// line extends it, any other clear of at least one line ends it, and a
    /// lock that cleared nothing leaves it alone.
    pub open spec fn next_btb(self, clear_type: ClearType, lines: u32) -> int {
        if lines > 0 {
            if clear_type.spec_is_difficult() {
                self.btb + 1
            } else {
                -1
            }
        } else {
            self.btb as int
        }
    }

    /// The score that a lock earns: the base score of the clear type, plus the
    /// perfect-clear bonus, plus 50 per combo count; then half as much again
    /// while a back-to-back chain runs; then times the level plus one.
    pub open spec fn gained(
        self,
        clear_type: ClearType,
        lines: u32,
        is_perfect_clear: bool,
    ) -> int {
        if Self::is_idle(clear_type, lines) {
            0
        } else {
            let combo = self.next_combo(lines);
            let plain = spec_base_score(clear_type) + (if is_perfect_clear {
                3500int
            } else {
                0int
            }) + (if combo > 0 {
                50 * combo
            } else {
                0int
            });
            let chained = if self.next_btb(clear_type, lines) > 0 {
                plain * 3 / 2
            } else {
                plain
            };
            chained * (self.level + 1)
        }
    }

    /// The attack of a clear before the floor for long combos: the table
    /// entry, the back-to-back bonus and the perfect-clear bonus.
    pub open spec fn plain_attack(
        self,
        clear_type: ClearType,
        lines: u32,
        is_perfect_clear: bool,
    ) -> int {
        table_attack(clear_type, self.next_combo(lines)) + btb_bonus(
            self.next_btb(clear_type, lines),
        ) + if is_perfect_clear {
            10int
        } else {
            0int
        }
    }

    /// The attack that a lock sends. A clear of at least one line in a combo
    /// longer than two sends at least one line.
    pub open spec fn attack_of(
        self,
        clear_type: ClearType,
        lines: u32,
        is_perfect_clear: bool,
    ) -> int {
        if Self::is_idle(clear_type, lines) {
            0
        } else {
            let attack = self.plain_attack(clear_type, lines, is_perfect_clear);
            if lines > 0 && attack == 0 && self.next_combo(lines) > 2 {
                1
            } else {
                attack
            }
        }
    }

    /// The level after `lines` more lines: one higher once the cleared lines
    /// reach the next level's threshold.
    pub open spec fn next_level(self, lines: u32) -> int {
        if self.lines_cleared + lines >= (self.level + 1) * self.lines_per_level {
            self.level + 1
        } else {
            self.level as int
        }
    }

    /// The state after a lock with the given outcome.
    pub open spec fn after_clear(
        self,
        clear_type: ClearType,
        lines: u32,
        is_perfect_clear: bool,
    ) -> Scoring {
        if Self::is_idle(clear_type, lines) {
            Scoring { combo: self.next_combo(lines) as i32, ..self }
        } else {
            Scoring {
                score: (self.score + self.gained(clear_type, lines, is_perfect_clear)) as u64,
                combo: self.next_combo(lines) as i32,
                btb: self.next_btb(clear_type, lines) as i32,
                level: self.next_level(lines) as u32,
                lines_cleared: (self.lines_cleared + lines) as u32,
                lines_per_level: self.lines_per_level,
            }
        }
    }

    /// Whether every counter can take a lock with the given outcome without
    /// leaving its integer type.
    pub open spec fn can_process(
        self,
        clear_type: ClearType,
        lines: u32,
        is_perfect_clear: bool,
    ) -> bool {
        Self::is_idle(clear_type, lines) || {
            &&& self.next_combo(lines) <= i32::MAX
            &&& self.next_btb(clear_type, lines) <= i32::MAX
            &&& self.score + self.gained(clear_type, lines, is_perfect_clear) <= u64::MAX
            &&& self.lines_cleared + lines <= u32::MAX
            &&& (self.level + 1) * self.lines_per_level <= u32::MAX
            &&& self.level < u32::MAX
        }
    }

    /// The state at the start of a game: no score, no combo, no chain, level 0.
    pub fn new() -> (scoring: Scoring)
        ensures
            scoring == Self::spec_new(),
    {
        Scoring { score: 0, combo: -1, btb: -1, level: 0, lines_cleared: 0, lines_per_level: 10 }
    }

    /// Takes in the outcome of a lock and returns the score gained and the
    /// attack sent.
    pub fn process_clear(
        &mut self,
        clear_type: &ClearType,
        lines: u32,
        is_perfect_clear: bool,
    ) -> (result: (u64, u32))
        requires
            old(self).can_process(*clear_type, lines, is_perfect_clear),
        ensures
            *final(self) == old(self).after_clear(*clear_type, lines, is_perfect_clear),
            result.0 == old(self).gained(*clear_type, lines, is_perfect_clear),
            result.1 == old(self).attack_of(*clear_type, lines, is_perfect_clear),
    {
        if lines == 0 {
            if self.combo >= 0 {
                self.combo = -1;
            }
            if matches!(clear_type, ClearType::NoClear) {
                return (0, 0);
            }
        } else {
            self.combo += 1;
            if clear_type.is_difficult() {
                self.btb += 1;
            } else {
                self.btb = -1;
            }
        }

        let mut score = base_score(clear_type) as u64;
        if is_perfect_clear {
            score += PERFECT_CLEAR_SCORE;
        }
        if self.combo > 0 {
            score += COMBO_SCORE * self.combo as u64;
        }
        if self.btb > 0 {
            score = score * 3 / 2;
        }
        let ghost chained = score as int;
        assert(chained * (old(self).level + 1) == old(self).gained(
            *clear_type,
            lines,
            is_perfect_clear,
        ));
        assert(chained * (self.level + 1) <= u64::MAX);
        score = score * (self.level as u64 + 1);
        self.score += score;

        let mut attack = self.calculate_attack(clear_type, is_perfect_clear);

        self.lines_cleared += lines;
        self.check_level_up();

        if lines > 0 && attack == 0 && self.combo > 2 {
            attack = 1;
        }
        (score, attack)
    }

    /// The attack of a clear at the present combo and chain: the table entry,
    /// the back-to-back bonus and the perfect-clear bonus.
    fn calculate_attack(&self, clear_type: &ClearType, is_perfect_clear: bool) -> (attack: u32)
        ensures
            attack == table_attack(*clear_type, self.combo as int) + btb_bonus(self.btb as int)
                + if is_perfect_clear {
                10int
            } else {
                0int
            },
    {
        let combo_idx: usize = if self.combo < 0 {
            0
        } else if self.combo as usize > MAX_ATTACK_COMBO {
            MAX_ATTACK_COMBO
        } else {
            self.combo as usize
        };
        let base_attack: u32 = match attack_index(clear_type) {
            Some(idx) => ATTACK_TABLE[idx][combo_idx],
            None => 0,
        };
        assert(base_attack <= 36);
        let mut btb_bonus: u32 = 0;
        if self.btb > 0 {
            btb_bonus = 1;
            let mut step: usize = 0;
            while step < 21
                invariant
                    step <= 21,
                    btb_bonus == 1 + btb_steps_reached(self.btb as int, step as int),
                    btb_bonus <= 1 + step,
                decreases 21 - step,
            {
                if self.btb >= BTB_STEPS[step] {
                    btb_bonus += 1;
                }
                step += 1;
            }
        }
        let pc_bonus: u32 = if is_perfect_clear {
            PERFECT_CLEAR_ATTACK
        } else {
            0
        };
        base_attack + btb_bonus + pc_bonus
    }

    /// Adds two points per cell of a hard drop.
    pub fn add_hard_drop(&mut self, cells: u32)
        requires
            old(self).score + 2 * cells <= u64::MAX,
        ensures
            *final(self) == (Scoring { score: (old(self).score + 2 * cells) as u64, ..*old(self) }),
    {
        self.score += cells as u64 * 2;
    }

    /// Adds one point per cell of a soft drop.
    pub fn add_soft_drop(&mut self, cells: u32)
        requires
            old(self).score + cells <= u64::MAX,
        ensures
            *final(self) == (Scoring { score: (old(self).score + cells) as u64, ..*old(self) }),
    {
        self.score += cells as u64;
    }

    /// Raises the level by one once the cleared lines reach its threshold.
    fn check_level_up(&mut self)
        requires
            (old(self).level + 1) * old(self).lines_per_level <= u32::MAX,
            old(self).level < u32::MAX,
        ensures
            *final(self) == (Scoring {
                level: if old(self).lines_cleared >= (old(self).level + 1) * old(
                    self,
                ).lines_per_level {
                    (old(self).level + 1) as u32
                } else {
                    old(self).level
                },
                ..*old(self)
            }),
    {
        let target = (self.level + 1) * self.lines_per_level;
        if self.lines_cleared >= target {
            self.level += 1;
        }
    }

    /// Back to the state at the start of a game.
    pub fn reset(&mut self)
        ensures
            *final(self) == Self::spec_new(),
    {
        *self = Self::new();
    }
}

/// The back-to-back bonus is never negative and grows with the chain.
pub proof fn lemma_btb_steps_bounds(btb: int, n: int)
    ensures
        0 <= btb_steps_reached(btb, n),
        n >= 0 ==> btb_steps_reached(btb, n) <= n,
    decreases n,
{
    if n > 0 {
        lemma_btb_steps_bounds(btb, n - 1);
    }
}

/// No lock sends more than 68 lines of attack.
pub proof fn lemma_attack_bound(
    scoring: Scoring,
    clear_type: ClearType,
    lines: u32,
    is_perfect_clear: bool,
)
    ensures
        0 <= scoring.attack_of(clear_type, lines, is_perfect_clear) <= 68,
{
    lemma_btb_steps_bounds(scoring.next_btb(clear_type, lines), 21);
    let combo = scoring.next_combo(lines);
    assert(0 <= table_attack(clear_type, combo) <= 36);
}

/// A lock that leaves the board empty earns at least the perfect-clear score
/// and sends at least the perfect-clear attack, whatever the clear type, the
/// combo, the chain and the level are.
pub proof fn lemma_perfect_clear_bonus(scoring: Scoring, clear_type: ClearType, lines: u32)
    requires
        !Scoring::is_idle(clear_type, lines),
    ensures
        scoring.gained(clear_type, lines, true) >= 3500,
        scoring.attack_of(clear_type, lines, true) >= 10,
{
    let combo = scoring.next_combo(lines);
    let plain = spec_base_score(clear_type) + 3500int + (if combo > 0 {
        50 * combo
    } else {
        0int
    });
    assert(plain >= 3500);
    let chained = if scoring.next_btb(clear_type, lines) > 0 {
        plain * 3 / 2
    } else {
        plain
    };
    assert(chained >= 3500);
    assert(chained * (scoring.level + 1) >= 3500) by (nonlinear_arith)
        requires
            chained >= 3500,
            scoring.level >= 0,
    ;
    lemma_btb_steps_bounds(scoring.next_btb(clear_type, lines), 21);
}

} // verus!
