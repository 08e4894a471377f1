//! The high-score lists: the ten best runs of each mode.

use vstd::prelude::*;
use crate::ai::difficulty::AiDifficulty;

verus! {

/// How many runs each list keeps.
pub const MAX_SCORES: usize = 10;

/// Something that is listed in the order of a key, least key first.
pub trait Ranked: Copy {
    /// The key by which entries are ordered.
    spec fn key(&self) -> nat;

    /// The key by which entries are ordered.
    fn rank_key(&self) -> (k: u128)
        ensures
            k == self.key(),
    ;
}

/// A sprint that was completed.
#[derive(Debug, Clone, Copy, PartialEq, Eq, Structural)]
pub struct SprintEntry {
    pub time_ms: u64,
    pub lines: u32,
    pub pieces: u32,
    /// When the run ended, in milliseconds since the Unix epoch.
    pub date: i64,
}

/// A marathon that ended.
#[derive(Debug, Clone, Copy, PartialEq, Eq, Structural)]
pub struct EndlessEntry {
    pub score: u64,
    pub level: u32,
    pub lines: u32,
    /// When the run ended, in milliseconds since the Unix epoch.
    pub date: i64,
}

/// A game against the computer that ended.
#[derive(Debug, Clone, Copy, PartialEq, Eq, Structural)]
pub struct VersusEntry {
    pub won: bool,
    /// The strength of the opponent, where it is known.
    pub difficulty: Option<AiDifficulty>,
    pub time_ms: u64,
    pub damage_sent: u32,
    /// When the run ended, in milliseconds since the Unix epoch.
    pub date: i64,
}

impl Ranked for SprintEntry {
    /// Sprints are listed fastest first.
    open spec fn key(&self) -> nat {
        self.time_ms as nat
    }

    fn rank_key(&self) -> (k: u128) {
        self.time_ms as u128
    }
}

impl Ranked for EndlessEntry {
    /// Marathons are listed highest score first.
    open spec fn key(&self) -> nat {
        (u64::MAX - self.score) as nat
    }

    fn rank_key(&self) -> (k: u128) {
        (u64::MAX - self.score) as u128
    }
}

impl Ranked for VersusEntry {
    /// Games against the computer are listed wins first, and among wins and
    /// among losses the one with the most damage sent first.
    open spec fn key(&self) -> nat {
        ((if self.won {
            0int
        } else {
            0x1_0000_0000int
        }) + (u32::MAX - self.damage_sent)) as nat
    }

    fn rank_key(&self) -> (k: u128) {
        let base: u128 = if self.won {
            0
        } else {
            0x1_0000_0000
        };
        base + (u32::MAX - self.damage_sent) as u128
    }
}

/// A list in key order with `e` put in: behind every entry whose key is not
/// greater, in front of the rest.
pub open spec fn insert_by_key<T: Ranked>(s: Seq<T>, e: T) -> Seq<T>
    decreases s.len(),
{
    if s.len() == 0 {
        seq![e]
    } else if s[0].key() <= e.key() {
        seq![s[0]] + insert_by_key(s.drop_first(), e)
    } else {
        seq![e] + s
    }
}

/// The entries in key order; entries with the same key keep their order.
pub open spec fn sorted_by_key<T: Ranked>(s: Seq<T>) -> Seq<T>
    decreases s.len(),
{
    if s.len() == 0 {
        s
    } else {
        insert_by_key(sorted_by_key(s.drop_last()), s.last())
    }
}

/// A list after a new entry is taken in: the entries in key order with the
/// new one behind its equals, cut down to the ten first.
pub open spec fn with_entry<T: Ranked>(list: Seq<T>, e: T) -> Seq<T> {
    let all = sorted_by_key(list.push(e));
    if all.len() > MAX_SCORES {
        all.take(MAX_SCORES as int)
    } else {
        all
    }
}

/// Whether the keys never fall along the sequence.
pub open spec fn in_key_order<T: Ranked>(s: Seq<T>) -> bool {
    forall|i: int, j: int| 0 <= i < j < s.len() ==> s[i].key() <= s[j].key()
}

/// Putting an entry into a list at the first position whose entry has a
/// greater key gives the list with the entry put in.
pub proof fn lemma_insert_by_key_at<T: Ranked>(s: Seq<T>, e: T, pos: int)
    requires
        0 <= pos <= s.len(),
        forall|i: int| 0 <= i < pos ==> s[i].key() <= e.key(),
        pos < s.len() ==> s[pos].key() > e.key(),
    ensures
        insert_by_key(s, e) == s.insert(pos, e),
    decreases s.len(),
{
    if s.len() == 0 {
        assert(s.insert(pos, e) =~= seq![e]);
    } else if pos == 0 {
        assert(s.insert(0, e) =~= seq![e] + s);
    } else {
        lemma_insert_by_key_at(s.drop_first(), e, pos - 1);
        assert(s.insert(pos, e) =~= seq![s[0]] + s.drop_first().insert(pos - 1, e));
    }
}

/// Putting an entry into a list in key order keeps the order and makes the
/// list one longer; every entry of the result is the new one or was there.
pub proof fn lemma_insert_by_key<T: Ranked>(s: Seq<T>, e: T)
    requires
        in_key_order(s),
    ensures
        in_key_order(insert_by_key(s, e)),
        insert_by_key(s, e).len() == s.len() + 1,
        forall|i: int|
            0 <= i < insert_by_key(s, e).len() ==> #[trigger] insert_by_key(s, e)[i] == e
                || s.contains(insert_by_key(s, e)[i]),
    decreases s.len(),
{
    let out = insert_by_key(s, e);
    if s.len() == 0 {
    } else if s[0].key() <= e.key() {
        let tail = s.drop_first();
        assert(in_key_order(tail)) by {
            assert forall|i: int, j: int| 0 <= i < j < tail.len() implies tail[i].key()
                <= tail[j].key() by {
                assert(tail[i] == s[i + 1] && tail[j] == s[j + 1]);
            }
        }
        lemma_insert_by_key(tail, e);
        let rest = insert_by_key(tail, e);
        assert(out =~= seq![s[0]] + rest);
        assert forall|i: int| 0 <= i < out.len() implies #[trigger] out[i] == e || s.contains(
            out[i],
        ) by {
            if i == 0 {
                assert(s[0] == out[0]);
            } else {
                assert(out[i] == rest[i - 1]);
                if rest[i - 1] != e {
                    let k = choose|k: int| 0 <= k < tail.len() && tail[k] == rest[i - 1];
                    assert(s[k + 1] == rest[i - 1]);
                }
            }
        }
        assert forall|i: int, j: int| 0 <= i < j < out.len() implies out[i].key()
            <= out[j].key() by {
            assert(out[j] == rest[j - 1]);
            if i > 0 {
                assert(out[i] == rest[i - 1]);
            } else if rest[j - 1] != e {
                let k = choose|k: int| 0 <= k < tail.len() && tail[k] == rest[j - 1];
                assert(s[k + 1] == rest[j - 1]);
            }
        }
    } else {
        assert(out =~= seq![e] + s);
        assert forall|i: int| 0 <= i < out.len() implies #[trigger] out[i] == e || s.contains(
            out[i],
        ) by {
            if i > 0 {
                assert(out[i] == s[i - 1]);
            }
        }
        assert forall|i: int, j: int| 0 <= i < j < out.len() implies out[i].key()
            <= out[j].key() by {
            assert(out[j] == s[j - 1]);
            if i > 0 {
                assert(out[i] == s[i - 1]);
            }
        }
    }
}

/// Sorting gives a list in key order of the same length.
pub proof fn lemma_sorted_by_key<T: Ranked>(s: Seq<T>)
    ensures
        in_key_order(sorted_by_key(s)),
        sorted_by_key(s).len() == s.len(),
    decreases s.len(),
{
    if s.len() > 0 {
        lemma_sorted_by_key(s.drop_last());
        lemma_insert_by_key(sorted_by_key(s.drop_last()), s.last());
    }
}

/// A list after a new entry is taken in is in key order and holds at most
/// ten entries.
pub proof fn lemma_with_entry<T: Ranked>(list: Seq<T>, e: T)
    ensures
        in_key_order(with_entry(list, e)),
        with_entry(list, e).len() <= MAX_SCORES,
        with_entry(list, e).len() == if list.len() + 1 <= MAX_SCORES {
            list.len() + 1
        } else {
            MAX_SCORES as nat
        },
{
    lemma_sorted_by_key(list.push(e));
}

/// Puts an entry into a list in key order, behind its equals.
fn insert_entry<T: Ranked>(list: &mut Vec<T>, e: T)
    ensures
        final(list)@ == insert_by_key(old(list)@, e),
{
    let key = e.rank_key();
    let mut pos: usize = 0;
    while pos < list.len() && list[pos].rank_key() <= key
        invariant
            pos <= list@.len(),
            *list == *old(list),
            key == e.key(),
            forall|i: int| 0 <= i < pos ==> list@[i].key() <= e.key(),
        decreases list@.len() - pos,
    {
        pos += 1;
    }
    proof {
        lemma_insert_by_key_at(list@, e, pos as int);
    }
    list.insert(pos, e);
}

/// Takes a new entry into a list: sorts the list with the new entry behind
/// its equals and keeps the ten first.
fn add_entry<T: Ranked>(list: &mut Vec<T>, e: T)
    ensures
        final(list)@ == with_entry(old(list)@, e),
{
    let mut sorted: Vec<T> = Vec::new();
    let mut i: usize = 0;
    while i < list.len()
        invariant
            i <= list@.len(),
            *list == *old(list),
            sorted@ == sorted_by_key(list@.take(i as int)),
        decreases list@.len() - i,
    {
        assert(list@.take(i + 1).drop_last() =~= list@.take(i as int));
        insert_entry(&mut sorted, list[i]);
        i += 1;
    }
    assert(list@.take(i as int) =~= list@);
    assert(list@.push(e).drop_last() =~= list@);
    insert_entry(&mut sorted, e);
    sorted.truncate(MAX_SCORES);
    *list = sorted;
}

/// The high scores of all modes.
#[derive(Debug, Clone)]
pub struct HighScoreStore {
    pub sprint: Vec<SprintEntry>,
    pub endless: Vec<EndlessEntry>,
    pub versus: Vec<VersusEntry>,
}

impl HighScoreStore {
    /// No scores yet.
    pub fn new() -> (store: HighScoreStore)
        ensures
            store.sprint@.len() == 0,
            store.endless@.len() == 0,
            store.versus@.len() == 0,
    {
        HighScoreStore { sprint: Vec::new(), endless: Vec::new(), versus: Vec::new() }
    }

    /// Takes in a sprint that ended at `date` and says whether it beats the
    /// run that headed the list: a list without runs is beaten by any run.
    pub fn add_sprint(
        &mut self,
        time_ms: u64,
        lines: u32,
        pieces: u32,
        date: i64,
    ) -> (is_best: bool)
        ensures
            is_best == (old(self).sprint@.len() == 0 || time_ms < old(self).sprint@[0].time_ms),
            final(self).sprint@ == with_entry(
                old(self).sprint@,
                SprintEntry { time_ms, lines, pieces, date },
            ),
            final(self).endless == old(self).endless,
            final(self).versus == old(self).versus,
    {
        let entry = SprintEntry { time_ms, lines, pieces, date };
        let is_best = self.sprint.len() == 0 || time_ms < self.sprint[0].time_ms;
        add_entry(&mut self.sprint, entry);
        is_best
    }

    /// Takes in a marathon that ended at `date` and says whether it beats
    /// the run that headed the list.
    pub fn add_endless(&mut self, score: u64, level: u32, lines: u32, date: i64) -> (is_best: bool)
        ensures
            is_best == (old(self).endless@.len() == 0 || score > old(self).endless@[0].score),
            final(self).endless@ == with_entry(
                old(self).endless@,
                EndlessEntry { score, level, lines, date },
            ),
            final(self).sprint == old(self).sprint,
            final(self).versus == old(self).versus,
    {
        let entry = EndlessEntry { score, level, lines, date };
        let is_best = self.endless.len() == 0 || score > self.endless[0].score;
        add_entry(&mut self.endless, entry);
        is_best
    }

    /// Takes in a game against the computer that ended at `date` and says
    /// whether it beats the run that headed the list: a win beats a loss.
    pub fn add_versus(
        &mut self,
        won: bool,
        difficulty: Option<AiDifficulty>,
        time_ms: u64,
        damage_sent: u32,
        date: i64,
    ) -> (is_best: bool)
        ensures
            is_best == (old(self).versus@.len() == 0 || (won && !old(self).versus@[0].won)),
            final(self).versus@ == with_entry(
                old(self).versus@,
                VersusEntry { won, difficulty, time_ms, damage_sent, date },
            ),
            final(self).sprint == old(self).sprint,
            final(self).endless == old(self).endless,
    {
        let entry = VersusEntry { won, difficulty, time_ms, damage_sent, date };
        let is_best = self.versus.len() == 0 || (won && !self.versus[0].won);
        add_entry(&mut self.versus, entry);
        is_best
    }
}

} // verus!
