//! Incoming garbage: batches of lines that travel for a while, can be
//! cancelled by outgoing attack, and arrive with a gap column that mostly
//! stays where it was.

use vstd::prelude::*;
use rand::rngs::ThreadRng;
use super::board::BOARD_WIDTH;
use crate::rng;
use crate::time::Duration;

verus! {

/// Nanoseconds that a new batch travels before it arrives.
pub const TRAVEL_NANOS: u128 = 500_000_000;

/// The chance, in percent, that a garbage line gets a new gap column.
pub const DEFAULT_MESSINESS: u32 = 30;

/// Lines of garbage on their way, with the time they still travel.
#[derive(Debug, Clone, Copy, PartialEq, Eq, Structural)]
pub struct GarbageBatch {
    pub lines: u32,
    pub time_remaining: Duration,
}

/// The lines of all batches together.
pub open spec fn total_lines(q: Seq<GarbageBatch>) -> int
    decreases q.len(),
{
    if q.len() == 0 {
        0
    } else {
        total_lines(q.drop_last()) + q.last().lines
    }
}

/// The queue after `attack` lines of credit are spent on it, oldest batch
/// first: a batch that the credit covers is removed, and the batch at which
/// the credit runs out is reduced.
pub open spec fn cancelled(q: Seq<GarbageBatch>, attack: int) -> Seq<GarbageBatch>
    decreases q.len(),
{
    if attack <= 0 || q.len() == 0 {
        q
    } else if attack >= q[0].lines {
        cancelled(q.drop_first(), attack - q[0].lines)
    } else {
        q.update(0, GarbageBatch { lines: (q[0].lines - attack) as u32, ..q[0] })
    }
}

/// The credit that is left after `attack` lines are spent on the queue.
pub open spec fn leftover(q: Seq<GarbageBatch>, attack: int) -> int
    decreases q.len(),
{
    if attack <= 0 || q.len() == 0 {
        attack
    } else if attack >= q[0].lines {
        leftover(q.drop_first(), attack - q[0].lines)
    } else {
        0
    }
}

/// The batches that still travel after `dt`, each with `dt` less to go.
pub open spec fn travelling(q: Seq<GarbageBatch>, dt: Duration) -> Seq<GarbageBatch>
    decreases q.len(),
{
    if q.len() == 0 {
        q
    } else if dt@ >= q.last().time_remaining@ {
        travelling(q.drop_last(), dt)
    } else {
        travelling(q.drop_last(), dt).push(
            GarbageBatch {
                lines: q.last().lines,
                time_remaining: Duration { nanos: (q.last().time_remaining@ - dt@) as u128 },
            },
        )
    }
}

/// The lines of the batches that arrive within `dt`.
pub open spec fn arrived(q: Seq<GarbageBatch>, dt: Duration) -> int
    decreases q.len(),
{
    if q.len() == 0 {
        0
    } else if dt@ >= q.last().time_remaining@ {
        arrived(q.drop_last(), dt) + q.last().lines
    } else {
        arrived(q.drop_last(), dt)
    }
}

/// The total grows by the lines of a batch that is put in front.
pub proof fn lemma_total_front(q: Seq<GarbageBatch>)
    requires
        q.len() > 0,
    ensures
        total_lines(q) == q[0].lines + total_lines(q.drop_first()),
        total_lines(q) >= 0,
    decreases q.len(),
{
    if q.len() == 1 {
        assert(total_lines(q.drop_last()) == 0);
        assert(total_lines(q.drop_first()) == 0);
    } else {
        lemma_total_front(q.drop_last());
        assert(q.drop_last().drop_first() =~= q.drop_first().drop_last());
        assert(q.drop_first().last() == q.last());
        assert(total_lines(q.drop_first()) == total_lines(q.drop_first().drop_last())
            + q.last().lines);
    }
}

/// Cancelling consumes from the front exactly: with more credit than lines
/// pending nothing stays pending and the surplus comes back; with less, the
/// lines pending go down by the credit and nothing comes back.
pub proof fn lemma_cancel_totals(q: Seq<GarbageBatch>, attack: int)
    requires
        attack >= 0,
    ensures
        attack >= total_lines(q) ==> total_lines(cancelled(q, attack)) == 0 && leftover(q, attack)
            == attack - total_lines(q),
        attack < total_lines(q) ==> total_lines(cancelled(q, attack)) == total_lines(q) - attack
            && leftover(q, attack) == 0,
    decreases q.len(),
{
    if q.len() == 0 {
    } else {
        lemma_total_front(q);
        if attack <= 0 {
        } else if attack >= q[0].lines {
            lemma_cancel_totals(q.drop_first(), attack - q[0].lines);
        } else {
            let reduced = q.update(0, GarbageBatch { lines: (q[0].lines - attack) as u32, ..q[0] });
            lemma_total_front(reduced);
            assert(reduced.drop_first() =~= q.drop_first());
        }
    }
}

/// The lines of a queue are never negative.
pub proof fn lemma_total_nonnegative(q: Seq<GarbageBatch>)
    ensures
        total_lines(q) >= 0,
    decreases q.len(),
{
    if q.len() > 0 {
        lemma_total_nonnegative(q.drop_last());
    }
}

/// No more credit is left than was spent.
pub proof fn lemma_leftover_bound(q: Seq<GarbageBatch>, attack: int)
    requires
        attack >= 0,
    ensures
        0 <= leftover(q, attack) <= attack,
    decreases q.len(),
{
    if attack > 0 && q.len() > 0 && attack >= q[0].lines {
        lemma_leftover_bound(q.drop_first(), attack - q[0].lines);
    }
}

/// No more lines arrive than are pending.
pub proof fn lemma_arrived_bound(q: Seq<GarbageBatch>, dt: Duration)
    ensures
        0 <= arrived(q, dt) <= total_lines(q),
    decreases q.len(),
{
    if q.len() > 0 {
        lemma_arrived_bound(q.drop_last(), dt);
    }
}

/// Where the gap of the next garbage line goes.
#[derive(Debug, Clone, Copy)]
struct GapPicker {
    /// The chance, in percent, that a line gets a new gap column: 0 keeps one
    /// column for ever, 100 draws a new one for every line.
    messiness: u32,
    /// The gap column used last.
    last_gap: usize,
}

impl GapPicker {
    /// What holds of every picker: the gap column is a column of the board
    /// and the messiness a percentage.
    #[verifier::type_invariant]
    closed spec fn wf(&self) -> bool {
        self.last_gap < BOARD_WIDTH && self.messiness <= 100
    }
}

/// The garbage that is on its way to a board.
#[derive(Debug, Clone)]
pub struct GarbageQueue {
    queue: Vec<GarbageBatch>,
    /// How long a new batch travels.
    travel_time: Duration,
    gaps: GapPicker,
}

impl View for GarbageQueue {
    type V = Seq<GarbageBatch>;

    closed spec fn view(&self) -> Seq<GarbageBatch> {
        self.queue@
    }
}

impl GarbageQueue {
    /// The gap column used last.
    pub closed spec fn gap(&self) -> usize {
        self.gaps.last_gap
    }

    /// How long a new batch travels.
    pub closed spec fn spec_travel_time(&self) -> Duration {
        self.travel_time
    }

    /// The chance, in percent, that a line gets a new gap column.
    pub closed spec fn spec_messiness(&self) -> u32 {
        self.gaps.messiness
    }

    /// Everything but the batches.
    pub open spec fn settings(&self) -> (Duration, u32, usize) {
        (self.spec_travel_time(), self.spec_messiness(), self.gap())
    }

    /// The lines pending.
    pub open spec fn spec_pending(&self) -> int {
        total_lines(self@)
    }

    /// An empty queue with the usual travel time and messiness, and the gap
    /// in column 4.
    pub fn new() -> (q: GarbageQueue)
        ensures
            q@ == Seq::<GarbageBatch>::empty(),
            q.travel_time()@ == TRAVEL_NANOS,
            q.messiness() == DEFAULT_MESSINESS,
            q.gap() == 4,
    {
        GarbageQueue {
            queue: Vec::new(),
            travel_time: Duration::from_nanos(TRAVEL_NANOS),
            gaps: GapPicker { messiness: DEFAULT_MESSINESS, last_gap: 4 },
        }
    }

    /// How long a new batch travels.
    #[verifier::when_used_as_spec(spec_travel_time)]
    pub fn travel_time(&self) -> (d: Duration)
        ensures
            d == self.spec_travel_time(),
    {
        self.travel_time
    }

    /// Sets how long a new batch travels.
    pub fn set_travel_time(&mut self, travel_time: Duration)
        ensures
            final(self)@ == old(self)@,
            final(self).settings() == (travel_time, old(self).messiness(), old(self).gap()),
    {
        self.travel_time = travel_time;
    }

    /// The chance, in percent, that a line gets a new gap column.
    #[verifier::when_used_as_spec(spec_messiness)]
    pub fn messiness(&self) -> (percent: u32)
        ensures
            percent == self.spec_messiness(),
            percent <= 100,
    {
        proof {
            use_type_invariant(&self.gaps);
        }
        self.gaps.messiness
    }

    /// The gap column used last, which is the column of the next gap unless
    /// a new one is drawn.
    #[verifier::when_used_as_spec(gap)]
    pub fn last_gap(&self) -> (column: usize)
        ensures
            column == self.gap(),
            column < BOARD_WIDTH,
    {
        proof {
            use_type_invariant(&self.gaps);
        }
        self.gaps.last_gap
    }

    /// Sets the chance, in percent, that a line gets a new gap column.
    pub fn set_messiness(&mut self, percent: u32)
        requires
            percent <= 100,
        ensures
            final(self)@ == old(self)@,
            final(self).settings() == (old(self).travel_time(), percent, old(self).gap()),
    {
        proof {
            use_type_invariant(&self.gaps);
        }
        self.gaps = GapPicker { messiness: percent, last_gap: self.gaps.last_gap };
    }

    /// Queues `lines` lines as a new batch with the full travel time. Zero
    /// lines queue nothing.
    pub fn add(&mut self, lines: u32)
        ensures
            final(self)@ == if lines > 0 {
                old(self)@.push(GarbageBatch { lines, time_remaining: old(self).travel_time() })
            } else {
                old(self)@
            },
            final(self).spec_pending() == old(self).spec_pending() + lines,
            final(self).settings() == old(self).settings(),
    {
        if lines > 0 {
            self.queue.push(GarbageBatch { lines, time_remaining: self.travel_time });
            assert(self.queue@.drop_last() =~= old(self).queue@);
        }
    }

    /// Spends `attack` lines of credit on the queue, oldest batch first, and
    /// returns the credit that is left once the queue is empty.
    pub fn cancel(&mut self, attack: u32) -> (rest: u32)
        ensures
            final(self)@ == cancelled(old(self)@, attack as int),
            rest == leftover(old(self)@, attack as int),
            attack >= old(self).spec_pending() ==> final(self).spec_pending() == 0 && rest
                == attack - old(self).spec_pending(),
            attack < old(self).spec_pending() ==> final(self).spec_pending() == old(
                self,
            ).spec_pending() - attack && rest == 0,
            final(self).settings() == old(self).settings(),
    {
        let mut attack = attack;
        let ghost credit = attack as int;
        while attack > 0 && self.queue.len() > 0
            invariant
                cancelled(self@, attack as int) == cancelled(old(self)@, credit),
                leftover(self@, attack as int) == leftover(old(self)@, credit),
                self.travel_time == old(self).travel_time,
                self.gaps == old(self).gaps,
            decreases self.queue@.len(), attack,
        {
            let batch = self.queue[0];
            let ghost before = self@;
            if attack >= batch.lines {
                attack -= batch.lines;
                self.queue.remove(0);
                assert(self@ =~= before.drop_first());
            } else {
                self.queue[0] = GarbageBatch { lines: batch.lines - attack, ..batch };
                attack = 0;
            }
        }
        proof {
            lemma_cancel_totals(old(self)@, credit);
        }
        attack
    }

    /// Lets `dt` pass for every batch. The batches that arrive leave the
    /// queue, and the number of their lines is returned.
    pub fn tick(&mut self, dt: Duration) -> (ready: u32)
        requires
            old(self).spec_pending() <= u32::MAX,
        ensures
            final(self)@ == travelling(old(self)@, dt),
            ready == arrived(old(self)@, dt),
            final(self).settings() == old(self).settings(),
    {
        let mut ready: u32 = 0;
        let mut kept: Vec<GarbageBatch> = Vec::new();
        let mut i: usize = 0;
        while i < self.queue.len()
            invariant
                i <= self.queue@.len(),
                *self == *old(self),
                self.spec_pending() <= u32::MAX,
                kept@ == travelling(self@.take(i as int), dt),
                ready == arrived(self@.take(i as int), dt),
            decreases self.queue@.len() - i,
        {
            let batch = self.queue[i];
            proof {
                assert(self@.take(i + 1).drop_last() =~= self@.take(i as int));
                assert(self@.take(i + 1).last() == batch);
                lemma_arrived_bound(self@.take(i + 1), dt);
                lemma_total_take(self@, i + 1);
            }
            if dt.nanos >= batch.time_remaining.nanos {
                ready += batch.lines;
            } else {
                kept.push(
                    GarbageBatch {
                        lines: batch.lines,
                        time_remaining: Duration::from_nanos(
                            batch.time_remaining.nanos - dt.nanos,
                        ),
                    },
                );
            }
            i += 1;
        }
        assert(self@.take(i as int) =~= self@);
        self.queue = kept;
        ready
    }

    /// Picks the gap column for a garbage line: with the chance that the
    /// messiness gives, a new random column; otherwise the column used last.
    pub fn gap_column(&mut self, rng: &mut ThreadRng) -> (column: usize)
        ensures
            column < BOARD_WIDTH,
            column == final(self).gap(),
            old(self).messiness() == 0 ==> column == old(self).gap(),
            final(self)@ == old(self)@,
            final(self).travel_time() == old(self).travel_time(),
            final(self).messiness() == old(self).messiness(),
    {
        proof {
            use_type_invariant(&self.gaps);
        }
        let rolled = if rng::gen_ratio(rng, self.gaps.messiness, 100) {
            Some(rng::gen_range(rng, 0, BOARD_WIDTH))
        } else {
            None
        };
        self.use_gap(rolled)
    }

    /// Takes `rolled` as the new gap column if there is one, and returns the
    /// gap column that then holds.
    pub fn use_gap(&mut self, rolled: Option<usize>) -> (column: usize)
        requires
            rolled matches Some(c) ==> c < BOARD_WIDTH,
        ensures
            column == match rolled {
                Some(c) => c,
                None => old(self).gap(),
            },
            column == final(self).gap(),
            column < BOARD_WIDTH,
            final(self)@ == old(self)@,
            final(self).travel_time() == old(self).travel_time(),
            final(self).messiness() == old(self).messiness(),
    {
        proof {
            use_type_invariant(&self.gaps);
        }
        if let Some(c) = rolled {
            self.gaps = GapPicker { messiness: self.gaps.messiness, last_gap: c };
        }
        self.gaps.last_gap
    }

    /// The lines pending in all batches together.
    pub fn pending(&self) -> (lines: u32)
        requires
            self.spec_pending() <= u32::MAX,
        ensures
            lines == self.spec_pending(),
    {
        let mut lines: u32 = 0;
        let mut i: usize = 0;
        while i < self.queue.len()
            invariant
                i <= self.queue@.len(),
                self.spec_pending() <= u32::MAX,
                lines == total_lines(self@.take(i as int)),
            decreases self.queue@.len() - i,
        {
            proof {
                assert(self@.take(i + 1).drop_last() =~= self@.take(i as int));
                lemma_total_take(self@, i + 1);
            }
            lines += self.queue[i].lines;
            i += 1;
        }
        assert(self@.take(i as int) =~= self@);
        lines
    }

    /// The lines pending in all batches together, or `None` if they are
    /// more than a `u32` holds.
    pub fn checked_pending(&self) -> (lines: Option<u32>)
        ensures
            lines matches Some(n) ==> n == self.spec_pending(),
            lines is Some <==> self.spec_pending() <= u32::MAX,
    {
        let mut lines: u32 = 0;
        let mut i: usize = 0;
        while i < self.queue.len()
            invariant
                i <= self.queue@.len(),
                lines == total_lines(self@.take(i as int)),
            decreases self.queue@.len() - i,
        {
            proof {
                assert(self@.take(i + 1).drop_last() =~= self@.take(i as int));
                lemma_total_take(self@, i + 1);
            }
            let more = self.queue[i].lines;
            if more > u32::MAX - lines {
                return None;
            }
            lines += more;
            i += 1;
        }
        assert(self@.take(i as int) =~= self@);
        Some(lines)
    }

    /// Drops everything that is pending.
    pub fn clear(&mut self)
        ensures
            final(self)@ == Seq::<GarbageBatch>::empty(),
            final(self).settings() == old(self).settings(),
    {
        self.queue.clear();
    }
}

/// The first batches of a queue hold no more lines than the whole queue.
proof fn lemma_total_take(q: Seq<GarbageBatch>, n: int)
    requires
        0 <= n <= q.len(),
    ensures
        0 <= total_lines(q.take(n)) <= total_lines(q),
    decreases q.len(),
{
    if q.len() == 0 {
        assert(q.take(n) =~= q);
    } else if n == q.len() {
        assert(q.take(n) =~= q);
        lemma_total_take(q.drop_last(), n - 1);
    } else {
        lemma_total_take(q.drop_last(), n);
        assert(q.drop_last().take(n) =~= q.take(n));
    }
}

} // verus!
