//! The seven-bag randomizer: shapes come in shuffled bags of all seven, so
//! that each shape appears once in every seven draws, and a second bag is
//! always ready so that the preview never runs dry.

use vstd::prelude::*;
use rand::rngs::ThreadRng;
use super::piece::{all_piece_types, PieceType};
use crate::rng;

verus! {

/// Whether `s` holds each of the seven shapes exactly once.
pub open spec fn is_full_bag(s: Seq<PieceType>) -> bool {
    s.to_multiset() == all_piece_types().to_multiset()
}

/// A full bag has seven shapes, all different.
pub proof fn lemma_full_bag(s: Seq<PieceType>)
    requires
        is_full_bag(s),
    ensures
        s.len() == 7,
        s.no_duplicates(),
        forall|t: PieceType| s.contains(t),
{
    let all = all_piece_types();
    s.to_multiset_ensures();
    all.to_multiset_ensures();
    assert(all.len() == 7);
    assert(all.no_duplicates());
    all.lemma_multiset_has_no_duplicates();
    assert forall|t: PieceType| s.contains(t) by {
        assert(all[0] == PieceType::I && all[1] == PieceType::O && all[2] == PieceType::T
            && all[3] == PieceType::S && all[4] == PieceType::Z && all[5] == PieceType::J
            && all[6] == PieceType::L);
        assert(all.contains(t));
        assert(all.to_multiset().count(t) > 0);
    }
    assert forall|t: PieceType| s.to_multiset().count(t) <= 1 by {
        if all.contains(t) {
        } else {
        }
    }
    s.lemma_multiset_has_no_duplicates_conv();
}

/// The source of upcoming pieces.
#[derive(Debug)]
pub struct Bag {
    /// What is left of the bag in use; the next piece is the last element.
    current: Vec<PieceType>,
    /// The bag that comes after it, in drawing order.
    next: Vec<PieceType>,
    /// How many pieces have been drawn.
    index: usize,
}

impl Bag {
    /// The pieces to come, in drawing order: what is left of the bag in use,
    /// then the whole following bag.
    pub closed spec fn upcoming(&self) -> Seq<PieceType> {
        self.current@.reverse() + self.next@
    }

    /// How many pieces are left of the bag in use.
    pub closed spec fn remaining(&self) -> nat {
        self.current@.len()
    }

    /// How many pieces have been drawn.
    pub closed spec fn drawn(&self) -> nat {
        self.index as nat
    }

    /// What holds of every bag: the bag in use holds no shape twice, and the
    /// following bag is full.
    #[verifier::type_invariant]
    pub closed spec fn wf(&self) -> bool {
        &&& self.current@.no_duplicates()
        &&& self.current@.len() <= 7
        &&& is_full_bag(self.next@)
    }

    /// A bag shows at least seven pieces ahead: first the rest of the bag in
    /// use, without repetition, then a full bag.
    pub proof fn lemma_upcoming(&self)
        requires
            self.wf(),
        ensures
            self.remaining() <= 7,
            self.upcoming().len() == self.remaining() + 7,
            self.upcoming().subrange(0, self.remaining() as int).no_duplicates(),
            is_full_bag(
                self.upcoming().subrange(self.remaining() as int, self.remaining() as int + 7),
            ),
    {
        lemma_full_bag(self.next@);
        let n = self.current@.len() as int;
        assert(self.upcoming().subrange(0, n) =~= self.current@.reverse());
        assert(self.upcoming().subrange(n, n + 7) =~= self.next@);
    }

    /// Two freshly shuffled bags.
    pub fn new(rng: &mut ThreadRng) -> (bag: Bag)
        ensures
            bag.remaining() == 7,
            bag.drawn() == 0,
    {
        let first = Self::new_bag(rng);
        let next = Self::new_bag(rng);
        let current = reversed(first);
        proof {
            lemma_full_bag(first@);
            lemma_reverse_no_duplicates(first@);
        }
        Bag { current, next, index: 0 }
    }

    /// One bag of all seven shapes in random order.
    fn new_bag(rng: &mut ThreadRng) -> (bag: Vec<PieceType>)
        ensures
            is_full_bag(bag@),
    {
        let mut bag: Vec<PieceType> = Vec::new();
        let mut i: usize = 0;
        while i < 7
            invariant
                i <= 7,
                bag@ == all_piece_types().subrange(0, i as int),
            decreases 7 - i,
        {
            bag.push(PieceType::ALL[i]);
            assert(bag@ =~= all_piece_types().subrange(0, i + 1));
            i += 1;
        }
        assert(bag@ =~= all_piece_types());
        rng::shuffle(&mut bag, rng);
        bag
    }

    /// Draws the next piece. When the bag in use is used up, the following
    /// bag takes its place and a freshly shuffled one follows it.
    pub fn next(&mut self, rng: &mut ThreadRng) -> (piece: PieceType)
        requires
            old(self).drawn() < usize::MAX,
        ensures
            piece == old(self).upcoming()[0],
            final(self).drawn() == old(self).drawn() + 1,
            final(self).remaining() == if old(self).remaining() > 0 {
                old(self).remaining() - 1
            } else {
                6
            },
            final(self).upcoming().subrange(0, old(self).upcoming().len() - 1) == old(
                self,
            ).upcoming().drop_first(),
    {
        proof {
            use_type_invariant(&*self);
            lemma_full_bag(self.next@);
        }
        if self.current.len() == 0 {
            let fresh = Self::new_bag(rng);
            proof {
                lemma_full_bag(fresh@);
            }
            self.swap_in(fresh)
        } else {
            self.index += 1;
            let mut rest: Vec<PieceType> = Vec::new();
            std::mem::swap(&mut self.current, &mut rest);
            let ghost before = rest@;
            let piece = rest.pop().unwrap();
            proof {
                assert(rest@ == before.drop_last());
                assert(before.reverse()[0] == piece);
                assert(rest@.reverse() =~= before.reverse().drop_first());
                assert(rest@.no_duplicates());
            }
            self.current = rest;
            proof {
                assert(self.upcoming().subrange(0, old(self).upcoming().len() - 1) =~= old(
                    self,
                ).upcoming().drop_first());
            }
            piece
        }
    }

    /// Draws the next piece from a bag whose bag in use is used up: the
    /// following bag takes its place, `fresh` follows it, and the first piece
    /// of the new bag in use is drawn.
    pub fn swap_in(&mut self, fresh: Vec<PieceType>) -> (piece: PieceType)
        requires
            old(self).remaining() == 0,
            old(self).drawn() < usize::MAX,
            is_full_bag(fresh@),
        ensures
            piece == old(self).upcoming()[0],
            final(self).drawn() == old(self).drawn() + 1,
            final(self).remaining() == 6,
            final(self).upcoming() == old(self).upcoming().drop_first() + fresh@,
    {
        proof {
            use_type_invariant(&*self);
            lemma_full_bag(self.next@);
            lemma_reverse_no_duplicates(self.next@);
        }
        self.index += 1;
        let mut incoming = fresh;
        std::mem::swap(&mut self.next, &mut incoming);
        let ghost opened = incoming@;
        let mut rest = reversed(incoming);
        let ghost before = rest@;
        let piece = rest.pop().unwrap();
        proof {
            assert(old(self).upcoming() =~= opened);
            assert(rest@ == before.drop_last());
            assert(rest@.reverse() =~= opened.drop_first());
            assert(rest@.no_duplicates());
        }
        self.current = rest;
        proof {
            assert(self.upcoming() =~= old(self).upcoming().drop_first() + fresh@);
        }
        piece
    }

    /// The next `count` pieces in drawing order, or all that the two bags
    /// hold if that is fewer; the two bags always hold at least seven.
    pub fn peek(&self, count: usize) -> (preview: Vec<PieceType>)
        ensures
            self.upcoming().len() >= 7,
            preview@ == self.upcoming().take(
                if count <= self.upcoming().len() {
                    count as int
                } else {
                    self.upcoming().len() as int
                },
            ),
    {
        proof {
            use_type_invariant(self);
            self.lemma_upcoming();
        }
        let mut result: Vec<PieceType> = Vec::new();
        let current_len = self.current.len();
        let next_len = self.next.len();
        let mut i: usize = 0;
        while i < count && (i < current_len || i - current_len < next_len)
            invariant
                current_len == self.current@.len(),
                next_len == self.next@.len(),
                i <= count,
                i <= self.upcoming().len(),
                result@ == self.upcoming().take(i as int),
            decreases count - i,
        {
            if i < current_len {
                result.push(self.current[current_len - 1 - i]);
            } else {
                result.push(self.next[i - current_len]);
            }
            assert(result@ =~= self.upcoming().take(i + 1));
            i += 1;
        }
        result
    }

    /// How many pieces have been drawn so far.
    pub fn pieces_drawn(&self) -> (count: usize)
        ensures
            count == self.drawn(),
    {
        self.index
    }
}

/// The elements of `v` in the opposite order.
fn reversed(v: Vec<PieceType>) -> (r: Vec<PieceType>)
    ensures
        r@ == v@.reverse(),
{
    let mut r: Vec<PieceType> = Vec::new();
    let mut i: usize = v.len();
    while i > 0
        invariant
            i <= v@.len(),
            r@.len() == v@.len() - i,
            forall|k: int| 0 <= k < r@.len() ==> r@[k] == v@[v@.len() - 1 - k],
        decreases i,
    {
        i -= 1;
        r.push(v[i]);
    }
    assert(r@ =~= v@.reverse());
    r
}

/// Reversing a sequence without repetition gives one without repetition.
proof fn lemma_reverse_no_duplicates(s: Seq<PieceType>)
    requires
        s.no_duplicates(),
    ensures
        s.reverse().no_duplicates(),
{
    assert forall|i: int, j: int|
        0 <= i < s.reverse().len() && 0 <= j < s.reverse().len() && i != j implies s.reverse()[i]
        != s.reverse()[j] by {
        assert(s.reverse()[i] == s[s.len() - 1 - i]);
        assert(s.reverse()[j] == s[s.len() - 1 - j]);
    }
}

} // verus!
