//! The hold slot.

use vstd::prelude::*;
use super::piece::PieceType;

verus! {

/// The held shape and whether the slot was used for the piece in play.
#[derive(Debug, Clone, Copy, PartialEq, Eq, Structural)]
pub struct Hold {
    pub piece: Option<PieceType>,
    pub used_this_turn: bool,
}

impl Hold {
    /// An empty slot that has not been used.
    pub fn new() -> (hold: Hold)
        ensures
            hold == (Hold { piece: None, used_this_turn: false }),
    {
        Hold { piece: None, used_this_turn: false }
    }

    /// Puts `current` into the slot and returns what was held before. Fails,
    /// changing nothing, if the slot was already used for this piece.
    pub fn hold(&mut self, current: PieceType) -> (swapped: Result<Option<PieceType>, ()>)
        ensures
            old(self).used_this_turn ==> swapped is Err && *final(self) == *old(self),
            !old(self).used_this_turn ==> swapped == Ok::<Option<PieceType>, ()>(old(self).piece)
                && *final(self) == (Hold { piece: Some(current), used_this_turn: true }),
    {
        if self.used_this_turn {
            return Err(());
        }
        self.used_this_turn = true;
        let prev = self.piece;
        self.piece = Some(current);
        Ok(prev)
    }

    /// Frees the slot for the next piece.
    pub fn reset_turn(&mut self)
        ensures
            *final(self) == (Hold { used_this_turn: false, ..*old(self) }),
    {
        self.used_this_turn = false;
    }

    /// Empties the slot.
    pub fn reset(&mut self)
        ensures
            *final(self) == (Hold { piece: None, used_this_turn: false }),
    {
        self.piece = None;
        self.used_this_turn = false;
    }
}

} // verus!
