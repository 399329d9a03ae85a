//! The turn holder of a peer-to-peer session.

use vstd::prelude::*;

use crate::player::Player;

verus! {

/// Whose move it is; Red moves first.
#[derive(Copy, Clone, PartialEq, Eq, Structural, Debug)]
pub struct TurnCounter {
    turn: Player,
}

impl TurnCounter {
    /// A fresh counter: Red to move.
    pub fn new() -> (r: TurnCounter)
        ensures
            r.spec_player() == Player::Red,
    {
        TurnCounter { turn: Player::Red }
    }

    /// Pass the turn to the other player.
    pub fn next(&mut self)
        ensures
            final(self).spec_player() == old(self).spec_player().spec_other(),
    {
        self.turn = self.turn.other();
    }

    /// Whose move it is.
    pub fn player(&self) -> (r: Player)
        ensures
            r == self.spec_player(),
    {
        self.turn
    }

    /// Spec view of the turn holder.
    pub closed spec fn spec_player(self) -> Player {
        self.turn
    }
}

} // verus!
