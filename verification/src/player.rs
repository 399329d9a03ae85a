//! The two players of a match.

use vstd::prelude::*;

verus! {

/// One of the two sides.  Red moves first and owns the lower-left base; Blue
/// owns the upper-right one.
#[derive(Copy, Clone, PartialEq, Eq, Structural, Debug, Hash)]
pub enum Player {
    Red,
    Blue,
}

impl Player {
    /// The opponent of `self`.
    pub fn other(&self) -> (r: Player)
        ensures
            r == self.spec_other(),
    {
        match self {
            Player::Red => Player::Blue,
            Player::Blue => Player::Red,
        }
    }

    /// Spec view of `other`.
    pub open spec fn spec_other(self) -> Player {
        match self {
            Player::Red => Player::Blue,
            Player::Blue => Player::Red,
        }
    }

    /// Index of this player into the per-player `[_; 2]` tallies.
    pub fn index(&self) -> (r: usize)
        ensures
            r == self.spec_index(),
    {
        match self {
            Player::Red => 0,
            Player::Blue => 1,
        }
    }

    /// Spec view of `index`: Red is slot 0, Blue is slot 1.
    pub open spec fn spec_index(self) -> int {
        match self {
            Player::Red => 0,
            Player::Blue => 1,
        }
    }
}

impl Default for Player {
    /// Red is the default: placement and play both start with Red.
    fn default() -> (r: Player)
        ensures
            r == Player::Red,
    {
        Player::Red
    }
}

} // verus!
