//! The per-player economy tallies of a peer-to-peer session.

use vstd::prelude::*;

use crate::player::Player;

verus! {

/// Counted economy and spent points, per player: Red in slot 0, Blue in
/// slot 1.
#[derive(Copy, Clone, PartialEq, Eq, Debug)]
pub struct FarmCounter {
    pub counts: [usize; 2],
    pub points: [usize; 2],
}

impl Default for FarmCounter {
    fn default() -> (r: FarmCounter)
        ensures
            r.counts[0] == 0 && r.counts[1] == 0,
            r.points[0] == 0 && r.points[1] == 0,
    {
        FarmCounter { counts: [0, 0], points: [0, 0] }
    }
}

impl FarmCounter {
    /// Nothing spent exceeds what was counted.
    pub open spec fn wf(self) -> bool {
        &&& self.points[0] <= self.counts[0]
        &&& self.points[1] <= self.counts[1]
    }

    /// What `player` may still spend.
    pub fn available_farms(&self, player: Player) -> (r: usize)
        requires
            self.wf(),
        ensures
            r == self.counts[player.spec_index()] - self.points[player.spec_index()],
    {
        self.counts[player.index()] - self.points[player.index()]
    }
}

} // verus!
