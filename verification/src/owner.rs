//! Who a body or a ship belongs to.

use vstd::prelude::*;

verus! {

/// The owner of a body or a ship: nobody, or the player in a given slot.
/// Slot 0 is the human player.
#[derive(Clone, Copy, Debug, PartialEq, Eq, Hash, Structural)]
pub enum OwnedBy {
    Neutral,
    Player(usize),
}

impl OwnedBy {
    /// The human player.
    pub open spec fn human() -> OwnedBy {
        OwnedBy::Player(0)
    }

    /// Whether this is the human player.
    pub fn is_human(&self) -> (b: bool)
        ensures
            b == (*self == OwnedBy::human()),
    {
        match self {
            OwnedBy::Player(slot) => *slot == 0,
            OwnedBy::Neutral => false,
        }
    }
}

} // verus!
