//! The two players and the turn-taking toggle between them.

use vstd::prelude::*;

verus! {

/// One of the two players. X always moves first in a fresh game.
#[derive(Clone, Copy, PartialEq, Eq, Structural, Debug)]
pub enum Player {
    X,
    O,
}

/// The player who moves after `p`: the two players alternate.
pub open spec fn spec_next(p: Player) -> Player {
    match p {
        Player::X => Player::O,
        Player::O => Player::X,
    }
}

impl Player {
    /// The one-character label of the player.
    pub fn symbol(&self) -> (r: &'static str)
        ensures
            *self is X ==> r@ == "X"@,
            *self is O ==> r@ == "O"@,
    {
        match self {
            Player::X => "X",
            Player::O => "O",
        }
    }

    /// The opposing player, who takes the next turn.
    pub fn next(&self) -> (r: Player)
        ensures
            r == spec_next(*self),
            r != *self,
    {
        match self {
            Player::X => Player::O,
            Player::O => Player::X,
        }
    }
}

/// Toggling the player twice returns the player one started with.
pub proof fn lemma_next_involution(p: Player)
    ensures
        spec_next(spec_next(p)) == p,
{
}

} // verus!
