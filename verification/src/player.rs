//! The two players.

use vstd::prelude::*;

verus! {

/// One of the two sides. `X` opens every game.
#[derive(Clone, Copy, Debug, PartialEq, Eq, Structural)]
pub enum Player {
    X,
    O,
}

impl Player {
    /// The side that moves after `self`.
    pub open spec fn spec_opponent(self) -> Player {
        match self {
            Player::X => Player::O,
            Player::O => Player::X,
        }
    }

    /// The letter that stands for this player, as a sequence of characters.
    pub open spec fn spec_text(self) -> Seq<char> {
        match self {
            Player::X => seq!['X'],
            Player::O => seq!['O'],
        }
    }

    /// The side that moves after `self`.
    #[verifier::when_used_as_spec(spec_opponent)]
    pub fn opponent(self) -> (other: Player)
        ensures
            other == self.spec_opponent(),
    {
        match self {
            Player::X => Player::O,
            Player::O => Player::X,
        }
    }

    /// The letter shown for this player: `"X"` or `"O"`.
    pub fn text(self) -> (shown: &'static str)
        ensures
            shown@ == self.spec_text(),
    {
        proof {
            reveal_strlit("X");
            reveal_strlit("O");
        }
        match self {
            Player::X => {
                assert("X"@ =~= seq!['X']);
                "X"
            },
            Player::O => {
                assert("O"@ =~= seq!['O']);
                "O"
            },
        }
    }
}

/// Taking the opponent twice gives the player back, and never the player itself once.
pub proof fn lemma_opponent_involution(p: Player)
    ensures
        p.spec_opponent().spec_opponent() == p,
        p.spec_opponent() != p,
{
}

} // verus!
