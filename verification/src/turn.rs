use crate::player::Player;
use vstd::prelude::*;

verus! {

/// The model of a [`Turn`]: the round counter and the name of the player to
/// move, if play has begun.
pub struct TurnView {
    pub round: nat,
    pub player: Option<Seq<char>>,
}

/// Whose move it is, and in which round.
pub struct Turn<'a> {
    round: usize,
    player: Option<&'a Player>,
}

impl<'a> View for Turn<'a> {
    type V = TurnView;

    closed spec fn view(&self) -> TurnView {
        TurnView {
            round: self.round as nat,
            player: match self.player {
                Some(player) => Some(player@),
                None => None,
            },
        }
    }
}

impl<'a> Turn<'a> {
    /// A turn before play: round 0 and nobody to move.
    pub fn new() -> (turn: Turn<'a>)
        ensures
            turn@ == (TurnView { round: 0, player: None }),
    {
        Turn { round: 0, player: None }
    }

    pub fn player(&self) -> (player: Option<&'a Player>)
        ensures
            match player {
                Some(p) => self@.player == Some(p@),
                None => self@.player is None,
            },
    {
        self.player
    }

    pub fn round(&self) -> (round: &usize)
        ensures
            *round == self@.round,
    {
        &self.round
    }

    /// Hands the move to `player`. The round is left as it is.
    pub fn change(&mut self, player: &'a Player)
        ensures
            final(self)@ == (TurnView { round: old(self)@.round, player: Some(player@) }),
    {
        self.player = Some(player)
    }
}

} // verus!
