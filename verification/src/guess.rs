use crate::die::{is_face, HIGHEST_FACE, JOKER};
use vstd::prelude::*;

verus! {

/// A bid: the claim that at least `number` dice, over all hands, show `face`.
#[derive(Debug, Clone, Copy, PartialEq, Eq, Structural)]
pub struct Guess {
    pub number: u8,
    pub face: u8,
}

/// The rule that a refused raise breaks.
#[derive(Debug, Clone, Copy, PartialEq, Eq, Structural)]
pub enum InvalidBid {
    /// The face is none of the six faces of a die.
    Face,
    /// No joker is bid on, and the raise lifts neither the number above
    /// `benchmark` nor the face.
    NotIncreased { benchmark: u8 },
    /// Jokers are bid on, the raise stays on jokers and does not lift the
    /// number.
    JokerNumber,
    /// Jokers are bid on, the raise leaves them, and twice the number bid
    /// reaches the face raised to.
    JokerDouble,
}

impl Guess {
    /// The number that a raise to `face` has to exceed while no joker is bid
    /// on: the number bid, or half of it, rounded up, for a raise to the joker.
    pub open spec fn benchmark(self, face: u8) -> int {
        if face == JOKER {
            (self.number + 1) / 2
        } else {
            self.number as int
        }
    }

    /// The rule that a raise from `self` to `next` breaks, if it breaks one.
    ///
    /// A raise away from a joker bid is held against the face raised to, not
    /// against the number: it is refused when twice the number bid is at
    /// least that face. One would expect such a raise to need more than
    /// twice the number bid. Whether the rule is meant as it stands is an
    /// open question; until it is settled, the rule is kept as it stands.
    pub open spec fn objection(self, next: Guess) -> Option<InvalidBid> {
        if !is_face(next.face) {
            Some(InvalidBid::Face)
        } else if self.face != JOKER {
            if next.number > self.benchmark(next.face) || next.face > self.face {
                None
            } else {
                Some(InvalidBid::NotIncreased { benchmark: self.benchmark(next.face) as u8 })
            }
        } else if next.face == JOKER {
            if next.number > self.number {
                None
            } else {
                Some(InvalidBid::JokerNumber)
            }
        } else {
            if 2 * self.number >= next.face {
                Some(InvalidBid::JokerDouble)
            } else {
                None
            }
        }
    }

    /// The verdict on a raise from `self` to `next`: it is allowed, or it
    /// breaks a rule.
    pub open spec fn verdict(self, next: Guess) -> Result<(), InvalidBid> {
        match self.objection(next) {
            None => Ok(()),
            Some(broken) => Err(broken),
        }
    }

    /// The bid on `number` dice that show `face`.
    pub fn new(number: u8, face: u8) -> (guess: Self)
        ensures
            guess == (Guess { number, face }),
    {
        Self { number, face }
    }

    /// The bid that opens every round: no die at all, on the joker.
    pub fn start() -> (guess: Self)
        ensures
            guess == (Guess { number: 0, face: JOKER }),
    {
        Self { number: 0, face: JOKER }
    }

    /// Decides whether `next` may follow `self`, and names the rule broken if
    /// it may not. The verdict depends on the four numbers of the two bids
    /// and on nothing else.
    pub fn check_raise(&self, next: &Guess) -> (verdict: Result<(), InvalidBid>)
        ensures
            verdict == self.verdict(*next),
    {
        if next.face < JOKER || next.face > HIGHEST_FACE {
            return Err(InvalidBid::Face);
        }
        if self.face != JOKER {
            let benchmark: u8 = if next.face == JOKER {
                self.number / 2 + self.number % 2
            } else {
                self.number
            };
            if benchmark < next.number || self.face < next.face {
                Ok(())
            } else {
                Err(InvalidBid::NotIncreased { benchmark })
            }
        } else if next.face == JOKER {
            if self.number < next.number {
                Ok(())
            } else {
                Err(InvalidBid::JokerNumber)
            }
        } else {
            if self.number >= 128 || 2 * self.number >= next.face {
                Err(InvalidBid::JokerDouble)
            } else {
                Ok(())
            }
        }
    }
}

} // verus!
