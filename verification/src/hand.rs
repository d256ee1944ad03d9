use crate::die::{is_face, Die, JOKER};
use rand::rngs::StdRng;
use vstd::prelude::*;

verus! {

/// The dice that one player holds.
#[derive(Debug, Clone)]
pub struct Hand {
    pub dice: Vec<Die>,
}

impl View for Hand {
    type V = Seq<u8>;

    /// The faces of the dice, in the order in which they are held.
    open spec fn view(&self) -> Seq<u8> {
        Seq::new(self.dice@.len(), |i: int| self.dice@[i].face)
    }
}

/// Whether every entry of `faces` is one of the six faces of a die.
pub open spec fn all_faces(faces: Seq<u8>) -> bool {
    forall|i: int| 0 <= i < faces.len() ==> is_face(#[trigger] faces[i])
}

/// A fresh hand: `size` dice that all show the joker.
pub open spec fn fresh(size: nat) -> Seq<u8> {
    Seq::new(size, |i: int| JOKER)
}

/// How many dice of `faces` count towards a bid on `face`: those that show
/// it, and the jokers. A joker is counted once, also where the bid is on
/// jokers.
pub open spec fn matching(faces: Seq<u8>, face: u8) -> nat {
    faces.to_multiset().count(face) + if face != JOKER {
        faces.to_multiset().count(JOKER)
    } else {
        0
    }
}

/// Whether a die that shows `shown` counts towards a bid on `face`.
pub open spec fn counts_for(shown: u8, face: u8) -> bool {
    shown == face || shown == JOKER
}

/// One die more in a hand is one more towards the bid if it counts towards
/// it, and none if it does not.
pub proof fn lemma_matching_push(faces: Seq<u8>, shown: u8, face: u8)
    ensures
        matching(faces.push(shown), face) == matching(faces, face) + if counts_for(shown, face) {
            1nat
        } else {
            0nat
        },
{
    broadcast use vstd::seq_lib::group_to_multiset_ensures;
    broadcast use vstd::multiset::group_multiset_axioms;

}

/// A hand without dice holds nothing that counts towards a bid.
pub proof fn lemma_matching_empty(face: u8)
    ensures
        matching(Seq::<u8>::empty(), face) == 0,
{
    broadcast use vstd::seq_lib::group_to_multiset_ensures;
    broadcast use vstd::multiset::group_multiset_axioms;

}

impl Hand {
    /// A hand of `starting_hand_size` dice that all show the joker.
    pub fn new(starting_hand_size: usize) -> (hand: Self)
        ensures
            hand@ == fresh(starting_hand_size as nat),
    {
        let mut dice: Vec<Die> = Vec::new();
        let mut n: usize = 0;
        while n < starting_hand_size
            invariant
                n <= starting_hand_size,
                dice@.len() == n,
                forall|i: int| 0 <= i < n ==> dice@[i].face == JOKER,
            decreases starting_hand_size - n,
        {
            dice.push(Die { face: JOKER });
            n += 1;
        }
        let hand = Hand { dice };
        hand
    }

    /// Rolls every die of the hand again. The hand keeps its size; the faces
    /// are whatever `rng` gives.
    pub fn roll(&mut self, rng: &mut StdRng)
        ensures
            final(self)@.len() == old(self)@.len(),
            all_faces(final(self)@),
    {
        let hand_size = self.dice.len();
        self.dice.clear();
        let mut n: usize = 0;
        while n < hand_size
            invariant
                n <= hand_size,
                self.dice@.len() == n,
                forall|i: int| 0 <= i < n ==> is_face(self.dice@[i].face),
            decreases hand_size - n,
        {
            self.dice.push(Die::roll(rng));
            n += 1;
        }
    }

    /// The faces that the dice show.
    pub fn faces(&self) -> (faces: Vec<u8>)
        ensures
            faces@ == self@,
    {
        let mut faces: Vec<u8> = Vec::new();
        let mut n: usize = 0;
        while n < self.dice.len()
            invariant
                n <= self.dice@.len(),
                faces@.len() == n,
                forall|i: int| 0 <= i < n ==> faces@[i] == self.dice@[i].face,
            decreases self.dice@.len() - n,
        {
            faces.push(self.dice[n].face);
            n += 1;
        }
        faces
    }

    /// Counts the dice that count towards a bid on `face`.
    pub fn count_matching(&self, face: u8) -> (count: usize)
        ensures
            count == matching(self@, face),
    {
        let mut count: usize = 0;
        let mut n: usize = 0;
        proof {
            assert(self@.take(0) =~= Seq::<u8>::empty());
            lemma_matching_empty(face);
        }
        while n < self.dice.len()
            invariant
                n <= self.dice@.len(),
                count <= n,
                count == matching(self@.take(n as int), face),
            decreases self.dice@.len() - n,
        {
            proof {
                assert(self@.take(n + 1) =~= self@.take(n as int).push(self@[n as int]));
                lemma_matching_push(self@.take(n as int), self@[n as int], face);
            }
            let shown = self.dice[n].face;
            if shown == face || shown == JOKER {
                count += 1;
            }
            n += 1;
        }
        assert(self@.take(n as int) =~= self@);
        count
    }

    /// Takes one die away, the last. A hand without dice stays as it is.
    pub fn lose_die(&mut self)
        ensures
            final(self)@ == if old(self)@.len() > 0 {
                old(self)@.drop_last()
            } else {
                old(self)@
            },
    {
        self.dice.pop();
    }

    /// Adds one die, showing the joker, unless the hand already holds `limit`
    /// dice or more.
    pub fn gain_die(&mut self, limit: usize)
        ensures
            final(self)@ == if old(self)@.len() < limit {
                old(self)@.push(JOKER)
            } else {
                old(self)@
            },
    {
        if self.dice.len() < limit {
            self.dice.push(Die { face: JOKER });
        }
    }
}

} // verus!
