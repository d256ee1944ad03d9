use rand::rngs::StdRng;
use rand::Rng;
use vstd::prelude::*;

verus! {

/// `rand::rngs::StdRng`, the seedable generator that every roll draws from.
/// Nothing is known of its state.
#[verifier::external_type_specification]
#[verifier::external_body]
pub struct ExStdRng(StdRng);

/// The lowest face of a die. It is also the joker.
pub const JOKER: u8 = 1;

/// The highest face of a die.
pub const HIGHEST_FACE: u8 = 6;

/// Whether `face` is one of the six faces of a die.
pub open spec fn is_face(face: u8) -> bool {
    JOKER <= face <= HIGHEST_FACE
}

/// One die, showing `face`.
#[derive(Debug, Clone, Copy, PartialEq, Eq, Structural)]
pub struct Die {
    pub face: u8,
}

/// `rand::Rng::random_range` on the inclusive range `low..=high`. Trusted:
/// the value drawn lies in the range. Which value it is depends on the
/// generator, so nothing more is said.
#[verifier::external_body]
fn random_in(rng: &mut StdRng, low: u8, high: u8) -> (drawn: u8)
    requires
        low <= high,
    ensures
        low <= drawn <= high,
{
    rng.random_range(low..=high)
}

impl Die {
    /// A die is valid when it shows one of the six faces.
    pub open spec fn is_valid(self) -> bool {
        is_face(self.face)
    }

    /// Rolls a die: draws one of the six faces from `rng`.
    pub fn roll(rng: &mut StdRng) -> (die: Self)
        ensures
            die.is_valid(),
    {
        Die { face: random_in(rng, JOKER, HIGHEST_FACE) }
    }
}

} // verus!
