use vstd::prelude::*;
use crate::affinity::Affinity;

verus! {

/// Rock, paper, scissors.
#[derive(Debug, Clone, Copy, PartialEq, Eq, Structural)]
pub enum RockPaperScissors {
    Rock,
    Paper,
    Scissors,
}

/// Each shape loses to exactly one other: rock to paper, paper to
/// scissors, scissors to rock.
pub open spec fn rps_weak(a: RockPaperScissors, b: RockPaperScissors) -> bool {
    match a {
        RockPaperScissors::Rock => b == RockPaperScissors::Paper,
        RockPaperScissors::Paper => b == RockPaperScissors::Scissors,
        RockPaperScissors::Scissors => b == RockPaperScissors::Rock,
    }
}

/// A shape beats another when they differ and it does not lose to it.
pub open spec fn rps_strong(a: RockPaperScissors, b: RockPaperScissors) -> bool {
    a != b && !rps_weak(a, b)
}

impl Affinity for RockPaperScissors {
    fn weak_against(&self, other: &Self) -> (r: bool)
        ensures
            r == rps_weak(*self, *other),
    {
        match self {
            RockPaperScissors::Rock => *other == RockPaperScissors::Paper,
            RockPaperScissors::Paper => *other == RockPaperScissors::Scissors,
            RockPaperScissors::Scissors => *other == RockPaperScissors::Rock,
        }
    }

    fn strong_against(&self, other: &Self) -> (r: bool)
        ensures
            r == rps_strong(*self, *other),
    {
        if *self == *other {
            return false;
        }
        !self.weak_against(other)
    }
}

/// Between two different shapes exactly one beats the other, and no shape
/// beats itself.
pub proof fn lemma_rps_one_winner(a: RockPaperScissors, b: RockPaperScissors)
    ensures
        a != b ==> (rps_strong(a, b) <==> !rps_strong(b, a)),
        !rps_strong(a, a),
{
}

} // verus!
