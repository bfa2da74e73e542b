use vstd::prelude::*;
use crate::roll::{Dice, all_rollable, sides_total};

verus! {

/// How the rolls of a check are combined.
#[derive(Debug, Clone, Copy, PartialEq, Eq, Structural)]
pub enum RollStatus {
    /// Roll twice and keep the highest.
    Advantage,
    /// Roll twice and keep the lowest.
    Disadvantage,
    /// Roll once.
    Normal,
}

/// Highest value of a non-empty sequence.
pub open spec fn seq_max(s: Seq<u64>) -> u64
    decreases s.len(),
{
    if s.len() <= 1 {
        s[0]
    } else if s.last() > seq_max(s.drop_last()) {
        s.last()
    } else {
        seq_max(s.drop_last())
    }
}

/// Lowest value of a non-empty sequence.
pub open spec fn seq_min(s: Seq<u64>) -> u64
    decreases s.len(),
{
    if s.len() <= 1 {
        s[0]
    } else if s.last() < seq_min(s.drop_last()) {
        s.last()
    } else {
        seq_min(s.drop_last())
    }
}

/// The roll that counts: the lowest with disadvantage, else the highest.
pub open spec fn selected_roll(rolls: Seq<u64>, status: RollStatus) -> u64 {
    match status {
        RollStatus::Disadvantage => seq_min(rolls),
        _ => seq_max(rolls),
    }
}

/// A difficulty class: a roll at or above it succeeds.
#[derive(Debug, Clone)]
pub struct DifficultyClass {
    dc: u64,
}

/// The outcome of a check against a difficulty class.
#[derive(Debug, Clone)]
pub struct DifficultyClassResult {
    /// Whether the roll was a success or not.
    pub success: bool,
    /// The difficulty class that was rolled against.
    pub dc: u64,
    /// The selected roll based on the roll status and number of rolls.
    pub roll: u64,
    /// The roll status that was used.
    pub roll_status: RollStatus,
    /// The rolls that were made.
    pub rolls_made: Vec<u64>,
}

impl DifficultyClass {
    /// The value a roll must reach.
    pub closed spec fn target(&self) -> u64 {
        self.dc
    }

    /// `r` is the outcome of checking `rolls` with `status` against this class.
    pub open spec fn judged(&self, rolls: Seq<u64>, status: RollStatus, r: DifficultyClassResult) -> bool {
        &&& r.rolls_made@ == rolls
        &&& r.roll == selected_roll(rolls, status)
        &&& r.success == (r.roll >= self.target())
        &&& r.dc == self.target()
        &&& r.roll_status == status
    }

    /// A class that rolls of `dc` or more meet.
    pub fn new(dc: u64) -> (r: Self)
        ensures
            r.target() == dc,
    {
        DifficultyClass { dc }
    }

    /// The value a roll must reach.
    pub fn dc(&self) -> (r: u64)
        ensures
            r == self.target(),
    {
        self.dc
    }

    /// Rolls the dice once and checks the total.
    pub fn roll(&self, dice: Dice) -> (r: DifficultyClassResult)
        requires
            all_rollable(dice.sides_view()),
            sides_total(dice.sides_view()) <= u64::MAX,
        ensures
            self.judged(r.rolls_made@, RollStatus::Normal, r),
            r.rolls_made@.len() == 1,
            dice.members().len() <= r.roll <= sides_total(dice.sides_view()),
    {
        let total = dice.roll();
        self.check(total, RollStatus::Normal)
    }

    /// Rolls the dice twice and keeps the higher total.
    pub fn roll_with_advantage(&self, dice: Dice) -> (r: DifficultyClassResult)
        requires
            all_rollable(dice.sides_view()),
            sides_total(dice.sides_view()) <= u64::MAX,
        ensures
            self.judged(r.rolls_made@, RollStatus::Advantage, r),
            r.rolls_made@.len() == 2,
            forall|i: int| 0 <= i < 2 ==> dice.members().len() <= #[trigger] r.rolls_made@[i] <= sides_total(dice.sides_view()),
    {
        self.roll_twice(dice, RollStatus::Advantage)
    }

    /// Rolls the dice twice and keeps the lower total.
    pub fn roll_with_disadvantage(&self, dice: Dice) -> (r: DifficultyClassResult)
        requires
            all_rollable(dice.sides_view()),
            sides_total(dice.sides_view()) <= u64::MAX,
        ensures
            self.judged(r.rolls_made@, RollStatus::Disadvantage, r),
            r.rolls_made@.len() == 2,
            forall|i: int| 0 <= i < 2 ==> dice.members().len() <= #[trigger] r.rolls_made@[i] <= sides_total(dice.sides_view()),
    {
        self.roll_twice(dice, RollStatus::Disadvantage)
    }

    /// Rolls the dice `amount` times and checks the rolls with `status`.
    pub fn roll_many(&self, dice: Dice, amount: u8, status: RollStatus) -> (r: DifficultyClassResult)
        requires
            amount >= 1,
            all_rollable(dice.sides_view()),
            sides_total(dice.sides_view()) <= u64::MAX,
        ensures
            self.judged(r.rolls_made@, status, r),
            r.rolls_made@.len() == amount,
            forall|i: int| 0 <= i < amount ==> dice.members().len() <= #[trigger] r.rolls_made@[i] <= sides_total(dice.sides_view()),
    {
        let mut rolls: Vec<u64> = Vec::new();
        let mut i: u8 = 0;
        while i < amount
            invariant
                i <= amount,
                rolls@.len() == i,
                all_rollable(dice.sides_view()),
                sides_total(dice.sides_view()) <= u64::MAX,
                forall|k: int| 0 <= k < i ==> dice.members().len() <= #[trigger] rolls@[k] <= sides_total(dice.sides_view()),
            decreases amount - i,
        {
            rolls.push(dice.roll());
            i += 1;
        }
        self.check_multiple(rolls, status)
    }

    fn roll_twice(&self, dice: Dice, status: RollStatus) -> (r: DifficultyClassResult)
        requires
            all_rollable(dice.sides_view()),
            sides_total(dice.sides_view()) <= u64::MAX,
        ensures
            self.judged(r.rolls_made@, status, r),
            r.rolls_made@.len() == 2,
            forall|i: int| 0 <= i < 2 ==> dice.members().len() <= #[trigger] r.rolls_made@[i] <= sides_total(dice.sides_view()),
    {
        let first = dice.roll();
        let second = dice.roll();
        let mut rolls: Vec<u64> = Vec::new();
        rolls.push(first);
        rolls.push(second);
        self.check_multiple(rolls, status)
    }

    /// Checks a single roll with `status`.
    pub fn check(&self, roll: u64, status: RollStatus) -> (r: DifficultyClassResult)
        ensures
            self.judged(seq![roll], status, r),
            r.roll == roll,
    {
        let mut rolls: Vec<u64> = Vec::new();
        rolls.push(roll);
        proof {
            assert(rolls@ =~= seq![roll]);
        }
        self.check_multiple(rolls, status)
    }

    /// Checks the rolls: the highest counts, or the lowest with disadvantage.
    pub fn check_multiple(&self, rolls: Vec<u64>, status: RollStatus) -> (r: DifficultyClassResult)
        requires
            rolls@.len() >= 1,
        ensures
            self.judged(rolls@, status, r),
    {
        let mut best: u64 = rolls[0];
        let mut i: usize = 1;
        proof {
            assert(rolls@.take(1).drop_last() =~= Seq::<u64>::empty());
        }
        while i < rolls.len()
            invariant
                1 <= i <= rolls@.len(),
                best == selected_roll(rolls@.take(i as int), status),
            decreases rolls@.len() - i,
        {
            proof {
                assert(rolls@.take(i + 1).drop_last() =~= rolls@.take(i as int));
            }
            match status {
                RollStatus::Disadvantage => {
                    if rolls[i] < best {
                        best = rolls[i];
                    }
                },
                _ => {
                    if rolls[i] > best {
                        best = rolls[i];
                    }
                },
            }
            i += 1;
        }
        proof {
            assert(rolls@.take(i as int) =~= rolls@);
        }
        DifficultyClassResult {
            success: self.is_success(best),
            dc: self.dc,
            roll: best,
            roll_status: status,
            rolls_made: rolls,
        }
    }

    /// Whether `roll` meets the class.
    pub fn is_success(&self, roll: u64) -> (r: bool)
        ensures
            r == (roll >= self.target()),
    {
        roll >= self.dc
    }
}

} // verus!
