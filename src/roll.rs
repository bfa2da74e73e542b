use vstd::prelude::*;
use rand::rngs::ThreadRng;
use rand::Rng;
use std::ops::RangeInclusive;
use crate::text::{decimal, decimal_text};

verus! {

#[verifier::external_type_specification]
#[verifier::external_body]
pub struct ExThreadRng(ThreadRng);

/// Relies on rand::thread_rng: a handle to the generator of the current thread.
#[verifier::external_body]
fn thread_rng() -> ThreadRng {
    rand::thread_rng()
}

/// Relies on rand::Rng::gen_range over `low..=high`: a value drawn from that
/// range, which must not be empty (it panics on an empty range).
#[verifier::external_body]
fn gen_range_inclusive(rng: &mut ThreadRng, low: u64, high: u64) -> (r: u64)
    requires
        low <= high,
    ensures
        low <= r <= high,
{
    rng.gen_range(low..=high)
}

/// Sum of the sides of the dice: the highest total a roll can give.
pub open spec fn sides_total(s: Seq<u8>) -> int
    decreases s.len(),
{
    if s.len() == 0 {
        0
    } else {
        sides_total(s.drop_last()) + s.last()
    }
}

/// Every die has at least one side.
pub open spec fn all_rollable(s: Seq<u8>) -> bool {
    forall|i: int| 0 <= i < s.len() ==> s[i] >= 1
}

/// Smallest number of sides among the dice.
pub open spec fn fewest_sides(s: Seq<u8>) -> u8
    decreases s.len(),
{
    if s.len() <= 1 {
        if s.len() == 0 { 0 } else { s[0] }
    } else if s.last() < fewest_sides(s.drop_last()) {
        s.last()
    } else {
        fewest_sides(s.drop_last())
    }
}

/// Largest number of sides among the dice.
pub open spec fn most_sides(s: Seq<u8>) -> u8
    decreases s.len(),
{
    if s.len() == 0 {
        0
    } else if s.last() > most_sides(s.drop_last()) {
        s.last()
    } else {
        most_sides(s.drop_last())
    }
}

/// How many dice have `v` sides.
pub open spec fn count_of(s: Seq<u8>, v: int) -> nat
    decreases s.len(),
{
    if s.len() == 0 {
        0
    } else {
        count_of(s.drop_last(), v) + (if s.last() == v { 1nat } else { 0nat })
    }
}

/// `<count>d<sides>` for the dice with `v` sides.
pub open spec fn group_text(s: Seq<u8>, v: int) -> Seq<char> {
    decimal(count_of(s, v)) + "d"@ + decimal(v as nat)
}

/// One group per number of sides present, from 255 sides down to `v`.
pub open spec fn groups_down_to(s: Seq<u8>, v: int) -> Seq<Seq<char>>
    decreases 256 - v,
{
    if v > 255 || v < 0 {
        Seq::empty()
    } else if count_of(s, v) > 0 {
        groups_down_to(s, v + 1).push(group_text(s, v))
    } else {
        groups_down_to(s, v + 1)
    }
}

/// The parts, separated by a comma and a space.
pub open spec fn joined(parts: Seq<Seq<char>>) -> Seq<char>
    decreases parts.len(),
{
    if parts.len() == 0 {
        Seq::empty()
    } else if parts.len() == 1 {
        parts[0]
    } else {
        joined(parts.drop_last()) + ", "@ + parts.last()
    }
}

/// Dice notation: `0d0` for no dice, `<n>d<sides>` when all dice are alike,
/// else one group per number of sides, most sides first.
pub open spec fn notation(s: Seq<u8>) -> Seq<char> {
    if s.len() == 0 {
        "0d0"@
    } else if exists|i: int| 0 <= i < s.len() && #[trigger] s[i] != s[0] {
        joined(groups_down_to(s, 0))
    } else {
        decimal(s.len()) + "d"@ + decimal(s[0] as nat)
    }
}

/// A die with a number of sides; a roll gives 1 to that number.
#[derive(Debug, Clone, Copy)]
pub struct Die {
    sides: u8,
}

impl Die {
    /// Number of sides.
    pub closed spec fn faces(&self) -> u8 {
        self.sides
    }

    /// A die with `sides` sides.
    pub fn without_rng(sides: u8) -> (r: Self)
        ensures
            r.faces() == sides,
    {
        Die { sides }
    }

    /// A die with `sides` sides, rolled with the generator of the current thread.
    pub fn new(sides: u8) -> (r: Self)
        ensures
            r.faces() == sides,
    {
        Die { sides }
    }

    /// Number of sides.
    pub fn sides(&self) -> (r: u8)
        ensures
            r == self.faces(),
    {
        self.sides
    }

    /// The values a roll can give: `1..=sides`.
    pub fn range(&self) -> (r: RangeInclusive<u8>)
        ensures
            r@.start == 1,
            r@.end == self.faces(),
            !r@.exhausted,
    {
        RangeInclusive::new(1, self.sides)
    }

    /// A roll: 1 to the number of sides; 0 for a die without sides.
    pub fn roll(&self) -> (r: u8)
        ensures
            self.faces() == 0 ==> r == 0,
            self.faces() >= 1 ==> 1 <= r <= self.faces(),
    {
        if self.sides == 0 {
            return 0;
        }
        self.roll_with_rng(thread_rng())
    }

    /// A roll drawn from the given generator.
    pub fn roll_with_rng(&self, rng: ThreadRng) -> (r: u8)
        requires
            self.faces() >= 1,
        ensures
            1 <= r <= self.faces(),
    {
        let mut rng = rng;
        gen_range_inclusive(&mut rng, 1, self.sides as u64) as u8
    }

    /// Dice notation for one die: `1d<sides>`.
    pub fn to_string(&self) -> (r: String)
        ensures
            r@ == decimal(1) + "d"@ + decimal(self.faces() as nat),
    {
        let mut s = decimal_text(1);
        s.append("d");
        let digits = decimal_text(self.sides as u64);
        s.append(digits.as_str());
        s
    }
}

/// A collection of dice that are rolled together.
#[derive(Debug, Clone)]
pub struct Dice {
    dice: Vec<Die>,
}

impl Dice {
    /// The dice.
    pub closed spec fn members(&self) -> Seq<Die> {
        self.dice@
    }

    /// Number of sides of each die, in order.
    pub open spec fn sides_view(&self) -> Seq<u8> {
        self.members().map_values(|d: Die| d.faces())
    }

    /// `amount` dice of `sides` sides each.
    pub fn group(amount: u8, sides: u8) -> (r: Self)
        ensures
            r.members().len() == amount,
            forall|i: int| 0 <= i < amount ==> #[trigger] r.members()[i].faces() == sides,
    {
        let mut dice: Vec<Die> = Vec::new();
        let mut i: u8 = 0;
        while i < amount
            invariant
                i <= amount,
                dice@.len() == i,
                forall|k: int| 0 <= k < i ==> #[trigger] dice@[k].faces() == sides,
            decreases amount - i,
        {
            dice.push(Die::new(sides));
            i += 1;
        }
        Dice { dice }
    }

    /// `amount` dice of `sides` sides each.
    pub fn amount(amount: u8, sides: u8) -> (r: Self)
        ensures
            r.members().len() == amount,
            forall|i: int| 0 <= i < amount ==> #[trigger] r.members()[i].faces() == sides,
    {
        Self::group(amount, sides)
    }

    /// The given dice.
    pub fn new(dice: Vec<Die>) -> (r: Self)
        ensures
            r.members() == dice@,
    {
        Dice { dice }
    }

    /// A copy of the dice.
    pub fn collection(&self) -> (r: Vec<Die>)
        ensures
            r@ == self.members(),
    {
        let mut out: Vec<Die> = Vec::new();
        let mut i: usize = 0;
        while i < self.dice.len()
            invariant
                i <= self.dice@.len(),
                out@ == self.dice@.take(i as int),
            decreases self.dice@.len() - i,
        {
            out.push(self.dice[i]);
            i += 1;
            proof {
                assert(out@ =~= self.dice@.take(i as int));
            }
        }
        proof {
            assert(self.dice@.take(i as int) =~= self.dice@);
        }
        out
    }

    /// Number of dice.
    pub fn dice_count(&self) -> (r: usize)
        ensures
            r == self.members().len(),
    {
        self.dice.len()
    }

    /// Whether there are no dice.
    pub fn is_empty(&self) -> (r: bool)
        ensures
            r == (self.members().len() == 0),
    {
        self.dice.len() == 0
    }

    /// Whether the dice do not all have the same number of sides.
    pub fn is_mixed(&self) -> (r: bool)
        ensures
            r == exists|i: int|
                0 <= i < self.members().len() && #[trigger] self.members()[i].faces()
                    != self.members()[0].faces(),
    {
        if self.dice.len() == 0 {
            return false;
        }
        let first = self.dice[0].sides();
        let mut i: usize = 1;
        while i < self.dice.len()
            invariant
                1 <= i <= self.dice@.len(),
                first == self.dice@[0].faces(),
                forall|k: int| 0 <= k < i ==> #[trigger] self.dice@[k].faces() == first,
            decreases self.dice@.len() - i,
        {
            if self.dice[i].sides() != first {
                assert(self.members()[i as int].faces() != self.members()[0].faces());
                return true;
            }
            i += 1;
        }
        false
    }

    /// How many dice have `v` sides.
    fn count_sides(&self, v: u8) -> (r: usize)
        ensures
            r == count_of(self.sides_view(), v as int),
    {
        let mut count: usize = 0;
        let mut i: usize = 0;
        while i < self.dice.len()
            invariant
                i <= self.dice@.len(),
                count == count_of(self.sides_view().take(i as int), v as int),
                count <= i,
            decreases self.dice@.len() - i,
        {
            proof {
                assert(self.sides_view().take(i + 1).drop_last() =~= self.sides_view().take(i as int));
                assert(self.sides_view()[i as int] == self.dice@[i as int].faces());
            }
            if self.dice[i].sides() == v {
                count += 1;
            }
            i += 1;
        }
        proof {
            assert(self.sides_view().take(i as int) =~= self.sides_view());
        }
        count
    }

    /// Dice notation (see `notation`), such as `2d6` or `1d20, 1d8, 2d6`.
    pub fn to_string(&self) -> (r: String)
        ensures
            r@ == notation(self.sides_view()),
    {
        if self.is_empty() {
            return String::from_str("0d0");
        }
        if self.is_mixed() {
            proof {
                let s = self.sides_view();
                let i = choose|i: int| 0 <= i < self.members().len() && #[trigger] self.members()[i].faces()
                    != self.members()[0].faces();
                assert(s[i] != s[0]);
            }
            let mut out = String::new();
            let mut v: u16 = 256;
            while v > 0
                invariant
                    v <= 256,
                    out@ == joined(groups_down_to(self.sides_view(), v as int)),
                decreases v,
            {
                v -= 1;
                let count = self.count_sides(v as u8);
                if count > 0 {
                    let ghost sv = self.sides_view();
                    let ghost prev = groups_down_to(sv, v + 1);
                    let ghost part = group_text(sv, v as int);
                    proof {
                        lemma_count_bounded(sv, v as int);
                        lemma_groups_nonempty(sv, v + 1);
                        lemma_joined_empty(prev);
                        assert(prev.push(part).drop_last() =~= prev);
                    }
                    if out.unicode_len() > 0 {
                        out.append(", ");
                    }
                    let c = decimal_text(count as u64);
                    out.append(c.as_str());
                    out.append("d");
                    let d = decimal_text(v as u64);
                    out.append(d.as_str());
                    proof {
                        if prev.len() == 0 {
                            assert(out@ =~= part);
                        } else {
                            assert(out@ =~= joined(prev) + ", "@ + part);
                        }
                    }
                }
            }
            return out;
        }
        proof {
            let s = self.sides_view();
            assert forall|i: int| 0 <= i < s.len() implies #[trigger] s[i] == s[0] by {
                assert(self.members()[i].faces() == self.members()[0].faces());
            }
        }
        let mut out = decimal_text(self.dice.len() as u64);
        out.append("d");
        let d = decimal_text(self.dice[0].sides() as u64);
        out.append(d.as_str());
        out
    }

    /// Lowest and highest totals: one per die, and the sum of the sides.
    pub fn range(&self) -> (r: RangeInclusive<u64>)
        requires
            all_rollable(self.sides_view()),
            sides_total(self.sides_view()) <= u64::MAX,
        ensures
            r@.start == self.members().len(),
            r@.end == sides_total(self.sides_view()),
            !r@.exhausted,
    {
        let max = self.max_total();
        RangeInclusive::new(self.dice.len() as u64, max)
    }

    /// Sum of the sides of the dice.
    fn max_total(&self) -> (r: u64)
        requires
            sides_total(self.sides_view()) <= u64::MAX,
        ensures
            r == sides_total(self.sides_view()),
            all_rollable(self.sides_view()) ==> self.members().len() <= r,
    {
        let mut total: u64 = 0;
        let mut i: usize = 0;
        while i < self.dice.len()
            invariant
                i <= self.dice@.len(),
                sides_total(self.sides_view()) <= u64::MAX,
                total == sides_total(self.sides_view().take(i as int)),
                all_rollable(self.sides_view()) ==> i <= total,
            decreases self.dice@.len() - i,
        {
            proof {
                assert(self.sides_view().take(i + 1).drop_last() =~= self.sides_view().take(i as int));
                lemma_total_prefix(self.sides_view(), i + 1);
            }
            total = total + self.dice[i].sides() as u64;
            i += 1;
        }
        proof {
            assert(self.sides_view().take(i as int) =~= self.sides_view());
        }
        total
    }

    /// Rolls every die and returns the total.
    pub fn roll(&self) -> (r: u64)
        requires
            all_rollable(self.sides_view()),
            sides_total(self.sides_view()) <= u64::MAX,
        ensures
            self.members().len() <= r <= sides_total(self.sides_view()),
    {
        let mut added: u64 = 0;
        let mut i: usize = 0;
        while i < self.dice.len()
            invariant
                i <= self.dice@.len(),
                all_rollable(self.sides_view()),
                sides_total(self.sides_view()) <= u64::MAX,
                i <= added <= sides_total(self.sides_view().take(i as int)),
            decreases self.dice@.len() - i,
        {
            proof {
                assert(self.sides_view().take(i + 1).drop_last() =~= self.sides_view().take(i as int));
                lemma_total_prefix(self.sides_view(), i + 1);
                assert(self.sides_view()[i as int] == self.dice@[i as int].faces());
            }
            let value = self.roll_single_die(&self.dice[i]);
            added = added + value as u64;
            i += 1;
        }
        proof {
            assert(self.sides_view().take(i as int) =~= self.sides_view());
        }
        added
    }

    /// Draws one number from the combined range of all the dice.
    pub fn roll_cheaply(&self) -> (r: u64)
        requires
            all_rollable(self.sides_view()),
            sides_total(self.sides_view()) <= u64::MAX,
        ensures
            self.members().len() <= r <= sides_total(self.sides_view()),
    {
        let max = self.max_total();
        let mut rng = thread_rng();
        gen_range_inclusive(&mut rng, self.dice.len() as u64, max)
    }

    /// Rolls every die and returns each value, in order.
    pub fn roll_individually(&self) -> (r: Vec<u8>)
        requires
            all_rollable(self.sides_view()),
        ensures
            r@.len() == self.members().len(),
            forall|i: int| 0 <= i < r@.len() ==> 1 <= #[trigger] r@[i] <= self.members()[i].faces(),
    {
        let mut v: Vec<u8> = Vec::new();
        let mut i: usize = 0;
        while i < self.dice.len()
            invariant
                i <= self.dice@.len(),
                all_rollable(self.sides_view()),
                v@.len() == i,
                forall|k: int| 0 <= k < i ==> 1 <= #[trigger] v@[k] <= self.dice@[k].faces(),
            decreases self.dice@.len() - i,
        {
            proof {
                assert(self.sides_view()[i as int] == self.dice@[i as int].faces());
            }
            let value = self.roll_single_die(&self.dice[i]);
            v.push(value);
            i += 1;
        }
        v
    }

    /// Rolls every die and returns the lowest value.
    pub fn roll_min(&self) -> (r: u8)
        requires
            self.members().len() > 0,
            all_rollable(self.sides_view()),
        ensures
            1 <= r <= fewest_sides(self.sides_view()),
    {
        let rolls = self.roll_individually();
        let mut lowest: u8 = rolls[0];
        let mut i: usize = 1;
        proof {
            assert(self.sides_view().take(1) =~= seq![self.sides_view()[0]]);
            assert(self.sides_view()[0] == self.dice@[0].faces());
        }
        while i < rolls.len()
            invariant
                1 <= i <= rolls@.len(),
                rolls@.len() == self.dice@.len(),
                forall|k: int| 0 <= k < rolls@.len() ==> 1 <= #[trigger] rolls@[k] <= self.dice@[k].faces(),
                1 <= lowest <= fewest_sides(self.sides_view().take(i as int)),
            decreases rolls@.len() - i,
        {
            proof {
                assert(self.sides_view().take(i + 1).drop_last() =~= self.sides_view().take(i as int));
                assert(self.sides_view()[i as int] == self.dice@[i as int].faces());
            }
            if rolls[i] < lowest {
                lowest = rolls[i];
            }
            i += 1;
        }
        proof {
            assert(self.sides_view().take(i as int) =~= self.sides_view());
        }
        lowest
    }

    /// Rolls every die and returns the highest value.
    pub fn roll_max(&self) -> (r: u8)
        requires
            self.members().len() > 0,
            all_rollable(self.sides_view()),
        ensures
            1 <= r <= most_sides(self.sides_view()),
    {
        let rolls = self.roll_individually();
        let mut highest: u8 = rolls[0];
        let mut i: usize = 1;
        proof {
            assert(self.sides_view().take(1).drop_last() =~= Seq::<u8>::empty());
            assert(self.sides_view()[0] == self.dice@[0].faces());
        }
        while i < rolls.len()
            invariant
                1 <= i <= rolls@.len(),
                rolls@.len() == self.dice@.len(),
                forall|k: int| 0 <= k < rolls@.len() ==> 1 <= #[trigger] rolls@[k] <= self.dice@[k].faces(),
                1 <= highest <= most_sides(self.sides_view().take(i as int)),
            decreases rolls@.len() - i,
        {
            proof {
                assert(self.sides_view().take(i + 1).drop_last() =~= self.sides_view().take(i as int));
                assert(self.sides_view()[i as int] == self.dice@[i as int].faces());
            }
            if rolls[i] > highest {
                highest = rolls[i];
            }
            i += 1;
        }
        proof {
            assert(self.sides_view().take(i as int) =~= self.sides_view());
        }
        highest
    }

    /// One roll of one die.
    fn roll_single_die(&self, die: &Die) -> (r: u8)
        requires
            die.faces() >= 1,
        ensures
            1 <= r <= die.faces(),
    {
        let mut rng = thread_rng();
        gen_range_inclusive(&mut rng, 1, die.sides() as u64) as u8
    }
}

/// Every group text is non-empty.
proof fn lemma_groups_nonempty(s: Seq<u8>, v: int)
    ensures
        forall|k: int| 0 <= k < groups_down_to(s, v).len() ==> #[trigger] groups_down_to(s, v)[k].len() > 0,
    decreases 256 - v,
{
    if 0 <= v <= 255 {
        lemma_groups_nonempty(s, v + 1);
        if count_of(s, v) > 0 {
            let prev = groups_down_to(s, v + 1);
            let g = group_text(s, v);
            lemma_decimal_nonempty(count_of(s, v));
            assert(g.len() > 0);
            assert forall|k: int| 0 <= k < prev.push(g).len() implies #[trigger] prev.push(g)[k].len() > 0 by {
                if k < prev.len() {
                    assert(prev.push(g)[k] == prev[k]);
                }
            }
        }
    }
}

/// Decimal digits are never empty.
proof fn lemma_decimal_nonempty(n: nat)
    ensures
        decimal(n).len() >= 1,
{
}

/// Joining non-empty parts gives an empty text only when there are no parts.
proof fn lemma_joined_empty(parts: Seq<Seq<char>>)
    requires
        forall|k: int| 0 <= k < parts.len() ==> #[trigger] parts[k].len() > 0,
    ensures
        joined(parts).len() == 0 <==> parts.len() == 0,
{
    if parts.len() >= 2 {
        assert(parts.last().len() > 0);
    } else if parts.len() == 1 {
        assert(parts[0].len() > 0);
    }
}

/// No more dice have a number of sides than there are dice.
proof fn lemma_count_bounded(s: Seq<u8>, v: int)
    ensures
        count_of(s, v) <= s.len(),
    decreases s.len(),
{
    if s.len() > 0 {
        lemma_count_bounded(s.drop_last(), v);
    }
}

/// A prefix's total is the total before it plus its last die.
proof fn lemma_total_prefix(s: Seq<u8>, n: int)
    requires
        0 < n <= s.len(),
    ensures
        sides_total(s.take(n)) == sides_total(s.take(n - 1)) + s[n - 1],
        sides_total(s.take(n)) <= sides_total(s),
{
    assert(s.take(n).drop_last() =~= s.take(n - 1));
    lemma_total_monotone(s, n);
}

/// Totals grow with the prefix.
proof fn lemma_total_monotone(s: Seq<u8>, n: int)
    requires
        0 <= n <= s.len(),
    ensures
        sides_total(s.take(n)) <= sides_total(s),
    decreases s.len() - n,
{
    if n < s.len() {
        lemma_total_monotone(s, n + 1);
        assert(s.take(n + 1).drop_last() =~= s.take(n));
    } else {
        assert(s.take(n) =~= s);
    }
}

} // verus!
