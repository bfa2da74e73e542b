use vstd::prelude::*;

verus! {

/// A matchup rule between values of one kind (elements, hand shapes).
pub trait Affinity {
    /// Whether `self` is weak against `other`.
    fn weak_against(&self, other: &Self) -> bool;

    /// Whether `self` is strong against `other`; by default, whenever it is not weak.
    fn strong_against(&self, other: &Self) -> bool {
        !self.weak_against(other)
    }
}

} // verus!
