use vstd::prelude::*;
use crate::table::{ExperienceLevelUpTable, level_of, next_of};
use crate::tracker::{ExperienceTracker, added, amount_lost, removed};

verus! {

/// Experience still needed for the next milestone; none once maxed.
pub open spec fn remaining_of(m: Seq<u64>, points: u64) -> Option<u64> {
    match next_of(m, points) {
        Some(n) => Some((n - points) as u64),
        None => None,
    }
}

/// A tracker and a level table together: the level always follows from the
/// current experience.
#[derive(Debug, Clone)]
pub struct ExperienceSystem {
    tracker: ExperienceTracker,
    levels: ExperienceLevelUpTable,
}

impl ExperienceSystem {
    /// The experience tracker.
    pub closed spec fn xp_tracker(&self) -> ExperienceTracker {
        self.tracker
    }

    /// The level table.
    pub closed spec fn table(&self) -> ExperienceLevelUpTable {
        self.levels
    }

    /// Current experience points.
    pub open spec fn points(&self) -> u64 {
        self.xp_tracker().points()
    }

    /// Milestones of the table, ascending.
    pub open spec fn milestones(&self) -> Seq<u64> {
        self.table().milestones()
    }

    /// Both parts are well formed.
    pub open spec fn wf(&self) -> bool {
        self.xp_tracker().wf() && self.table().wf()
    }

    /// A logging tracker at `experience_points` and a table named "Default".
    pub fn simple(experience_points: u64, table: Vec<u64>) -> (r: Self)
        ensures
            r.wf(),
            r.points() == experience_points,
            r.xp_tracker().tracking(),
            r.xp_tracker().gains().len() == 0,
            r.xp_tracker().losses().len() == 0,
            r.table().name_view() == "Default"@,
            r.milestones().to_multiset() == table@.to_multiset(),
            r.milestones().len() == table@.len(),
    {
        Self::new(ExperienceTracker::from(experience_points), ExperienceLevelUpTable::new(table))
    }

    /// A system made of the given tracker and table.
    pub fn new(tracker: ExperienceTracker, levels: ExperienceLevelUpTable) -> (r: Self)
        ensures
            r.xp_tracker() == tracker,
            r.table() == levels,
    {
        ExperienceSystem { tracker, levels }
    }

    /// The experience tracker.
    pub fn tracker(&self) -> (r: &ExperienceTracker)
        ensures
            *r == self.xp_tracker(),
    {
        &self.tracker
    }

    /// The level table.
    pub fn levels(&self) -> (r: &ExperienceLevelUpTable)
        ensures
            *r == self.table(),
    {
        &self.levels
    }

    /// The level reached with the current experience.
    pub fn get_level(&self) -> (r: u64)
        requires
            self.milestones().len() < u64::MAX,
        ensures
            r == level_of(self.milestones(), self.points()),
    {
        self.levels.to_level(self.tracker.get())
    }

    /// Current experience points.
    pub fn get_experience(&self) -> (r: u64)
        ensures
            r == self.points(),
    {
        self.tracker.get()
    }

    /// Experience still needed for the next milestone; none once maxed.
    pub fn get_experience_remaining(&self) -> (r: Option<u64>)
        requires
            self.wf(),
            self.milestones().len() > 0,
        ensures
            r == remaining_of(self.milestones(), self.points()),
    {
        let xp = self.tracker.get();
        let next = self.levels.get_next_milestone(xp);
        proof {
            crate::table::lemma_sorted_crossed(self.milestones(), xp);
            crate::table::lemma_last_crossed(self.milestones(), xp);
        }
        match next {
            Some(n) => Some(n - xp),
            None => None,
        }
    }

    /// The next milestone to reach; none once maxed.
    pub fn get_next_milestone(&self) -> (r: Option<u64>)
        requires
            self.wf(),
            self.milestones().len() > 0,
        ensures
            r == next_of(self.milestones(), self.points()),
    {
        self.levels.get_next_milestone(self.tracker.get())
    }

    /// Adds experience through the tracker.
    pub fn add_experience(&mut self, amount: u64)
        requires
            old(self).wf(),
        ensures
            final(self).wf(),
            final(self).points() == added(old(self).points(), amount),
            final(self).table() == old(self).table(),
            final(self).xp_tracker().tracking() == old(self).xp_tracker().tracking(),
            final(self).xp_tracker().gains() == (if old(self).xp_tracker().tracking() {
                old(self).xp_tracker().gains().push(amount)
            } else {
                old(self).xp_tracker().gains()
            }),
            final(self).xp_tracker().losses() == old(self).xp_tracker().losses(),
    {
        self.tracker.add(amount);
    }

    /// Removes experience through the tracker, stopping at 0.
    pub fn remove_experience(&mut self, amount: u64)
        requires
            old(self).wf(),
        ensures
            final(self).wf(),
            final(self).points() == removed(old(self).points(), amount),
            final(self).table() == old(self).table(),
            final(self).xp_tracker().tracking() == old(self).xp_tracker().tracking(),
            final(self).xp_tracker().gains() == old(self).xp_tracker().gains(),
            final(self).xp_tracker().losses() == (if old(self).xp_tracker().tracking() {
                old(self).xp_tracker().losses().push(amount_lost(old(self).points(), amount))
            } else {
                old(self).xp_tracker().losses()
            }),
    {
        self.tracker.remove(amount);
    }
}

} // verus!
