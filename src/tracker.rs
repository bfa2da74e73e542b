use vstd::prelude::*;

verus! {

/// Total after adding `amount` to `points`; it stops at the largest `u64`.
pub open spec fn added(points: u64, amount: u64) -> u64 {
    if points + amount > u64::MAX {
        u64::MAX
    } else {
        (points + amount) as u64
    }
}

/// Total after taking `amount` from `points`; it stops at 0.
pub open spec fn removed(points: u64, amount: u64) -> u64 {
    if amount > points {
        0
    } else {
        (points - amount) as u64
    }
}

/// What a removal of `amount` from `points` actually takes away.
pub open spec fn amount_lost(points: u64, amount: u64) -> u64 {
    if amount > points {
        points
    } else {
        amount
    }
}

/// An experience point counter that can log each gain and loss of a session.
#[derive(Debug, Clone)]
pub struct ExperienceTracker {
    experience_points: u64,
    session_gains: Vec<u64>,
    session_losses: Vec<u64>,
    tracking: bool,
}

impl ExperienceTracker {
    /// Current experience points.
    pub closed spec fn points(&self) -> u64 {
        self.experience_points
    }

    /// Amounts gained this session, oldest first.
    pub closed spec fn gains(&self) -> Seq<u64> {
        self.session_gains@
    }

    /// Amounts lost this session, oldest first.
    pub closed spec fn losses(&self) -> Seq<u64> {
        self.session_losses@
    }

    /// Whether gains and losses are logged.
    pub closed spec fn tracking(&self) -> bool {
        self.tracking
    }

    /// An untracked tracker keeps empty logs.
    pub open spec fn wf(&self) -> bool {
        !self.tracking() ==> self.gains().len() == 0 && self.losses().len() == 0
    }

    /// A logging tracker that starts from the given total and logs.
    pub fn with_history(experience_points: u64, gains: Vec<u64>, losses: Vec<u64>) -> (r: Self)
        ensures
            r.wf(),
            r.points() == experience_points,
            r.gains() == gains@,
            r.losses() == losses@,
            r.tracking(),
    {
        ExperienceTracker {
            experience_points,
            session_gains: gains,
            session_losses: losses,
            tracking: true,
        }
    }

    /// A tracker that logs nothing.
    pub fn untracked(experience_points: u64) -> (r: Self)
        ensures
            r.wf(),
            r.points() == experience_points,
            r.gains() == Seq::<u64>::empty(),
            r.losses() == Seq::<u64>::empty(),
            !r.tracking(),
    {
        ExperienceTracker {
            experience_points,
            session_gains: Vec::new(),
            session_losses: Vec::new(),
            tracking: false,
        }
    }

    /// A logging tracker with empty logs.
    pub fn from(experience_points: u64) -> (r: Self)
        ensures
            r.wf(),
            r.points() == experience_points,
            r.gains() == Seq::<u64>::empty(),
            r.losses() == Seq::<u64>::empty(),
            r.tracking(),
    {
        ExperienceTracker {
            experience_points,
            session_gains: Vec::new(),
            session_losses: Vec::new(),
            tracking: true,
        }
    }

    /// A logging tracker at 0 points with empty logs.
    pub fn new() -> (r: Self)
        ensures
            r.wf(),
            r.points() == 0,
            r.gains() == Seq::<u64>::empty(),
            r.losses() == Seq::<u64>::empty(),
            r.tracking(),
    {
        Self::from(0)
    }

    /// Current experience points.
    pub fn get(&self) -> (r: u64)
        ensures
            r == self.points(),
    {
        self.experience_points
    }

    /// Adds `experience_points`, stopping at the largest `u64`; logs the
    /// amount as a gain when tracking.
    pub fn add(&mut self, experience_points: u64)
        requires
            old(self).wf(),
        ensures
            final(self).wf(),
            final(self).points() == added(old(self).points(), experience_points),
            final(self).gains() == (if old(self).tracking() {
                old(self).gains().push(experience_points)
            } else {
                old(self).gains()
            }),
            final(self).losses() == old(self).losses(),
            final(self).tracking() == old(self).tracking(),
    {
        if self.tracking {
            self.session_gains.push(experience_points);
        }
        self.experience_points = self.experience_points.saturating_add(experience_points);
    }

    /// Takes away `experience_points`, stopping at 0; logs what was actually
    /// taken as a loss when tracking.
    pub fn remove(&mut self, experience_points: u64)
        requires
            old(self).wf(),
        ensures
            final(self).wf(),
            final(self).points() == removed(old(self).points(), experience_points),
            final(self).losses() == (if old(self).tracking() {
                old(self).losses().push(amount_lost(old(self).points(), experience_points))
            } else {
                old(self).losses()
            }),
            final(self).gains() == old(self).gains(),
            final(self).tracking() == old(self).tracking(),
    {
        if experience_points > self.experience_points {
            if self.tracking {
                self.session_losses.push(self.experience_points);
            }
            self.experience_points = 0;
            return;
        }
        if self.tracking {
            self.session_losses.push(experience_points);
        }
        self.experience_points = self.experience_points - experience_points;
    }

    /// Copies of the gain and loss logs.
    pub fn session_history(&self) -> (r: (Vec<u64>, Vec<u64>))
        requires
            self.wf(),
        ensures
            r.0@ == self.gains(),
            r.1@ == self.losses(),
            !self.tracking() ==> r.0@.len() == 0 && r.1@.len() == 0,
    {
        (self.session_gains.clone(), self.session_losses.clone())
    }

    /// Whether gains and losses are logged.
    pub fn is_tracking(&self) -> (r: bool)
        ensures
            r == self.tracking(),
    {
        self.tracking
    }

    /// Overwrites the total; nothing is logged.
    pub fn set(&mut self, experience_points: u64)
        requires
            old(self).wf(),
        ensures
            final(self).wf(),
            final(self).points() == experience_points,
            final(self).gains() == old(self).gains(),
            final(self).losses() == old(self).losses(),
            final(self).tracking() == old(self).tracking(),
    {
        self.experience_points = experience_points;
    }
}

impl Default for ExperienceTracker {
    fn default() -> (r: Self)
        ensures
            r.wf(),
            r.points() == 0,
            r.gains() == Seq::<u64>::empty(),
            r.losses() == Seq::<u64>::empty(),
            r.tracking(),
    {
        Self::new()
    }
}

/// Two additions give the same total as one addition of their sum.
pub proof fn lemma_add_twice(points: u64, a: u64, b: u64)
    requires
        a + b <= u64::MAX,
    ensures
        added(added(points, a), b) == added(points, (a + b) as u64),
{
}

/// Removing more than the total leaves 0.
pub proof fn lemma_remove_clamps(points: u64, amount: u64)
    requires
        amount > points,
    ensures
        removed(points, amount) == 0,
{
}

/// An untracked tracker's logs are empty, whatever was added or removed.
pub proof fn lemma_untracked_logs_empty(t: ExperienceTracker)
    requires
        t.wf(),
        !t.tracking(),
    ensures
        t.gains().len() == 0,
        t.losses().len() == 0,
{
}

} // verus!
