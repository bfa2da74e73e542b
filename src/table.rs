use vstd::prelude::*;

verus! {

/// Every element is at most every later one.
pub open spec fn sorted(s: Seq<u64>) -> bool {
    forall|i: int, j: int| 0 <= i <= j < s.len() ==> s[i] <= s[j]
}

/// Index of the last milestone that `points` reaches, or -1 when none does.
pub open spec fn last_crossed(m: Seq<u64>, points: u64) -> int
    decreases m.len(),
{
    if m.len() == 0 {
        -1
    } else if m.last() <= points {
        m.len() - 1
    } else {
        last_crossed(m.drop_last(), points)
    }
}

/// Level reached with `points`: 1 below the first milestone, one more per milestone crossed.
pub open spec fn level_of(m: Seq<u64>, points: u64) -> int {
    last_crossed(m, points) + 2
}

/// The milestone most recently crossed, 0 when none is.
pub open spec fn current_of(m: Seq<u64>, points: u64) -> u64 {
    if last_crossed(m, points) < 0 {
        0
    } else {
        m[last_crossed(m, points)]
    }
}

/// The milestone one step before the current one; the first milestone when
/// only it has been crossed; none below the first milestone.
pub open spec fn previous_of(m: Seq<u64>, points: u64) -> Option<u64> {
    if m[0] > points {
        None
    } else if last_crossed(m, points) == 0 {
        Some(m[0])
    } else {
        Some(m[last_crossed(m, points) - 1])
    }
}

/// Whether `points` reaches the last (largest) milestone.
pub open spec fn maxed_of(m: Seq<u64>, points: u64) -> bool {
    points >= m.last()
}

/// The milestone after the current one; none once the table is maxed.
pub open spec fn next_of(m: Seq<u64>, points: u64) -> Option<u64> {
    if maxed_of(m, points) {
        None
    } else if last_crossed(m, points) < 0 {
        Some(m[0])
    } else {
        Some(m[last_crossed(m, points) + 1])
    }
}

/// What `last_crossed` gives: an index whose milestone is reached, with no
/// later milestone reached; -1 only when no milestone is reached.
pub proof fn lemma_last_crossed(m: Seq<u64>, points: u64)
    ensures
        -1 <= last_crossed(m, points) < m.len(),
        last_crossed(m, points) >= 0 ==> m[last_crossed(m, points)] <= points,
        forall|k: int| last_crossed(m, points) < k < m.len() ==> m[k] > points,
    decreases m.len(),
{
    if m.len() > 0 && m.last() > points {
        lemma_last_crossed(m.drop_last(), points);
        assert forall|k: int| last_crossed(m, points) < k < m.len() implies m[k] > points by {
            if k < m.len() - 1 {
                assert(m[k] == m.drop_last()[k]);
            }
        }
    }
}

/// In a sorted table, the milestones crossed are exactly those up to `last_crossed`.
pub proof fn lemma_sorted_crossed(m: Seq<u64>, points: u64)
    requires
        sorted(m),
    ensures
        forall|k: int| 0 <= k < m.len() ==> (m[k] <= points <==> k <= last_crossed(m, points)),
{
    lemma_last_crossed(m, points);
}

/// Below the first milestone of a sorted table: level 1, no current
/// milestone (0), no previous milestone, and the first milestone next.
pub proof fn lemma_below_first(m: Seq<u64>, points: u64)
    requires
        sorted(m),
        m.len() > 0,
        points < m[0],
    ensures
        level_of(m, points) == 1,
        current_of(m, points) == 0,
        previous_of(m, points) == None::<u64>,
        next_of(m, points) == Some(m[0]),
{
    lemma_sorted_crossed(m, points);
    lemma_last_crossed(m, points);
    assert(m[0] <= m[m.len() - 1]);
}

/// At or past the last milestone the table is maxed and has no next milestone.
pub proof fn lemma_at_or_past_last(m: Seq<u64>, points: u64)
    requires
        m.len() > 0,
        points >= m[m.len() - 1],
    ensures
        maxed_of(m, points),
        next_of(m, points) == None::<u64>,
{
}

/// Relies on slice::sort: the vector ends in ascending order with the same elements.
#[verifier::external_body]
fn sort_ascending(v: &mut Vec<u64>)
    ensures
        sorted(final(v)@),
        final(v)@.to_multiset() == old(v)@.to_multiset(),
{
    v.sort();
}

/// An experience table: ascending milestones that mark the level boundaries.
#[derive(Debug, Clone)]
pub struct ExperienceLevelUpTable {
    name: String,
    milestones: Vec<u64>,
}

impl ExperienceLevelUpTable {
    /// The milestones, in ascending order.
    pub closed spec fn milestones(&self) -> Seq<u64> {
        self.milestones@
    }

    /// The table's name.
    pub closed spec fn name_view(&self) -> Seq<char> {
        self.name@
    }

    /// The milestones are kept sorted.
    pub open spec fn wf(&self) -> bool {
        sorted(self.milestones())
    }

    /// A table with the given name and the given milestones, sorted ascending.
    pub fn named(name: String, milestones: Vec<u64>) -> (r: Self)
        ensures
            r.wf(),
            r.name_view() == name@,
            sorted(r.milestones()),
            r.milestones().to_multiset() == milestones@.to_multiset(),
            r.milestones().len() == milestones@.len(),
    {
        let mut ms = milestones;
        sort_ascending(&mut ms);
        proof {
            ms@.to_multiset_ensures();
            milestones@.to_multiset_ensures();
        }
        ExperienceLevelUpTable { name, milestones: ms }
    }

    /// A table named "Default" with the given milestones, sorted ascending.
    pub fn new(milestones: Vec<u64>) -> (r: Self)
        ensures
            r.wf(),
            r.name_view() == "Default"@,
            sorted(r.milestones()),
            r.milestones().to_multiset() == milestones@.to_multiset(),
            r.milestones().len() == milestones@.len(),
    {
        Self::named(String::from_str("Default"), milestones)
    }

    /// Index of the last milestone that `experience_points` reaches.
    pub fn seek(&self, experience_points: u64) -> (r: Option<usize>)
        ensures
            r is None <==> last_crossed(self.milestones(), experience_points) < 0,
            r is Some ==> r->0 == last_crossed(self.milestones(), experience_points),
    {
        let mut pointer: Option<usize> = None;
        let mut index: usize = 0;
        while index < self.milestones.len()
            invariant
                index <= self.milestones@.len(),
                pointer is None <==> last_crossed(self.milestones@.take(index as int), experience_points) < 0,
                pointer is Some ==> pointer->0 == last_crossed(self.milestones@.take(index as int), experience_points),
            decreases self.milestones@.len() - index,
        {
            proof {
                lemma_last_crossed(self.milestones@.take(index as int), experience_points);
                assert(self.milestones@.take(index + 1).drop_last() =~= self.milestones@.take(
                    index as int,
                ));
            }
            if experience_points >= self.milestones[index] {
                pointer = Some(index);
            }
            index += 1;
        }
        proof {
            assert(self.milestones@.take(index as int) =~= self.milestones@);
        }
        pointer
    }

    /// The table's name.
    pub fn name(&self) -> (r: String)
        ensures
            r@ == self.name_view(),
    {
        self.name.clone()
    }

    /// A copy of the milestones, ascending.
    pub fn milestone_list(&self) -> (r: Vec<u64>)
        ensures
            r@ == self.milestones(),
    {
        self.milestones.clone()
    }

    /// The level reached with `experience_points`.
    pub fn to_level(&self, experience_points: u64) -> (r: u64)
        requires
            self.milestones().len() < u64::MAX,
        ensures
            r == level_of(self.milestones(), experience_points),
    {
        proof {
            lemma_last_crossed(self.milestones(), experience_points);
        }
        match self.seek(experience_points) {
            None => 1,
            Some(milestone) => 2 + milestone as u64,
        }
    }

    /// The milestone one step before the current one (see `previous_of`).
    pub fn get_previous_milestone(&self, experience_points: u64) -> (r: Option<u64>)
        requires
            self.wf(),
            self.milestones().len() > 0,
        ensures
            r == previous_of(self.milestones(), experience_points),
    {
        proof {
            lemma_sorted_crossed(self.milestones(), experience_points);
        }
        if self.milestones[0] > experience_points {
            return None;
        }
        let pointer = self.seek(experience_points);
        match pointer {
            None => None,
            Some(p) => {
                if p == 0 {
                    Some(self.milestones[p])
                } else {
                    Some(self.milestones[p - 1])
                }
            },
        }
    }

    /// The milestone most recently crossed, 0 below the first milestone.
    pub fn get_current_milestone(&self, experience_points: u64) -> (r: u64)
        ensures
            r == current_of(self.milestones(), experience_points),
    {
        proof {
            lemma_last_crossed(self.milestones(), experience_points);
        }
        match self.seek(experience_points) {
            None => 0,
            Some(p) => self.milestones[p],
        }
    }

    /// The next milestone to reach, none once the table is maxed.
    pub fn get_next_milestone(&self, experience_points: u64) -> (r: Option<u64>)
        requires
            self.wf(),
            self.milestones().len() > 0,
        ensures
            r == next_of(self.milestones(), experience_points),
    {
        proof {
            lemma_sorted_crossed(self.milestones(), experience_points);
        }
        if self.is_maxed(experience_points) {
            return None;
        }
        let n = self.milestones.len();
        proof {
            let last = n - 1;
            assert(self.milestones()[last] > experience_points);
            assert(last_crossed(self.milestones(), experience_points) < last);
        }
        match self.seek(experience_points) {
            None => Some(self.milestones[0]),
            Some(p) => Some(self.milestones[p + 1]),
        }
    }

    /// Whether `experience_points` reaches the last milestone.
    pub fn is_maxed(&self, experience_points: u64) -> (r: bool)
        requires
            self.milestones().len() > 0,
        ensures
            r == maxed_of(self.milestones(), experience_points),
    {
        experience_points >= self.milestones[self.milestones.len() - 1]
    }
}

} // verus!
