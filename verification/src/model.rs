use vstd::prelude::*;

verus! {

/// Basic public profile fields of a user, fetched once and read-only.
pub struct Profile {
    pub login: String,
    pub name: Option<String>,
    pub public_repos: u32,
    pub followers: u32,
    pub following: u32,
}

/// One day of activity: an ISO calendar date, a contribution count, and the
/// platform's own color hint (kept but unused — the renderer computes its own
/// palette).
pub struct ContributionDay {
    pub date: String,
    pub contribution_count: u32,
    pub color: String,
}

/// One calendar week: at most seven days, in order.
pub struct ContributionWeek {
    pub contribution_days: Vec<ContributionDay>,
}

/// A year of daily contribution counts grouped into weeks, in chronological
/// order as reported by the platform.
pub struct ContributionCalendar {
    pub total_contributions: u32,
    pub weeks: Vec<ContributionWeek>,
}

/// A week holds at most seven days.
pub open spec fn week_wf(w: ContributionWeek) -> bool {
    w.contribution_days@.len() <= 7
}

/// Every week of the calendar is well-formed.
pub open spec fn calendar_wf(c: &ContributionCalendar) -> bool {
    forall|i: int| 0 <= i < c.weeks@.len() ==> week_wf(#[trigger] c.weeks@[i])
}

} // verus!
