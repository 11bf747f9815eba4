use vstd::prelude::*;
use crate::model::{ContributionCalendar, ContributionDay, ContributionWeek, calendar_wf, week_wf};

verus! {

/// Number of days in `days` with at least one contribution.
pub open spec fn count_active(days: Seq<ContributionDay>) -> int
    decreases days.len(),
{
    if days.len() == 0 {
        0
    } else {
        count_active(days.drop_last()) + if days.last().contribution_count > 0 {
            1int
        } else {
            0int
        }
    }
}

/// Number of active days across all weeks.
pub open spec fn active_days_spec(weeks: Seq<ContributionWeek>) -> int
    decreases weeks.len(),
{
    if weeks.len() == 0 {
        0
    } else {
        active_days_spec(weeks.drop_last()) + count_active(weeks.last().contribution_days@)
    }
}

/// Largest single-day contribution count in `days` (zero when empty).
pub open spec fn max_in_week(days: Seq<ContributionDay>) -> int
    decreases days.len(),
{
    if days.len() == 0 {
        0
    } else {
        let m = max_in_week(days.drop_last());
        if days.last().contribution_count > m {
            days.last().contribution_count as int
        } else {
            m
        }
    }
}

/// Largest single-day contribution count across all weeks (zero when there
/// are no days).
pub open spec fn max_day_spec(weeks: Seq<ContributionWeek>) -> int
    decreases weeks.len(),
{
    if weeks.len() == 0 {
        0
    } else {
        let m = max_day_spec(weeks.drop_last());
        let wm = max_in_week(weeks.last().contribution_days@);
        if wm > m {
            wm
        } else {
            m
        }
    }
}

/// Average contributions per active day, in tenths, rounded to the nearest
/// tenth; zero when there is no active day.
pub open spec fn avg_tenths_spec(total: int, active: int) -> int {
    if active <= 0 {
        0
    } else {
        (20 * total + active) / (2 * active)
    }
}

/// With no contributions on any day there are no active days.
pub proof fn lemma_count_active_zero(days: Seq<ContributionDay>)
    requires
        forall|k: int| 0 <= k < days.len() ==> (#[trigger] days[k]).contribution_count == 0,
    ensures
        count_active(days) == 0,
    decreases days.len(),
{
    if days.len() > 0 {
        lemma_count_active_zero(days.drop_last());
    }
}

/// When no day of any week has a contribution, the average per active day is
/// zero, whatever the reported total.
pub proof fn lemma_avg_zero_without_activity(weeks: Seq<ContributionWeek>, total: int)
    requires
        forall|i: int, k: int|
            0 <= i < weeks.len() && 0 <= k < (#[trigger] weeks[i]).contribution_days@.len()
                ==> (#[trigger] weeks[i].contribution_days@[k]).contribution_count == 0,
    ensures
        active_days_spec(weeks) == 0,
        avg_tenths_spec(total, active_days_spec(weeks)) == 0,
    decreases weeks.len(),
{
    if weeks.len() > 0 {
        lemma_avg_zero_without_activity(weeks.drop_last(), total);
        lemma_count_active_zero(weeks.last().contribution_days@);
    }
}

/// Counts the days with at least one contribution across all weeks of the
/// calendar.
pub fn active_days(cal: &ContributionCalendar) -> (r: u128)
    requires
        calendar_wf(cal),
    ensures
        r == active_days_spec(cal.weeks@),
{
    let ghost weeks = cal.weeks@;
    let mut total: u128 = 0;
    let mut i: usize = 0;
    while i < cal.weeks.len()
        invariant
            calendar_wf(cal),
            weeks == cal.weeks@,
            i <= weeks.len(),
            total == active_days_spec(weeks.take(i as int)),
            total <= 7 * i,
        decreases weeks.len() - i,
    {
        let week = &cal.weeks[i];
        let ghost days = week.contribution_days@;
        let mut cnt: usize = 0;
        let mut j: usize = 0;
        while j < week.contribution_days.len()
            invariant
                days == week.contribution_days@,
                j <= days.len(),
                cnt <= j,
                cnt == count_active(days.take(j as int)),
            decreases days.len() - j,
        {
            if week.contribution_days[j].contribution_count > 0 {
                cnt = cnt + 1;
            }
            j = j + 1;
            proof {
                assert(days.take(j as int).drop_last() =~= days.take(j - 1));
            }
        }
        proof {
            assert(days.take(days.len() as int) =~= days);
            assert(week_wf(weeks[i as int]));
        }
        total = total + (cnt as u128);
        i = i + 1;
        proof {
            assert(weeks.take(i as int).drop_last() =~= weeks.take(i - 1));
        }
    }
    proof {
        assert(weeks.take(weeks.len() as int) =~= weeks);
    }
    total
}

/// Finds the largest single-day contribution count across all weeks of the
/// calendar; zero when there are no days.
pub fn max_per_day(cal: &ContributionCalendar) -> (r: u32)
    ensures
        r == max_day_spec(cal.weeks@),
{
    let ghost weeks = cal.weeks@;
    let mut best: u32 = 0;
    let mut i: usize = 0;
    while i < cal.weeks.len()
        invariant
            weeks == cal.weeks@,
            i <= weeks.len(),
            best == max_day_spec(weeks.take(i as int)),
        decreases weeks.len() - i,
    {
        let week = &cal.weeks[i];
        let ghost days = week.contribution_days@;
        let ghost best_before = best;
        let mut j: usize = 0;
        while j < week.contribution_days.len()
            invariant
                days == week.contribution_days@,
                j <= days.len(),
                best == if max_in_week(days.take(j as int)) > best_before {
                    max_in_week(days.take(j as int))
                } else {
                    best_before as int
                },
            decreases days.len() - j,
        {
            let c = week.contribution_days[j].contribution_count;
            if c > best {
                best = c;
            }
            j = j + 1;
            proof {
                assert(days.take(j as int).drop_last() =~= days.take(j - 1));
            }
        }
        i = i + 1;
        proof {
            assert(days.take(days.len() as int) =~= days);
            assert(weeks.take(i as int).drop_last() =~= weeks.take(i - 1));
        }
    }
    proof {
        assert(weeks.take(weeks.len() as int) =~= weeks);
    }
    best
}

/// Computes the average contributions per active day in tenths, rounded to
/// the nearest tenth; zero when there is no active day.
pub fn avg_tenths(total: u32, active: u128) -> (r: u128)
    ensures
        r == avg_tenths_spec(total as int, active as int),
{
    if active == 0 {
        0
    } else if active > 20 * (total as u128) {
        proof {
            let t = total as int;
            let a = active as int;
            assert(0 <= 20 * t + a < 2 * a);
            assert((20 * t + a) / (2 * a) == 0) by (nonlinear_arith)
                requires
                    0 <= 20 * t + a < 2 * a,
            ;
        }
        0
    } else {
        (20 * (total as u128) + active) / (2 * active)
    }
}

} // verus!
