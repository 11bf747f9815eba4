use vstd::prelude::*;

verus! {

/// The heat-map never spans more than one year of week-columns.
pub const MAX_WEEK_COLUMNS: usize = 53;

/// Horizontal margin reserved for text around the calendar grid.
pub const CALENDAR_MARGIN: usize = 40;

/// Left padding that centers a line of length `len` in a terminal of width
/// `width`: half the slack, rounded down, and never negative.
pub open spec fn center_pad_spec(width: int, len: int) -> int {
    if width >= len {
        (width - len) / 2
    } else {
        0
    }
}

/// Number of week-columns the calendar may occupy in a terminal of width
/// `width`: half the width left over after the margin, capped at one year.
pub open spec fn column_budget_spec(width: int) -> int {
    let slack = if width >= CALENDAR_MARGIN as int {
        width - CALENDAR_MARGIN as int
    } else {
        0
    };
    if slack / 2 <= MAX_WEEK_COLUMNS as int {
        slack / 2
    } else {
        MAX_WEEK_COLUMNS as int
    }
}

/// Activity-intensity level of a daily contribution count, one of five
/// ordinal buckets.
pub open spec fn bucket_spec(count: int) -> int {
    if count <= 0 {
        0
    } else if count <= 2 {
        1
    } else if count <= 5 {
        2
    } else if count <= 10 {
        3
    } else {
        4
    }
}

/// Computes the left padding that centers a string of length `len` against a
/// total width `width`.
pub fn center_pad(width: usize, len: usize) -> (r: usize)
    ensures
        r == center_pad_spec(width as int, len as int),
{
    if width >= len {
        (width - len) / 2
    } else {
        0
    }
}

/// Computes the calendar column budget for a terminal of width `width`.
pub fn column_budget(width: usize) -> (r: usize)
    ensures
        r == column_budget_spec(width as int),
{
    let slack = if width >= CALENDAR_MARGIN {
        width - CALENDAR_MARGIN
    } else {
        0
    };
    let half = slack / 2;
    if half <= MAX_WEEK_COLUMNS {
        half
    } else {
        MAX_WEEK_COLUMNS
    }
}

/// Number of week-columns actually drawn: all of the calendar's weeks, unless
/// the column budget is smaller.
pub fn weeks_to_show(week_count: usize, budget: usize) -> (r: usize)
    ensures
        r == if week_count <= budget { week_count as int } else { budget as int },
        r <= week_count,
        r <= budget,
{
    if week_count <= budget {
        week_count
    } else {
        budget
    }
}

/// Maps a daily contribution count to its heat-map bucket.
pub fn bucket(count: u32) -> (r: u8)
    ensures
        r == bucket_spec(count as int),
{
    if count == 0 {
        0
    } else if count <= 2 {
        1
    } else if count <= 5 {
        2
    } else if count <= 10 {
        3
    } else {
        4
    }
}

/// Centering padding is never negative, for every width and length.
pub proof fn lemma_center_pad_nonneg(width: int, len: int)
    ensures
        center_pad_spec(width, len) >= 0,
{
}

/// The column budget never exceeds one year of weeks and grows monotonically
/// with the terminal width.
pub proof fn lemma_column_budget_monotone(w1: int, w2: int)
    requires
        w1 <= w2,
    ensures
        column_budget_spec(w1) <= column_budget_spec(w2),
        0 <= column_budget_spec(w1),
        column_budget_spec(w2) <= MAX_WEEK_COLUMNS as int,
{
}

/// Every contribution count falls in exactly one of the five buckets, and the
/// bucket grows monotonically with the count.
pub proof fn lemma_bucket_monotone(c1: int, c2: int)
    requires
        c1 <= c2,
    ensures
        0 <= bucket_spec(c1) <= 4,
        0 <= bucket_spec(c2) <= 4,
        bucket_spec(c1) <= bucket_spec(c2),
{
}

} // verus!
