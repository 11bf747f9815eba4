use vstd::prelude::*;
use vstd::string::StrSliceExecFns;
use vstd::string::StringExecFns;
use crate::layout::{
    bucket_spec, center_pad, center_pad_spec, column_budget, column_budget_spec,
};
use crate::model::{ContributionCalendar, ContributionWeek, Profile, calendar_wf};
use crate::stats::{active_days, active_days_spec, avg_tenths, avg_tenths_spec, max_day_spec, max_per_day};
use crate::text::{dec_digit, dec_rep, push_dec, push_digit, repeat_char, spaces};

verus! {

/// How a piece of rendered text is colored on the terminal.
#[derive(Clone, Copy, Debug, PartialEq, Eq, Structural)]
pub enum Style {
    /// No coloring.
    Plain,
    /// Bright blue: rules, month and weekday labels, the total line.
    BrightBlue,
    /// Bright cyan: the info and statistics lines.
    BrightCyan,
    /// Bold bright white: section titles.
    TitleBold,
    /// One of the five heat-map intensity levels.
    Heat(u8),
}

/// A run of identically-styled text within one rendered line.
#[derive(Debug)]
pub struct Span {
    pub text: String,
    pub style: Style,
}

/// The mathematical content of a rendered line: each span's characters and
/// style, in order.
pub open spec fn line_model(l: Seq<Span>) -> Seq<(Seq<char>, Style)> {
    Seq::new(l.len(), |i: int| (l[i].text@, l[i].style))
}

/// The mathematical content of a rendered document, line by line.
pub open spec fn lines_model(ls: Seq<Vec<Span>>) -> Seq<Seq<(Seq<char>, Style)>> {
    Seq::new(ls.len(), |i: int| line_model(ls[i]@))
}

/// A run of `n` spaces.
pub open spec fn sp(n: int) -> Seq<char> {
    repeat_char(' ', n)
}

/// The display name: the profile's name when present, otherwise the login.
pub open spec fn display_name(p: &Profile) -> Seq<char> {
    match p.name {
        Some(n) => n@,
        None => p.login@,
    }
}

/// The header's title: the login between single spaces.
pub open spec fn header_title_text(login: Seq<char>) -> Seq<char> {
    " "@ + login + " "@
}

/// The header's info line.
pub open spec fn info_text(p: &Profile) -> Seq<char> {
    "Name: "@ + display_name(p) + "  |  Repos: "@ + dec_rep(p.public_repos as int)
        + "  |  Followers: "@ + dec_rep(p.followers as int) + "  |  Following: "@ + dec_rep(
        p.following as int,
    )
}

/// A full-width horizontal rule, drawn bright blue.
pub open spec fn rule_line_model(w: int) -> Seq<(Seq<char>, Style)> {
    seq![(repeat_char('\u{2500}', w), Style::BrightBlue)]
}

/// A line of text centered against the terminal width: padding, then the text.
pub open spec fn centered_line(text: Seq<char>, style: Style, w: int) -> Seq<(Seq<char>, Style)> {
    seq![(sp(center_pad_spec(w, text.len() as int)), Style::Plain), (text, style)]
}

/// The header's title line: centering padding, the bold title, and trailing
/// spaces out to the full width.
pub open spec fn padded_title_line(title: Seq<char>, w: int) -> Seq<(Seq<char>, Style)> {
    let pad = center_pad_spec(w, title.len() as int);
    let rest = if w >= pad + title.len() {
        w - pad - title.len()
    } else {
        0
    };
    seq![(sp(pad), Style::Plain), (title, Style::TitleBold), (sp(rest), Style::Plain)]
}

/// The header: rule, title line, info line, rule.
pub open spec fn header_model(p: &Profile, w: int) -> Seq<Seq<(Seq<char>, Style)>> {
    seq![
        rule_line_model(w),
        padded_title_line(header_title_text(p.login@), w),
        centered_line(info_text(p), Style::BrightCyan, w),
        rule_line_model(w),
    ]
}

/// The three-letter abbreviation of month `k` (0-based).
pub open spec fn month_text(k: int) -> Seq<char> {
    if k == 0 {
        "Jan"@
    } else if k == 1 {
        "Feb"@
    } else if k == 2 {
        "Mar"@
    } else if k == 3 {
        "Apr"@
    } else if k == 4 {
        "May"@
    } else if k == 5 {
        "Jun"@
    } else if k == 6 {
        "Jul"@
    } else if k == 7 {
        "Aug"@
    } else if k == 8 {
        "Sep"@
    } else if k == 9 {
        "Oct"@
    } else if k == 10 {
        "Nov"@
    } else {
        "Dec"@
    }
}

/// The label of labelled grid row `k`: Monday, Wednesday, Friday.
pub open spec fn weekday_text(k: int) -> Seq<char> {
    if k == 0 {
        "Mon"@
    } else if k == 1 {
        "Wed"@
    } else {
        "Fri"@
    }
}

/// Month-label slot for week-column `i`: a month abbreviation every fourth
/// column while the month index is valid, blank elsewhere.
pub open spec fn month_cell(i: int) -> (Seq<char>, Style) {
    if i % 4 == 0 && i / 4 < 12 {
        (month_text(i / 4), Style::BrightBlue)
    } else {
        (sp(1), Style::Plain)
    }
}

/// The month-label row: calendar padding, the label gutter, then one slot per
/// drawn week-column.
pub open spec fn month_row_model(shown: int, cal_pad: int) -> Seq<(Seq<char>, Style)> {
    seq![(sp(cal_pad), Style::Plain), (sp(8), Style::Plain)] + Seq::new(
        if shown >= 0 {
            shown as nat
        } else {
            0
        },
        |i: int| month_cell(i),
    )
}

/// The gutter of grid row `row`: a right-aligned weekday label and a space on
/// every second row, four blanks elsewhere.
pub open spec fn row_label_spans(row: int) -> Seq<(Seq<char>, Style)> {
    if row % 2 == 1 && row / 2 < 3 {
        seq![(weekday_text(row / 2), Style::BrightBlue), (sp(1), Style::Plain)]
    } else {
        seq![(sp(4), Style::Plain)]
    }
}

/// One heat-map cell: the glyph colored by the day's bucket when the week has
/// a day at `row`, a blank otherwise.
pub open spec fn cell_model(week: ContributionWeek, row: int) -> (Seq<char>, Style) {
    if 0 <= row < week.contribution_days@.len() {
        (
            "\u{25a0}"@,
            Style::Heat(bucket_spec(week.contribution_days@[row].contribution_count as int) as u8),
        )
    } else {
        (sp(1), Style::Plain)
    }
}

/// Grid row `row`: calendar padding, the gutter, then one cell per drawn
/// week-column.
pub open spec fn grid_row_model(weeks: Seq<ContributionWeek>, shown: int, cal_pad: int, row: int) -> Seq<
    (Seq<char>, Style),
> {
    seq![(sp(cal_pad), Style::Plain)] + row_label_spans(row) + Seq::new(
        if shown >= 0 {
            shown as nat
        } else {
            0
        },
        |i: int| cell_model(weeks[i], row),
    )
}

/// The color legend: centered, the word Less, the five swatches in ascending
/// bucket order, the word More.
pub open spec fn legend_model(w: int) -> Seq<(Seq<char>, Style)> {
    seq![
        (sp(center_pad_spec(w, 35)), Style::Plain),
        ("   Less  "@, Style::Plain),
        ("\u{25a0}"@, Style::Heat(0)),
        ("\u{25a0}"@, Style::Heat(1)),
        ("\u{25a0}"@, Style::Heat(2)),
        ("\u{25a0}"@, Style::Heat(3)),
        ("\u{25a0}"@, Style::Heat(4)),
        ("  More"@, Style::Plain),
    ]
}

/// An empty output line.
pub open spec fn blank_line() -> Seq<(Seq<char>, Style)> {
    Seq::<(Seq<char>, Style)>::empty()
}

/// The calendar section, for a column budget `budget`: title, total, a blank
/// line, the month row, the seven grid rows, a blank line, and the legend.
pub open spec fn calendar_model(cal: &ContributionCalendar, budget: int, w: int) -> Seq<
    Seq<(Seq<char>, Style)>,
> {
    let shown = if cal.weeks@.len() <= budget {
        cal.weeks@.len() as int
    } else {
        budget
    };
    let cal_pad = center_pad_spec(w, budget + 8);
    seq![
        centered_line(" GitHub Activity (Last Year) "@, Style::TitleBold, w),
        centered_line("Total Contributions: "@ + dec_rep(cal.total_contributions as int), Style::BrightBlue, w),
        blank_line(),
        month_row_model(shown, cal_pad),
    ] + Seq::new(7, |row: int| grid_row_model(cal.weeks@, shown, cal_pad, row)) + seq![
        blank_line(),
        legend_model(w),
    ]
}

/// The average per active day, in tenths, written with one decimal place.
pub open spec fn avg_text(total: int, active: int) -> Seq<char> {
    let t = avg_tenths_spec(total, active);
    dec_rep(t / 10) + "."@ + seq![dec_digit(t % 10)]
}

/// The statistics line.
pub open spec fn stats_text(cal: &ContributionCalendar) -> Seq<char> {
    let active = active_days_spec(cal.weeks@);
    "Active Days: "@ + dec_rep(active) + "  |  Max/Day: "@ + dec_rep(max_day_spec(cal.weeks@))
        + "  |  Avg/Active Day: "@ + avg_text(cal.total_contributions as int, active)
}

/// The statistics section: a blank line, the title, the statistics line, and
/// the closing rule.
pub open spec fn stats_model(cal: &ContributionCalendar, w: int) -> Seq<Seq<(Seq<char>, Style)>> {
    seq![
        blank_line(),
        centered_line(" Statistics "@, Style::TitleBold, w),
        centered_line(stats_text(cal), Style::BrightCyan, w),
        rule_line_model(w),
    ]
}

/// The whole dashboard at terminal width `w`: header, calendar (with the
/// column budget that `w` allows), statistics.
pub open spec fn dashboard_model(p: &Profile, cal: &ContributionCalendar, w: int) -> Seq<
    Seq<(Seq<char>, Style)>,
> {
    header_model(p, w) + calendar_model(cal, column_budget_spec(w), w) + stats_model(cal, w)
}

/// Counts the characters of `s`.
fn text_len(s: &String) -> (r: usize)
    ensures
        r == s@.len(),
{
    s.as_str().unicode_len()
}

/// Builds a full-width horizontal rule line.
fn rule_line(w: usize) -> (r: Vec<Span>)
    ensures
        line_model(r@) == rule_line_model(w as int),
{
    let mut line: Vec<Span> = Vec::new();
    line.push(Span { text: crate::text::rule(w), style: Style::BrightBlue });
    proof {
        assert(line_model(line@) =~= rule_line_model(w as int));
    }
    line
}

/// Builds a line that centers `text` against width `w`.
fn centered(text: String, style: Style, w: usize) -> (r: Vec<Span>)
    ensures
        line_model(r@) == centered_line(text@, style, w as int),
{
    let len = text_len(&text);
    let pad = center_pad(w, len);
    let mut line: Vec<Span> = Vec::new();
    line.push(Span { text: spaces(pad), style: Style::Plain });
    line.push(Span { text, style });
    proof {
        assert(line_model(line@) =~= centered_line(line@[1].text@, style, w as int));
    }
    line
}

/// Builds the header's title line, padded out to the full width.
fn title_line(title: String, w: usize) -> (r: Vec<Span>)
    ensures
        line_model(r@) == padded_title_line(title@, w as int),
{
    let len = text_len(&title);
    let pad = center_pad(w, len);
    let rest = if w >= len {
        proof {
            assert(center_pad_spec(w as int, len as int) <= w - len);
        }
        w - pad - len
    } else {
        0
    };
    let mut line: Vec<Span> = Vec::new();
    line.push(Span { text: spaces(pad), style: Style::Plain });
    line.push(Span { text: title, style: Style::TitleBold });
    line.push(Span { text: spaces(rest), style: Style::Plain });
    proof {
        assert(line_model(line@) =~= padded_title_line(line@[1].text@, w as int));
    }
    line
}

/// Builds the header's info line text.
fn info_string(p: &Profile) -> (r: String)
    ensures
        r@ == info_text(p),
{
    let mut s = String::from_str("Name: ");
    match &p.name {
        Some(n) => s.append(n.as_str()),
        None => s.append(p.login.as_str()),
    }
    s.append("  |  Repos: ");
    push_dec(&mut s, p.public_repos as u128);
    s.append("  |  Followers: ");
    push_dec(&mut s, p.followers as u128);
    s.append("  |  Following: ");
    push_dec(&mut s, p.following as u128);
    proof {
        assert(s@ =~= info_text(p));
    }
    s
}

/// Renders the header section: rules, the title line, and the info line.
pub fn render_header(p: &Profile, w: usize) -> (r: Vec<Vec<Span>>)
    ensures
        lines_model(r@) == header_model(p, w as int),
{
    let mut title = String::from_str(" ");
    title.append(p.login.as_str());
    title.append(" ");
    let mut lines: Vec<Vec<Span>> = Vec::new();
    lines.push(rule_line(w));
    lines.push(title_line(title, w));
    lines.push(centered(info_string(p), Style::BrightCyan, w));
    lines.push(rule_line(w));
    proof {
        assert(lines_model(lines@) =~= header_model(p, w as int));
    }
    lines
}

/// Hands out the three-letter abbreviation of month `k` (0-based).
fn month_abbrev(k: usize) -> (r: &'static str)
    requires
        k < 12,
    ensures
        r@ == month_text(k as int),
{
    if k == 0 {
        "Jan"
    } else if k == 1 {
        "Feb"
    } else if k == 2 {
        "Mar"
    } else if k == 3 {
        "Apr"
    } else if k == 4 {
        "May"
    } else if k == 5 {
        "Jun"
    } else if k == 6 {
        "Jul"
    } else if k == 7 {
        "Aug"
    } else if k == 8 {
        "Sep"
    } else if k == 9 {
        "Oct"
    } else if k == 10 {
        "Nov"
    } else {
        "Dec"
    }
}

/// Hands out the label of labelled grid row `k`.
fn weekday_abbrev(k: usize) -> (r: &'static str)
    requires
        k < 3,
    ensures
        r@ == weekday_text(k as int),
{
    if k == 0 {
        "Mon"
    } else if k == 1 {
        "Wed"
    } else {
        "Fri"
    }
}

/// Builds the month-label row over `shown` week-columns.
fn month_row(shown: usize, cal_pad: usize) -> (r: Vec<Span>)
    ensures
        line_model(r@) == month_row_model(shown as int, cal_pad as int),
{
    let mut line: Vec<Span> = Vec::new();
    line.push(Span { text: spaces(cal_pad), style: Style::Plain });
    line.push(Span { text: spaces(8), style: Style::Plain });
    let mut i: usize = 0;
    while i < shown
        invariant
            i <= shown,
            line@.len() == 2 + i,
            line@[0].text@ == sp(cal_pad as int),
            line@[0].style == Style::Plain,
            line@[1].text@ == sp(8),
            line@[1].style == Style::Plain,
            forall|k: int|
                2 <= k < line@.len() ==> (#[trigger] line@[k]).text@ == month_cell(k - 2).0
                    && line@[k].style == month_cell(k - 2).1,
        decreases shown - i,
    {
        if i % 4 == 0 && i / 4 < 12 {
            line.push(Span { text: String::from_str(month_abbrev(i / 4)), style: Style::BrightBlue });
            proof {
                assert(month_cell(i as int) == (month_text(i as int / 4), Style::BrightBlue));
            }
        } else {
            line.push(Span { text: spaces(1), style: Style::Plain });
            proof {
                assert(month_cell(i as int) == (sp(1), Style::Plain));
            }
        }
        i = i + 1;
    }
    proof {
        assert(line_model(line@) =~~= month_row_model(shown as int, cal_pad as int));
    }
    line
}

/// Builds the heat-map cells of grid row `row`, one per drawn week-column.
fn cells(cal: &ContributionCalendar, shown: usize, row: usize) -> (r: Vec<Span>)
    requires
        shown <= cal.weeks@.len(),
    ensures
        r@.len() == shown,
        forall|k: int|
            0 <= k < shown ==> (#[trigger] r@[k]).text@ == cell_model(cal.weeks@[k], row as int).0
                && r@[k].style == cell_model(cal.weeks@[k], row as int).1,
{
    let mut v: Vec<Span> = Vec::new();
    let mut i: usize = 0;
    while i < shown
        invariant
            i <= shown,
            shown <= cal.weeks@.len(),
            v@.len() == i,
            forall|k: int|
                0 <= k < i ==> (#[trigger] v@[k]).text@ == cell_model(cal.weeks@[k], row as int).0
                    && v@[k].style == cell_model(cal.weeks@[k], row as int).1,
        decreases shown - i,
    {
        let week = &cal.weeks[i];
        if row < week.contribution_days.len() {
            let b = crate::layout::bucket(week.contribution_days[row].contribution_count);
            v.push(Span { text: String::from_str("\u{25a0}"), style: Style::Heat(b) });
        } else {
            v.push(Span { text: spaces(1), style: Style::Plain });
        }
        i = i + 1;
    }
    v
}

/// Builds grid row `row` over the first `shown` weeks.
fn grid_row(cal: &ContributionCalendar, shown: usize, cal_pad: usize, row: usize) -> (r: Vec<Span>)
    requires
        shown <= cal.weeks@.len(),
    ensures
        line_model(r@) == grid_row_model(cal.weeks@, shown as int, cal_pad as int, row as int),
{
    let mut line: Vec<Span> = Vec::new();
    line.push(Span { text: spaces(cal_pad), style: Style::Plain });
    if row % 2 == 1 && row / 2 < 3 {
        line.push(Span { text: String::from_str(weekday_abbrev(row / 2)), style: Style::BrightBlue });
        line.push(Span { text: spaces(1), style: Style::Plain });
    } else {
        line.push(Span { text: spaces(4), style: Style::Plain });
    }
    let ghost pre = seq![(sp(cal_pad as int), Style::Plain)] + row_label_spans(row as int);
    let ghost plen = line@.len() as int;
    proof {
        assert(line_model(line@) =~~= pre);
        assert(plen == pre.len());
    }
    let mut cs = cells(cal, shown, row);
    let ghost cs_snap = cs@;
    line.append(&mut cs);
    proof {
        assert forall|j: int| plen <= j < line@.len() implies (#[trigger] line@[j]) == cs_snap[j
            - plen] by {
        }
        assert(line_model(line@) =~~= grid_row_model(cal.weeks@, shown as int, cal_pad as int, row as int));
    }
    line
}

/// Builds the legend line.
fn legend(w: usize) -> (r: Vec<Span>)
    ensures
        line_model(r@) == legend_model(w as int),
{
    let pad = center_pad(w, 35);
    let mut line: Vec<Span> = Vec::new();
    line.push(Span { text: spaces(pad), style: Style::Plain });
    line.push(Span { text: String::from_str("   Less  "), style: Style::Plain });
    line.push(Span { text: String::from_str("\u{25a0}"), style: Style::Heat(0) });
    line.push(Span { text: String::from_str("\u{25a0}"), style: Style::Heat(1) });
    line.push(Span { text: String::from_str("\u{25a0}"), style: Style::Heat(2) });
    line.push(Span { text: String::from_str("\u{25a0}"), style: Style::Heat(3) });
    line.push(Span { text: String::from_str("\u{25a0}"), style: Style::Heat(4) });
    line.push(Span { text: String::from_str("  More"), style: Style::Plain });
    proof {
        assert(line_model(line@) =~= legend_model(w as int));
    }
    line
}

/// Renders the calendar section for a column budget `budget` against width
/// `w`: title, total, month labels, the 7-row heat-map grid, and the legend.
pub fn render_calendar(cal: &ContributionCalendar, budget: usize, w: usize) -> (r: Vec<Vec<Span>>)
    requires
        budget + 8 <= usize::MAX,
    ensures
        lines_model(r@) == calendar_model(cal, budget as int, w as int),
{
    let shown = crate::layout::weeks_to_show(cal.weeks.len(), budget);
    let cal_pad = center_pad(w, budget + 8);
    let mut total_text = String::from_str("Total Contributions: ");
    push_dec(&mut total_text, cal.total_contributions as u128);
    let ghost weeks = cal.weeks@;
    let mut grid: Vec<Vec<Span>> = Vec::new();
    let mut row: usize = 0;
    while row < 7
        invariant
            row <= 7,
            shown <= weeks.len(),
            weeks == cal.weeks@,
            grid@.len() == row,
            forall|k: int|
                0 <= k < row ==> line_model((#[trigger] grid@[k])@) == grid_row_model(
                    weeks,
                    shown as int,
                    cal_pad as int,
                    k,
                ),
        decreases 7 - row,
    {
        grid.push(grid_row(cal, shown, cal_pad, row));
        row = row + 1;
    }
    let mut lines: Vec<Vec<Span>> = Vec::new();
    lines.push(centered(String::from_str(" GitHub Activity (Last Year) "), Style::TitleBold, w));
    lines.push(centered(total_text, Style::BrightBlue, w));
    lines.push(Vec::new());
    lines.push(month_row(shown, cal_pad));
    let ghost grid_snap = grid@;
    lines.append(&mut grid);
    lines.push(Vec::new());
    lines.push(legend(w));
    proof {
        assert(lines@.len() == 13);
        assert forall|j: int|
            4 <= j < 11 implies line_model((#[trigger] lines@[j])@) == grid_row_model(
            weeks,
            shown as int,
            cal_pad as int,
            j - 4,
        ) by {
            assert(lines@[j] == grid_snap[j - 4]);
        }
        assert(lines_model(lines@) =~~= calendar_model(cal, budget as int, w as int));
    }
    lines
}

/// Builds the statistics line text.
fn stats_string(cal: &ContributionCalendar) -> (r: String)
    requires
        calendar_wf(cal),
    ensures
        r@ == stats_text(cal),
{
    let active = active_days(cal);
    let max = max_per_day(cal);
    let tenths = avg_tenths(cal.total_contributions, active);
    let mut s = String::from_str("Active Days: ");
    push_dec(&mut s, active);
    s.append("  |  Max/Day: ");
    push_dec(&mut s, max as u128);
    s.append("  |  Avg/Active Day: ");
    push_dec(&mut s, tenths / 10);
    s.append(".");
    push_digit(&mut s, (tenths % 10) as u8);
    proof {
        assert(s@ =~= stats_text(cal));
    }
    s
}

/// Renders the statistics section: active days, maximum per day, and the
/// average per active day, between a blank line and the closing rule.
pub fn render_statistics(cal: &ContributionCalendar, w: usize) -> (r: Vec<Vec<Span>>)
    requires
        calendar_wf(cal),
    ensures
        lines_model(r@) == stats_model(cal, w as int),
{
    let mut lines: Vec<Vec<Span>> = Vec::new();
    lines.push(Vec::new());
    lines.push(centered(String::from_str(" Statistics "), Style::TitleBold, w));
    lines.push(centered(stats_string(cal), Style::BrightCyan, w));
    lines.push(rule_line(w));
    proof {
        assert(lines_model(lines@) =~~= stats_model(cal, w as int));
    }
    lines
}

/// Renders the whole dashboard for terminal width `w`: header, calendar, and
/// statistics, in order.
pub fn render_dashboard_for_width(p: &Profile, cal: &ContributionCalendar, w: usize) -> (r: Vec<
    Vec<Span>,
>)
    requires
        calendar_wf(cal),
    ensures
        lines_model(r@) == dashboard_model(p, cal, w as int),
{
    let mut lines = render_header(p, w);
    let budget = column_budget(w);
    let mut cal_lines = render_calendar(cal, budget, w);
    let mut stat_lines = render_statistics(cal, w);
    lines.append(&mut cal_lines);
    lines.append(&mut stat_lines);
    proof {
        assert(lines_model(lines@) =~~= dashboard_model(p, cal, w as int));
    }
    lines
}

} // verus!
