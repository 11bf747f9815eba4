use gitstat::ansi::{heat_rgb, line_text, line_to_ansi};
use gitstat::model::{ContributionCalendar, ContributionDay, ContributionWeek, Profile};
use gitstat::render::{Style, render_dashboard_for_width};
use gitstat::term::resolve_geometry;

fn day(count: u32) -> ContributionDay {
    ContributionDay { date: String::from("2024-01-01"), contribution_count: count, color: String::from("#ebedf0") }
}

fn calendar(total: u32, weeks: Vec<Vec<u32>>) -> ContributionCalendar {
    ContributionCalendar {
        total_contributions: total,
        weeks: weeks
            .into_iter()
            .map(|counts| ContributionWeek { contribution_days: counts.into_iter().map(day).collect() })
            .collect(),
    }
}

fn sample_profile() -> Profile {
    Profile {
        login: String::from("alice"),
        name: Some(String::from("Alice")),
        public_repos: 5,
        followers: 10,
        following: 3,
    }
}

fn centered(text: &str, w: usize) -> String {
    let len = text.chars().count();
    let pad = if w >= len { (w - len) / 2 } else { 0 };
    format!("{}{}", " ".repeat(pad), text)
}

#[test]
fn dashboard_line_count() {
    let lines = render_dashboard_for_width(&sample_profile(), &calendar(15, vec![vec![0, 3], vec![11, 1]]), 80);
    assert_eq!(lines.len(), 21);
}

#[test]
fn header_rules_span_full_width() {
    let lines = render_dashboard_for_width(&sample_profile(), &calendar(0, vec![]), 80);
    assert_eq!(line_text(&lines[0]), "\u{2500}".repeat(80));
    assert_eq!(line_text(&lines[3]), "\u{2500}".repeat(80));
    assert_eq!(line_text(&lines[20]), "\u{2500}".repeat(80));
    assert_eq!(lines[0][0].style, Style::BrightBlue);
}

#[test]
fn header_title_line_is_padded_to_full_width() {
    let lines = render_dashboard_for_width(&sample_profile(), &calendar(0, vec![]), 80);
    // " alice " is 7 characters: 36 on the left, 37 on the right.
    let expected = format!("{} alice {}", " ".repeat(36), " ".repeat(37));
    assert_eq!(line_text(&lines[1]), expected);
    assert_eq!(lines[1][1].style, Style::TitleBold);
}

#[test]
fn header_info_line_uses_name_and_counts() {
    let lines = render_dashboard_for_width(&sample_profile(), &calendar(0, vec![]), 80);
    let info = "Name: Alice  |  Repos: 5  |  Followers: 10  |  Following: 3";
    assert_eq!(line_text(&lines[2]), centered(info, 80));
    assert_eq!(lines[2][1].style, Style::BrightCyan);
}

#[test]
fn header_info_line_falls_back_to_login() {
    let mut p = sample_profile();
    p.name = None;
    let lines = render_dashboard_for_width(&p, &calendar(0, vec![]), 80);
    let info = "Name: alice  |  Repos: 5  |  Followers: 10  |  Following: 3";
    assert_eq!(line_text(&lines[2]), centered(info, 80));
}

#[test]
fn calendar_titles_are_centered() {
    let lines = render_dashboard_for_width(&sample_profile(), &calendar(15, vec![vec![0, 3], vec![11, 1]]), 80);
    assert_eq!(line_text(&lines[4]), centered(" GitHub Activity (Last Year) ", 80));
    assert_eq!(line_text(&lines[5]), centered("Total Contributions: 15", 80));
    assert_eq!(line_text(&lines[6]), "");
}

#[test]
fn month_row_labels_every_fourth_column() {
    let lines = render_dashboard_for_width(&sample_profile(), &calendar(15, vec![vec![0, 3], vec![11, 1]]), 80);
    // Budget at width 80 is 20, so the calendar block is padded by (80-28)/2 = 26.
    let expected = format!("{}{}Jan ", " ".repeat(26), " ".repeat(8));
    assert_eq!(line_text(&lines[7]), expected);
}

#[test]
fn month_row_labels_at_wide_width() {
    let cal = calendar(0, vec![vec![0]; 53]);
    let lines = render_dashboard_for_width(&sample_profile(), &cal, 146);
    // Budget 53, pad (146-61)/2 = 42; a three-letter label every fourth
    // column while the month index is valid, one blank per other column.
    let labels = "Jan   Feb   Mar   Apr   May   Jun   Jul   Aug   Sep   Oct   Nov   Dec        ";
    let expected = format!("{}{}{}", " ".repeat(42), " ".repeat(8), labels);
    assert_eq!(line_text(&lines[7]), expected);
}

#[test]
fn grid_rows_have_cells_and_weekday_labels() {
    let lines = render_dashboard_for_width(&sample_profile(), &calendar(15, vec![vec![0, 3], vec![11, 1]]), 80);
    let pad = " ".repeat(26);
    // Row 0: no label, both weeks have a first day.
    assert_eq!(line_text(&lines[8]), format!("{}    \u{25a0}\u{25a0}", pad));
    assert_eq!(lines[8][2].style, Style::Heat(0));
    assert_eq!(lines[8][3].style, Style::Heat(4));
    // Row 1: labelled Mon, counts 3 and 1.
    assert_eq!(line_text(&lines[9]), format!("{}Mon \u{25a0}\u{25a0}", pad));
    assert_eq!(lines[9][1].style, Style::BrightBlue);
    assert_eq!(lines[9][3].style, Style::Heat(2));
    assert_eq!(lines[9][4].style, Style::Heat(1));
    // Row 2: no day at this index in either week.
    assert_eq!(line_text(&lines[10]), format!("{}      ", pad));
    // Rows 3 and 5 carry the Wed and Fri labels.
    assert_eq!(line_text(&lines[11]), format!("{}Wed   ", pad));
    assert_eq!(line_text(&lines[13]), format!("{}Fri   ", pad));
}

#[test]
fn legend_lists_all_five_buckets() {
    let lines = render_dashboard_for_width(&sample_profile(), &calendar(15, vec![vec![0, 3], vec![11, 1]]), 80);
    assert_eq!(line_text(&lines[15]), "");
    let expected = format!("{}   Less  {}  More", " ".repeat(22), "\u{25a0}".repeat(5));
    assert_eq!(line_text(&lines[16]), expected);
    for (i, level) in (2..7).zip(0u8..5u8) {
        assert_eq!(lines[16][i].style, Style::Heat(level));
    }
}

#[test]
fn statistics_section_matches_example() {
    let lines = render_dashboard_for_width(&sample_profile(), &calendar(15, vec![vec![0, 3], vec![11, 1]]), 80);
    assert_eq!(line_text(&lines[17]), "");
    assert_eq!(line_text(&lines[18]), centered(" Statistics ", 80));
    let stats = "Active Days: 3  |  Max/Day: 11  |  Avg/Active Day: 5.0";
    assert_eq!(line_text(&lines[19]), centered(stats, 80));
}

#[test]
fn statistics_with_no_activity_show_zero_average() {
    let lines = render_dashboard_for_width(&sample_profile(), &calendar(0, vec![vec![0, 0]]), 80);
    let stats = "Active Days: 0  |  Max/Day: 0  |  Avg/Active Day: 0.0";
    assert_eq!(line_text(&lines[19]), centered(stats, 80));
}

#[test]
fn narrow_terminal_draws_no_cells() {
    let lines = render_dashboard_for_width(&sample_profile(), &calendar(15, vec![vec![0, 3], vec![11, 1]]), 10);
    // Budget 0: the month row is only the padding and the gutter.
    assert_eq!(line_text(&lines[7]), " ".repeat(9));
    assert_eq!(line_text(&lines[8]), "     ");
}

#[test]
fn zero_width_terminal_still_renders_every_line() {
    let lines = render_dashboard_for_width(&sample_profile(), &calendar(15, vec![vec![0, 3], vec![11, 1]]), 0);
    assert_eq!(lines.len(), 21);
    assert_eq!(line_text(&lines[0]), "");
    assert_eq!(line_text(&lines[1]), " alice ");
    assert_eq!(line_text(&lines[7]), "        ");
}

#[test]
fn heat_rgb_table() {
    assert_eq!(heat_rgb(0), (45, 51, 59));
    assert_eq!(heat_rgb(1), (14, 68, 121));
    assert_eq!(heat_rgb(2), (33, 110, 177));
    assert_eq!(heat_rgb(3), (52, 152, 219));
    assert_eq!(heat_rgb(4), (116, 185, 255));
}

#[test]
fn ansi_line_contains_the_plain_text_of_plain_spans() {
    let lines = render_dashboard_for_width(&sample_profile(), &calendar(0, vec![]), 40);
    // The blank line renders to nothing at all.
    let out = line_to_ansi(&lines[6]);
    assert_eq!(out, "");
}

#[test]
fn ansi_keeps_every_span_text() {
    // Whether or not coloring is enabled for the test process, each span's
    // text survives verbatim: coloring may only wrap it in escape codes.
    let lines = render_dashboard_for_width(&sample_profile(), &calendar(15, vec![vec![0, 3], vec![11, 1]]), 80);
    assert!(line_to_ansi(&lines[0]).contains(&"\u{2500}".repeat(80)));
    assert!(line_to_ansi(&lines[1]).contains(" alice "));
    assert!(line_to_ansi(&lines[2]).contains("Name: Alice"));
    assert!(line_to_ansi(&lines[9]).contains("Mon"));
    assert!(line_to_ansi(&lines[16]).contains("\u{25a0}"));
    assert!(line_to_ansi(&lines[19]).contains("Active Days: 3"));
}

#[test]
fn resolve_geometry_uses_probe_or_fallback() {
    assert_eq!(resolve_geometry(Some((100, 50))), (100, 50));
    assert_eq!(resolve_geometry(None), (80, 24));
}
