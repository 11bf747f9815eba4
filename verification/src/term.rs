use vstd::prelude::*;
use crate::model::{ContributionCalendar, Profile, calendar_wf};
use crate::render::{Span, dashboard_model, lines_model, render_dashboard_for_width};

verus! {

/// Relies on terminal_size::terminal_size: reports the host terminal's
/// dimensions as (columns, rows) when the host reports a size, and nothing
/// otherwise. The answer depends on the process's terminal, so nothing more
/// can be promised of it.
#[verifier::external_body]
fn probe_terminal() -> (r: Option<(u16, u16)>) {
    match terminal_size::terminal_size() {
        Some((terminal_size::Width(w), terminal_size::Height(h))) => Some((w, h)),
        None => None,
    }
}

/// Resolves a terminal-size probe into a definite geometry: the reported
/// dimensions, or the 80x24 fallback when the host reports none.
pub fn resolve_geometry(probe: Option<(u16, u16)>) -> (r: (usize, usize))
    ensures
        r == match probe {
            Some(wh) => (wh.0 as usize, wh.1 as usize),
            None => (80usize, 24usize),
        },
{
    match probe {
        Some((w, h)) => (w as usize, h as usize),
        None => (80, 24),
    }
}

/// Renders the whole dashboard against the host terminal's width (or the
/// fallback width when the host reports none): for some width, the output is
/// exactly the dashboard drawn at that width.
pub fn render_dashboard(p: &Profile, cal: &ContributionCalendar) -> (r: Vec<Vec<Span>>)
    requires
        calendar_wf(cal),
    ensures
        exists|w: int| 0 <= w && lines_model(r@) == dashboard_model(p, cal, w),
{
    let geom = resolve_geometry(probe_terminal());
    let lines = render_dashboard_for_width(p, cal, geom.0);
    proof {
        assert(lines_model(lines@) == dashboard_model(p, cal, geom.0 as int));
    }
    lines
}

} // verus!
