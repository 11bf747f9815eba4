//! A terminal dashboard for a GitHub user's public activity.
//!
//! The library holds everything the dashboard decides and draws: resolving
//! the access token, interpreting the GraphQL response envelope, the
//! responsive layout (centering, the calendar's column budget, the number of
//! week-columns drawn), the five-bucket heat-map, and the renderer that lays
//! the header, calendar grid and statistics out as styled lines. Each step
//! carries a contract that pins the output down; the surrounding program only
//! performs the two HTTP fetches and prints the finished lines.

pub mod ansi;
pub mod fetch;
pub mod layout;
pub mod model;
pub mod render;
pub mod stats;
pub mod term;
pub mod text;
