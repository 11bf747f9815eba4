use gitstat::fetch::{
    GraphQlData, GraphQlError, GraphQlResponse, GraphQlUser, contributions_query,
    http_error_message, missing_token_lines, profile_not_found_message, profile_url,
    resolve_token, unwrap_contributions,
};
use gitstat::model::{ContributionCalendar, ContributionDay, ContributionWeek};

fn small_calendar() -> ContributionCalendar {
    ContributionCalendar {
        total_contributions: 2,
        weeks: vec![ContributionWeek {
            contribution_days: vec![ContributionDay {
                date: String::from("2024-01-01"),
                contribution_count: 2,
                color: String::from("#ebedf0"),
            }],
        }],
    }
}

fn user_response(user: Option<GraphQlUser>) -> GraphQlResponse {
    GraphQlResponse { data: Some(GraphQlData { user }), errors: None }
}

#[test]
fn token_flag_wins_over_environment() {
    let r = resolve_token(Some(String::from("flag")), Some(String::from("env")));
    assert_eq!(r, Some(String::from("flag")));
}

#[test]
fn token_falls_back_to_environment() {
    let r = resolve_token(None, Some(String::from("env")));
    assert_eq!(r, Some(String::from("env")));
}

#[test]
fn token_missing_everywhere() {
    assert_eq!(resolve_token(None, None), None);
}

#[test]
fn missing_token_guidance_lines() {
    let lines = missing_token_lines();
    assert_eq!(lines.len(), 6);
    assert_eq!(lines[0], "Error: GitHub token required!");
    assert_eq!(lines[1], "You can:");
    assert_eq!(lines[2], "   1. Pass token with --token YOUR_TOKEN");
    assert_eq!(lines[3], "   2. Set GITHUB_TOKEN environment variable");
    assert_eq!(lines[4], "   3. Create a token at: https://github.com/settings/tokens");
    assert_eq!(lines[5], "      (Required permissions: 'read:user' only)");
}

#[test]
fn unknown_user_message() {
    assert_eq!(profile_not_found_message("doesnotexist123"), "User 'doesnotexist123' not found");
}

#[test]
fn http_error_text() {
    assert_eq!(http_error_message("404 Not Found"), "HTTP error: 404 Not Found");
}

#[test]
fn envelope_errors_are_joined_and_surfaced() {
    let resp = GraphQlResponse {
        data: None,
        errors: Some(vec![GraphQlError { message: String::from("Bad credentials") }]),
    };
    let r = unwrap_contributions(resp, "alice");
    let msg = r.err().unwrap();
    assert_eq!(msg, "GraphQL errors: Bad credentials");
    assert!(msg.contains("Bad credentials"));
}

#[test]
fn envelope_errors_take_priority_over_data() {
    let resp = GraphQlResponse {
        data: Some(GraphQlData { user: None }),
        errors: Some(vec![
            GraphQlError { message: String::from("first") },
            GraphQlError { message: String::from("second") },
        ]),
    };
    let r = unwrap_contributions(resp, "alice");
    assert_eq!(r.err().unwrap(), "GraphQL errors: first, second");
}

#[test]
fn empty_errors_list_is_no_failure() {
    let user = GraphQlUser {
        login: String::from("alice"),
        name: None,
        calendar: small_calendar(),
    };
    let resp = GraphQlResponse {
        data: Some(GraphQlData { user: Some(user) }),
        errors: Some(vec![]),
    };
    let r = unwrap_contributions(resp, "alice");
    assert_eq!(r.ok().unwrap().total_contributions, 2);
}

#[test]
fn empty_errors_list_still_reports_missing_payload() {
    let resp = GraphQlResponse { data: None, errors: Some(vec![]) };
    let r = unwrap_contributions(resp, "alice");
    assert_eq!(r.err().unwrap(), "No data returned by API");
}

#[test]
fn profile_url_names_the_user() {
    assert_eq!(profile_url("alice"), "https://api.github.com/users/alice");
}

#[test]
fn missing_payload_is_reported() {
    let resp = GraphQlResponse { data: None, errors: None };
    let r = unwrap_contributions(resp, "alice");
    assert_eq!(r.err().unwrap(), "No data returned by API");
}

#[test]
fn missing_user_names_the_username() {
    let r = unwrap_contributions(user_response(None), "ghost");
    assert_eq!(r.err().unwrap(), "User 'ghost' not found");
}

#[test]
fn successful_envelope_hands_out_the_calendar() {
    let user = GraphQlUser {
        login: String::from("alice"),
        name: Some(String::from("Alice")),
        calendar: small_calendar(),
    };
    let r = unwrap_contributions(user_response(Some(user)), "alice");
    let cal = r.ok().unwrap();
    assert_eq!(cal.total_contributions, 2);
    assert_eq!(cal.weeks.len(), 1);
    assert_eq!(cal.weeks[0].contribution_days[0].contribution_count, 2);
}

#[test]
fn query_text_matches_the_platform_schema() {
    let q = contributions_query();
    assert!(q.contains("query($username: String!)"));
    assert!(q.contains("user(login: $username)"));
    assert!(q.contains("contributionsCollection"));
    assert!(q.contains("contributionCalendar"));
    assert!(q.contains("totalContributions"));
    assert!(q.contains("contributionDays"));
    assert!(q.contains("contributionCount"));
}
