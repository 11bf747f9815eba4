use vstd::prelude::*;
use vstd::string::StringExecFns;
use crate::model::ContributionCalendar;
use crate::text::{join_comma, joined};

verus! {

/// One error entry of a GraphQL response envelope.
pub struct GraphQlError {
    pub message: String,
}

/// The user record of a contributions response: the login it was asked for,
/// the display name, and the contribution calendar.
pub struct GraphQlUser {
    pub login: String,
    pub name: Option<String>,
    pub calendar: ContributionCalendar,
}

/// The data payload of a contributions response.
pub struct GraphQlData {
    pub user: Option<GraphQlUser>,
}

/// A GraphQL response envelope: an optional data payload and an optional list
/// of errors reported by the platform.
pub struct GraphQlResponse {
    pub data: Option<GraphQlData>,
    pub errors: Option<Vec<GraphQlError>>,
}

/// The message texts of a list of envelope errors, in order.
pub open spec fn error_messages(errs: Seq<GraphQlError>) -> Seq<Seq<char>> {
    errs.map_values(|e: GraphQlError| e.message@)
}

/// Resolves the access token: an explicit flag wins, otherwise whatever the
/// environment offered.
pub fn resolve_token(flag: Option<String>, env_token: Option<String>) -> (r: Option<String>)
    ensures
        flag is Some ==> r == flag,
        flag is None ==> r == env_token,
{
    match flag {
        Some(t) => Some(t),
        None => env_token,
    }
}

/// Builds the error text for a username the platform does not know.
pub fn profile_not_found_message(username: &str) -> (r: String)
    ensures
        r@ == "User '"@ + username@ + "' not found"@,
{
    let mut s = String::from_str("User '");
    s.append(username);
    s.append("' not found");
    proof {
        assert(s@ =~= "User '"@ + username@ + "' not found"@);
    }
    s
}

/// Builds the error text for a non-success HTTP status, from the status's own
/// text.
pub fn http_error_message(status: &str) -> (r: String)
    ensures
        r@ == "HTTP error: "@ + status@,
{
    let mut s = String::from_str("HTTP error: ");
    s.append(status);
    s
}

/// The guidance printed when no access token can be resolved, line by line.
pub fn missing_token_lines() -> (r: Vec<String>)
    ensures
        r@.len() == 6,
        r@[0]@ == "Error: GitHub token required!"@,
        r@[1]@ == "You can:"@,
        r@[2]@ == "   1. Pass token with --token YOUR_TOKEN"@,
        r@[3]@ == "   2. Set GITHUB_TOKEN environment variable"@,
        r@[4]@ == "   3. Create a token at: https://github.com/settings/tokens"@,
        r@[5]@ == "      (Required permissions: 'read:user' only)"@,
{
    let mut v: Vec<String> = Vec::new();
    v.push(String::from_str("Error: GitHub token required!"));
    v.push(String::from_str("You can:"));
    v.push(String::from_str("   1. Pass token with --token YOUR_TOKEN"));
    v.push(String::from_str("   2. Set GITHUB_TOKEN environment variable"));
    v.push(String::from_str("   3. Create a token at: https://github.com/settings/tokens"));
    v.push(String::from_str("      (Required permissions: 'read:user' only)"));
    v
}

/// The profile-lookup endpoint for `username`.
pub fn profile_url(username: &str) -> (r: String)
    ensures
        r@ == "https://api.github.com/users/"@ + username@,
{
    let mut s = String::from_str("https://api.github.com/users/");
    s.append(username);
    s
}

/// The fixed GraphQL query for one year of contributions, with the username
/// as its one variable.
pub fn contributions_query() -> (r: &'static str)
    ensures
        r@ == "\n        query($username: String!) {\n            user(login: $username) {\n                login\n                name\n                contributionsCollection {\n                    contributionCalendar {\n                        totalContributions\n                        weeks {\n                            contributionDays {\n                                date\n                                contributionCount\n                                color\n                            }\n                        }\n                    }\n                }\n            }\n        }\n    "@,
{
    "\n        query($username: String!) {\n            user(login: $username) {\n                login\n                name\n                contributionsCollection {\n                    contributionCalendar {\n                        totalContributions\n                        weeks {\n                            contributionDays {\n                                date\n                                contributionCount\n                                color\n                            }\n                        }\n                    }\n                }\n            }\n        }\n    "
}

/// The envelope reports at least one error of its own.
pub open spec fn envelope_has_errors(resp: GraphQlResponse) -> bool {
    resp.errors is Some && resp.errors->0@.len() > 0
}

/// Unwraps a contributions response envelope: reports the envelope's own
/// errors first (joined into one message) when the list is non-empty — an
/// absent or empty list is no failure — then a missing payload, then a
/// missing user, and otherwise hands out the calendar.
pub fn unwrap_contributions(resp: GraphQlResponse, username: &str) -> (r: Result<
    ContributionCalendar,
    String,
>)
    ensures
        envelope_has_errors(resp) ==> r is Err && r->Err_0@ == "GraphQL errors: "@ + joined(
            error_messages(resp.errors->0@),
            ", "@,
        ),
        !envelope_has_errors(resp) && resp.data is None ==> r is Err && r->Err_0@
            == "No data returned by API"@,
        !envelope_has_errors(resp) && resp.data is Some && resp.data->0.user is None ==> r is Err
            && r->Err_0@ == "User '"@ + username@ + "' not found"@,
        !envelope_has_errors(resp) && resp.data is Some && resp.data->0.user is Some ==> r is Ok
            && r->Ok_0 == resp.data->0.user->0.calendar,
{
    let GraphQlResponse { data, errors } = resp;
    let nonempty_errors: Option<Vec<GraphQlError>> = match errors {
        Some(errs) => if errs.len() > 0 {
            Some(errs)
        } else {
            None
        },
        None => None,
    };
    match nonempty_errors {
        Some(errs) => {
            let mut msgs: Vec<String> = Vec::new();
            let mut i: usize = 0;
            while i < errs.len()
                invariant
                    i <= errs@.len(),
                    msgs@.len() == i,
                    forall|k: int| 0 <= k < i ==> (#[trigger] msgs@[k])@ == errs@[k].message@,
                decreases errs@.len() - i,
            {
                msgs.push(errs[i].message.clone());
                i = i + 1;
            }
            proof {
                assert(msgs.deep_view() =~= error_messages(errs@));
            }
            let mut e = String::from_str("GraphQL errors: ");
            let joined_msgs = join_comma(&msgs);
            e.append(joined_msgs.as_str());
            Err(e)
        },
        None => match data {
            None => Err(String::from_str("No data returned by API")),
            Some(payload) => match payload.user {
                None => Err(profile_not_found_message(username)),
                Some(user) => Ok(user.calendar),
            },
        },
    }
}

} // verus!
