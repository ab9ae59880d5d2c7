//! Building authenticated requests and turning responses into results.
//!
//! The transport itself is the caller's: it performs a `RequestPlan` with
//! HTTP Basic authentication and hands back the status and body.

use vstd::prelude::*;
use vstd::string::*;
use crate::config::{Config, ConfigFailure};
use crate::schema::{decode_projects, listing_error, listing_matches, DecodeFailure, Project, ProjectValues};
use crate::json::{json_document, path_view};

verus! {

/// The board listing endpoint.
pub const BOARDS_ENDPOINT: &'static str = "/rest/agile/1.0/board";

/// The project search endpoint.
pub const PROJECTS_ENDPOINT: &'static str = "/rest/api/3/project/search";

/// A GET request to send: `url`, Basic credentials and the content type.
#[derive(Debug, PartialEq, Eq)]
pub struct RequestPlan {
    pub url: String,
    pub username: String,
    pub password: String,
    pub content_type: String,
}

/// Why a request produced no body to decode.
#[derive(Debug, PartialEq, Eq)]
pub enum RequestFailure {
    /// No usable profile is stored.
    NotConfigured(ConfigFailure),
    /// The connection failed (DNS, connect, TLS, timeout).
    Transport(String),
    /// The service answered with a status outside 200..=299.
    HttpStatus(u16, String),
}

/// Plans a GET of `endpoint` on the profile's site. The URL is the site and
/// the endpoint joined verbatim.
pub fn plan_request(profile: Result<Config, ConfigFailure>, endpoint: &str) -> (r: Result<
    RequestPlan,
    RequestFailure,
>)
    ensures
        match profile {
            Ok(c) => r matches Ok(p) && p.url@ == c.site@ + endpoint@ && p.username@
                == c.username@ && p.password@ == c.password@ && p.content_type@
                == "application/json"@,
            Err(e) => r == Err::<RequestPlan, RequestFailure>(RequestFailure::NotConfigured(e)),
        },
{
    match profile {
        Ok(c) => {
            let url = c.site.concat(endpoint);
            Ok(
                RequestPlan {
                    url,
                    username: c.username,
                    password: c.password,
                    content_type: String::from_str("application/json"),
                },
            )
        },
        Err(e) => Err(RequestFailure::NotConfigured(e)),
    }
}

/// Keeps the body of a successful response; any other status is a failure
/// that carries the body.
pub fn classify_response(status: u16, body: String) -> (r: Result<String, RequestFailure>)
    ensures
        200 <= status <= 299 ==> r == Ok::<String, RequestFailure>(body),
        !(200 <= status <= 299) ==> r == Err::<String, RequestFailure>(
            RequestFailure::HttpStatus(status, body),
        ),
{
    if 200 <= status && status <= 299 {
        Ok(body)
    } else {
        Err(RequestFailure::HttpStatus(status, body))
    }
}

/// One line of the project table.
#[derive(Debug, PartialEq, Eq)]
pub struct ProjectRow {
    pub id: String,
    pub name: String,
    pub view: String,
    pub total_issue_count: Option<u32>,
    pub last_issue_update_time: Option<String>,
}

pub open spec fn row_of(p: ProjectValues, row: ProjectRow) -> bool {
    &&& row.id@ == p.id@
    &&& row.name@ == p.name@
    &&& row.view@ == p.self_url@
    &&& match p.insight {
        Some(i) => row.total_issue_count == Some(i.total_issue_count) && (
        row.last_issue_update_time matches Some(t) && t@ == i.last_issue_update_time@),
        None => row.total_issue_count is None && row.last_issue_update_time is None,
    }
}

pub open spec fn rows_of(ps: Seq<ProjectValues>, rows: Seq<ProjectRow>) -> bool {
    &&& rows.len() == ps.len()
    &&& forall|i: int| 0 <= i < ps.len() ==> row_of(ps[i], #[trigger] rows[i])
}

/// One row per project, in listing order.
pub fn project_rows(listing: &Project) -> (r: Vec<ProjectRow>)
    ensures
        rows_of(listing.values@, r@),
{
    let mut rows: Vec<ProjectRow> = Vec::new();
    let mut i: usize = 0;
    while i < listing.values.len()
        invariant
            0 <= i <= listing.values@.len(),
            rows_of(listing.values@.take(i as int), rows@),
        decreases listing.values@.len() - i,
    {
        let p = &listing.values[i];
        let (total_issue_count, last_issue_update_time) = match &p.insight {
            Some(ins) => (Some(ins.total_issue_count), Some(ins.last_issue_update_time.clone())),
            None => (None, None),
        };
        rows.push(
            ProjectRow {
                id: p.id.clone(),
                name: p.name.clone(),
                view: p.self_url.clone(),
                total_issue_count,
                last_issue_update_time,
            },
        );
        i = i + 1;
        assert(rows_of(listing.values@.take(i as int), rows@)) by {
            assert forall|k: int| 0 <= k < i implies row_of(
                listing.values@.take(i as int)[k],
                #[trigger] rows@[k],
            ) by {
                if k < i - 1 {
                    assert(listing.values@.take(i as int)[k] == listing.values@.take(i - 1)[k]);
                }
            }
        }
    }
    assert(listing.values@.take(listing.values@.len() as int) =~= listing.values@);
    rows
}

/// Decodes a project-listing payload into table rows.
pub fn project_rows_from_body(raw: &str) -> (r: Result<Vec<ProjectRow>, DecodeFailure>)
    ensures
        match json_document(raw@) {
            None => r matches Err(DecodeFailure::NotJson { payload }) && payload@ == raw@,
            Some(j) => match r {
                Ok(rows) => listing_error(j) is None && exists|x: Project|
                    listing_matches(j, x) && rows_of(x.values@, rows@),
                Err(DecodeFailure::SchemaMismatch { path, payload }) => listing_error(j) == Some(
                    path_view(path),
                ) && payload@ == raw@,
                Err(DecodeFailure::NotJson { .. }) => false,
            },
        },
{
    match decode_projects(raw) {
        Ok(listing) => Ok(project_rows(&listing)),
        Err(e) => Err(e),
    }
}

} // verus!
