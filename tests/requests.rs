use jiralang::client::{
    classify_response, plan_request, project_rows_from_body, RequestFailure, BOARDS_ENDPOINT,
    PROJECTS_ENDPOINT,
};
use jiralang::config::{Config, ConfigFailure};

fn profile() -> Config {
    Config {
        site: "https://example.atlassian.net".to_string(),
        username: "bob".to_string(),
        password: "xyz".to_string(),
    }
}

const TWO_PROJECTS: &str = r#"{"self":"https://example.atlassian.net/rest/api/3/project/search","maxResults":50,"startAt":0,"total":2,"isLast":true,"values":[
{"expand":"description","self":"https://example.atlassian.net/rest/api/3/project/10000","id":"10000","key":"EX","name":"Example","simplified":false,"style":"classic","isPrivate":false,"entityId":"e1","uuid":"u1","avatarUrls":{"48x48":"a","24x24":"b","16x16":"c","32x32":"d"},"insight":{"totalIssueCount":12,"lastIssueUpdateTime":"2021-03-04T05:06:07.000+0000"}},
{"expand":"description","self":"https://example.atlassian.net/rest/api/3/project/10001","id":"10001","key":"AB","name":"Abacus","simplified":true,"style":"next-gen","isPrivate":false,"entityId":"e2","uuid":"u2","avatarUrls":{"48x48":"a","24x24":"b","16x16":"c","32x32":"d"}}]}"#;

#[test]
fn projects_end_to_end() {
    let plan = plan_request(Ok(profile()), PROJECTS_ENDPOINT).unwrap();
    assert_eq!(plan.url, "https://example.atlassian.net/rest/api/3/project/search");
    assert_eq!(plan.username, "bob");
    assert_eq!(plan.password, "xyz");
    assert_eq!(plan.content_type, "application/json");
    let body = classify_response(200, TWO_PROJECTS.to_string()).unwrap();
    let rows = project_rows_from_body(&body).unwrap();
    assert_eq!(rows.len(), 2);
    assert_eq!(rows[0].id, "10000");
    assert_eq!(rows[0].name, "Example");
    assert_eq!(rows[0].view, "https://example.atlassian.net/rest/api/3/project/10000");
    assert_eq!(rows[0].total_issue_count, Some(12));
    assert_eq!(rows[0].last_issue_update_time, Some("2021-03-04T05:06:07.000+0000".to_string()));
    assert_eq!(rows[1].id, "10001");
    assert_eq!(rows[1].name, "Abacus");
    assert_eq!(rows[1].total_issue_count, None);
    assert_eq!(rows[1].last_issue_update_time, None);
}

#[test]
fn boards_url_is_joined_verbatim() {
    let plan = plan_request(Ok(profile()), BOARDS_ENDPOINT).unwrap();
    assert_eq!(plan.url, "https://example.atlassian.net/rest/agile/1.0/board");
    let mut slashed = profile();
    slashed.site = "https://example.atlassian.net/".to_string();
    let plan2 = plan_request(Ok(slashed), BOARDS_ENDPOINT).unwrap();
    assert_eq!(plan2.url, "https://example.atlassian.net//rest/agile/1.0/board");
}

#[test]
fn missing_profile_is_not_configured() {
    assert_eq!(
        plan_request(Err(ConfigFailure::Missing), PROJECTS_ENDPOINT),
        Err(RequestFailure::NotConfigured(ConfigFailure::Missing))
    );
}

#[test]
fn non_success_status_is_reported() {
    assert_eq!(
        classify_response(401, "{\"errorMessages\":[]}".to_string()),
        Err(RequestFailure::HttpStatus(401, "{\"errorMessages\":[]}".to_string()))
    );
    assert_eq!(
        classify_response(199, "x".to_string()),
        Err(RequestFailure::HttpStatus(199, "x".to_string()))
    );
    assert_eq!(
        classify_response(300, "x".to_string()),
        Err(RequestFailure::HttpStatus(300, "x".to_string()))
    );
    assert_eq!(classify_response(299, "ok".to_string()), Ok("ok".to_string()));
}
