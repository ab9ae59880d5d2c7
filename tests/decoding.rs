use jiralang::json::PathStep;
use jiralang::schema::{decode_boards, decode_projects, DecodeFailure};

fn project_json(id: &str, name: &str, extra: &str) -> String {
    format!(
        r#"{{"expand":"description","self":"https://example.atlassian.net/rest/api/3/project/{id}","id":"{id}","key":"K{id}","name":"{name}","simplified":false,"style":"classic","isPrivate":false,"entityId":"e-{id}","uuid":"u-{id}","avatarUrls":{{"48x48":"a48","24x24":"a24","16x16":"a16","32x32":"a32"}}{extra}}}"#
    )
}

fn listing_json(total: &str, values: &[String]) -> String {
    format!(
        r#"{{"self":"https://example.atlassian.net/rest/api/3/project/search","maxResults":50,"startAt":0,"total":{total},"isLast":true,"values":[{}]}}"#,
        values.join(",")
    )
}

const CATEGORY: &str = r#","projectCategory":{"self":"https://c/1","id":"1","name":"Ops","description":"Operations"}"#;
const INSIGHT: &str = r#","insight":{"totalIssueCount":42,"lastIssueUpdateTime":"2020-01-01T00:00:00.000+0000"}"#;

#[test]
fn optional_members_absent() {
    let raw = listing_json("1", &[project_json("10000", "Alpha", "")]);
    let listing = decode_projects(&raw).unwrap();
    assert_eq!(listing.values.len(), 1);
    assert!(listing.values[0].project_category.is_none());
    assert!(listing.values[0].insight.is_none());
    assert_eq!(listing.next_page, None);
}

#[test]
fn optional_members_present() {
    let extra = format!("{}{}", CATEGORY, INSIGHT);
    let raw = listing_json("1", &[project_json("10000", "Alpha", &extra)]);
    let listing = decode_projects(&raw).unwrap();
    let p = &listing.values[0];
    let c = p.project_category.as_ref().unwrap();
    assert_eq!(c.self_url, "https://c/1");
    assert_eq!(c.id, "1");
    assert_eq!(c.name, "Ops");
    assert_eq!(c.description, "Operations");
    let i = p.insight.as_ref().unwrap();
    assert_eq!(i.total_issue_count, 42);
    assert_eq!(i.last_issue_update_time, "2020-01-01T00:00:00.000+0000");
}

#[test]
fn optional_members_null() {
    let raw = listing_json(
        "1",
        &[project_json("10000", "Alpha", r#","projectCategory":null,"insight":null"#)],
    );
    let listing = decode_projects(&raw).unwrap();
    assert!(listing.values[0].project_category.is_none());
    assert!(listing.values[0].insight.is_none());
}

#[test]
fn project_fields_decoded() {
    let raw = r#"{"self":"s","nextPage":"https://n","maxResults":2,"startAt":4,"total":9,"isLast":false,"values":[]}"#;
    let listing = decode_projects(raw).unwrap();
    assert_eq!(listing.self_url, "s");
    assert_eq!(listing.next_page, Some("https://n".to_string()));
    assert_eq!(listing.max_results, 2);
    assert_eq!(listing.start_at, 4);
    assert_eq!(listing.total, 9);
    assert!(!listing.is_last);
    assert!(listing.values.is_empty());
}

#[test]
fn project_record_fields_decoded() {
    let raw = listing_json("1", &[project_json("7", "Seven", "")]);
    let p = &decode_projects(&raw).unwrap().values[0];
    assert_eq!(p.expand, "description");
    assert_eq!(p.self_url, "https://example.atlassian.net/rest/api/3/project/7");
    assert_eq!(p.id, "7");
    assert_eq!(p.key, "K7");
    assert_eq!(p.name, "Seven");
    assert!(!p.simplified);
    assert_eq!(p.style, "classic");
    assert!(!p.is_private);
    assert_eq!(p.entity_id, "e-7");
    assert_eq!(p.uuid, "u-7");
    assert_eq!(p.avatar_urls.forty_eight, "a48");
    assert_eq!(p.avatar_urls.twenty_four, "a24");
    assert_eq!(p.avatar_urls.sixteen, "a16");
    assert_eq!(p.avatar_urls.thirty_two, "a32");
}

#[test]
fn total_as_string_is_mismatch() {
    let raw = listing_json("\"3\"", &[]);
    match decode_projects(&raw) {
        Err(DecodeFailure::SchemaMismatch { path, payload }) => {
            assert_eq!(path, vec![PathStep::Key("total".to_string())]);
            assert_eq!(payload, raw);
        }
        other => panic!("unexpected {:?}", other),
    }
    let boards = r#"{"maxResults":50,"startAt":0,"total":"3","isLast":true,"values":[]}"#;
    match decode_boards(boards) {
        Err(DecodeFailure::SchemaMismatch { path, .. }) => {
            assert_eq!(path, vec![PathStep::Key("total".to_string())]);
        }
        other => panic!("unexpected {:?}", other),
    }
}

#[test]
fn count_over_u32_is_mismatch() {
    let raw = r#"{"self":"s","maxResults":4294967296,"startAt":0,"total":0,"isLast":true,"values":[]}"#;
    match decode_projects(raw) {
        Err(DecodeFailure::SchemaMismatch { path, .. }) => {
            assert_eq!(path, vec![PathStep::Key("maxResults".to_string())]);
        }
        other => panic!("unexpected {:?}", other),
    }
}

#[test]
fn nested_failure_has_full_path() {
    let bad = r#","insight":{"totalIssueCount":-1,"lastIssueUpdateTime":"t"}"#;
    let raw = listing_json("2", &[project_json("1", "A", ""), project_json("2", "B", bad)]);
    match decode_projects(&raw) {
        Err(DecodeFailure::SchemaMismatch { path, .. }) => {
            assert_eq!(
                path,
                vec![
                    PathStep::Key("values".to_string()),
                    PathStep::Index(1),
                    PathStep::Key("insight".to_string()),
                    PathStep::Key("totalIssueCount".to_string()),
                ]
            );
        }
        other => panic!("unexpected {:?}", other),
    }
}

#[test]
fn missing_avatar_size_is_mismatch() {
    let raw = r#"{"self":"s","maxResults":1,"startAt":0,"total":1,"isLast":true,"values":[{"expand":"e","self":"s","id":"1","key":"K","name":"N","simplified":true,"style":"next-gen","isPrivate":true,"entityId":"e","uuid":"u","avatarUrls":{"48x48":"a","24x24":"b","32x32":"d"}}]}"#;
    match decode_projects(raw) {
        Err(DecodeFailure::SchemaMismatch { path, .. }) => {
            assert_eq!(
                path,
                vec![
                    PathStep::Key("values".to_string()),
                    PathStep::Index(0),
                    PathStep::Key("avatarUrls".to_string()),
                    PathStep::Key("16x16".to_string()),
                ]
            );
        }
        other => panic!("unexpected {:?}", other),
    }
}

#[test]
fn not_json_is_reported() {
    match decode_projects("<html>Unauthorized</html>") {
        Err(DecodeFailure::NotJson { payload }) => assert_eq!(payload, "<html>Unauthorized</html>"),
        other => panic!("unexpected {:?}", other),
    }
}

#[test]
fn error_body_is_mismatch() {
    let raw = r#"{"errorMessages":["Unauthorized"],"errors":{}}"#;
    match decode_projects(raw) {
        Err(DecodeFailure::SchemaMismatch { path, .. }) => {
            assert_eq!(path, vec![PathStep::Key("self".to_string())]);
        }
        other => panic!("unexpected {:?}", other),
    }
}

fn board_json(avatar_key: &str, type_key: &str) -> String {
    format!(
        r#"{{"maxResults":50,"startAt":0,"total":1,"isLast":true,"values":[{{"id":84,"self":"https://b/84","name":"Board","{type_key}":"scrum","location":{{"projectId":10040,"displayName":"Demo (DEMO)","projectName":"Demo","projectKey":"DEMO","projectTypeKey":"software","{avatar_key}":"/avatar/1","name":"Demo (DEMO)"}}}}]}}"#
    )
}

#[test]
fn avatar_uri_either_spelling() {
    let a = decode_boards(&board_json("avatarUri", "type")).unwrap();
    let b = decode_boards(&board_json("avatarURI", "type")).unwrap();
    assert_eq!(a.values[0].location.avatar_uri, "/avatar/1");
    assert_eq!(a, b);
}

#[test]
fn board_type_either_key() {
    let a = decode_boards(&board_json("avatarUri", "type")).unwrap();
    let b = decode_boards(&board_json("avatarUri", "typeName")).unwrap();
    assert_eq!(a.values[0].board_type, "scrum");
    assert_eq!(a, b);
}

#[test]
fn board_fields_decoded() {
    let listing = decode_boards(&board_json("avatarUri", "type")).unwrap();
    assert_eq!(listing.max_results, 50);
    assert_eq!(listing.start_at, 0);
    assert_eq!(listing.total, 1);
    assert!(listing.is_last);
    let b = &listing.values[0];
    assert_eq!(b.id, 84);
    assert_eq!(b.self_type, "https://b/84");
    assert_eq!(b.name, "Board");
    assert_eq!(b.location.project_id, 10040);
    assert_eq!(b.location.display_name, "Demo (DEMO)");
    assert_eq!(b.location.project_name, "Demo");
    assert_eq!(b.location.project_key, "DEMO");
    assert_eq!(b.location.project_type_key, "software");
    assert_eq!(b.location.name, "Demo (DEMO)");
}

#[test]
fn board_without_avatar_is_mismatch() {
    let raw = board_json("avatar", "type");
    match decode_boards(&raw) {
        Err(DecodeFailure::SchemaMismatch { path, .. }) => {
            assert_eq!(
                path,
                vec![
                    PathStep::Key("values".to_string()),
                    PathStep::Index(0),
                    PathStep::Key("location".to_string()),
                    PathStep::Key("avatarUri".to_string()),
                ]
            );
        }
        other => panic!("unexpected {:?}", other),
    }
}
