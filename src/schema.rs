//! The service's listing payloads as typed records, and their decoders.
//!
//! Every decoder either yields a record whose fields are exactly the
//! payload's values, or the path of the first member (in declaration order)
//! that is missing or of the wrong shape. Unknown members are ignored.

use vstd::prelude::*;
use vstd::string::*;
use crate::json::{
    field, field_either, json_document, parse_json, get_field, get_field_either, is_present, key_path, mismatch_at, opt_str,
    opt_str_ok, opt_str_value, path_view, prefix_path, present, req_bool, req_str, req_u32,
    req_u64, spec_array, spec_bool, spec_str, spec_u32, spec_u64, Json, PathStep, StepView,
};

verus! {

/// Where a board lives. The avatar address is read from `avatarUri` or,
/// failing that, from `avatarURI`.
#[derive(Debug, PartialEq, Eq)]
pub struct JiraBoardLocation {
    pub project_id: u64,
    pub display_name: String,
    pub project_name: String,
    pub project_key: String,
    pub project_type_key: String,
    pub avatar_uri: String,
    pub name: String,
}

/// One board. Its type tag (`board_type`) is read from `typeName` or, failing that, `type`.
#[derive(Debug, PartialEq, Eq)]
pub struct JiraBoardValues {
    pub id: u32,
    pub self_type: String,
    pub name: String,
    pub board_type: String,
    pub location: JiraBoardLocation,
}

/// One page of the board listing.
#[derive(Debug, PartialEq, Eq)]
pub struct JiraBoard {
    pub max_results: u32,
    pub start_at: u32,
    pub total: u32,
    pub is_last: bool,
    pub values: Vec<JiraBoardValues>,
}

/// A project's avatar addresses, one per pixel size.
#[derive(Debug, PartialEq, Eq)]
pub struct ProjectAvatar {
    pub forty_eight: String,
    pub twenty_four: String,
    pub sixteen: String,
    pub thirty_two: String,
}

#[derive(Debug, PartialEq, Eq)]
pub struct ProjectCategory {
    pub self_url: String,
    pub id: String,
    pub name: String,
    pub description: String,
}

#[derive(Debug, PartialEq, Eq)]
pub struct ProjectInsight {
    pub total_issue_count: u32,
    pub last_issue_update_time: String,
}

/// One project. Category and insight are absent where the service does not
/// compute them.
#[derive(Debug, PartialEq, Eq)]
pub struct ProjectValues {
    pub expand: String,
    pub self_url: String,
    pub id: String,
    pub key: String,
    pub name: String,
    pub simplified: bool,
    pub style: String,
    pub is_private: bool,
    pub entity_id: String,
    pub uuid: String,
    pub avatar_urls: ProjectAvatar,
    pub project_category: Option<ProjectCategory>,
    pub insight: Option<ProjectInsight>,
}

/// One page of the project listing. `next_page` is only reported, never
/// followed.
#[derive(Debug, PartialEq, Eq)]
pub struct Project {
    pub self_url: String,
    pub next_page: Option<String>,
    pub max_results: u32,
    pub start_at: u32,
    pub total: u32,
    pub is_last: bool,
    pub values: Vec<ProjectValues>,
}

/// Why a payload could not be decoded. Both variants carry the payload.
#[derive(Debug, PartialEq, Eq)]
pub enum DecodeFailure {
    /// The payload is not a JSON document.
    NotJson { payload: String },
    /// A required member is missing or has the wrong shape; `path` leads to it.
    SchemaMismatch { path: Vec<PathStep>, payload: String },
}

// ---------------------------------------------------------------- insight

pub open spec fn insight_error(j: Json) -> Option<Seq<StepView>> {
    if spec_u32(field(j, "totalIssueCount"@)) is None {
        Some(key_path("totalIssueCount"@))
    } else if spec_str(field(j, "lastIssueUpdateTime"@)) is None {
        Some(key_path("lastIssueUpdateTime"@))
    } else {
        None
    }
}

pub open spec fn insight_matches(j: Json, x: ProjectInsight) -> bool {
    &&& spec_u32(field(j, "totalIssueCount"@)) == Some(x.total_issue_count)
    &&& spec_str(field(j, "lastIssueUpdateTime"@)) == Some(x.last_issue_update_time@)
}

pub fn decode_insight(j: &Json) -> (r: Result<ProjectInsight, Vec<PathStep>>)
    ensures
        match r {
            Ok(x) => insight_error(*j) is None && insight_matches(*j, x),
            Err(p) => insight_error(*j) == Some(path_view(p)),
        },
{
    let total_issue_count = match req_u32(get_field(j, "totalIssueCount"), "totalIssueCount") {
        Ok(v) => v,
        Err(p) => return Err(p),
    };
    let last_issue_update_time = match req_str(get_field(j, "lastIssueUpdateTime"), "lastIssueUpdateTime") {
        Ok(v) => v,
        Err(p) => return Err(p),
    };
    Ok(ProjectInsight { total_issue_count, last_issue_update_time })
}

// ---------------------------------------------------------------- category

pub open spec fn category_error(j: Json) -> Option<Seq<StepView>> {
    if spec_str(field(j, "self"@)) is None {
        Some(key_path("self"@))
    } else if spec_str(field(j, "id"@)) is None {
        Some(key_path("id"@))
    } else if spec_str(field(j, "name"@)) is None {
        Some(key_path("name"@))
    } else if spec_str(field(j, "description"@)) is None {
        Some(key_path("description"@))
    } else {
        None
    }
}

pub open spec fn category_matches(j: Json, x: ProjectCategory) -> bool {
    &&& spec_str(field(j, "self"@)) == Some(x.self_url@)
    &&& spec_str(field(j, "id"@)) == Some(x.id@)
    &&& spec_str(field(j, "name"@)) == Some(x.name@)
    &&& spec_str(field(j, "description"@)) == Some(x.description@)
}

pub fn decode_category(j: &Json) -> (r: Result<ProjectCategory, Vec<PathStep>>)
    ensures
        match r {
            Ok(x) => category_error(*j) is None && category_matches(*j, x),
            Err(p) => category_error(*j) == Some(path_view(p)),
        },
{
    let self_url = match req_str(get_field(j, "self"), "self") {
        Ok(v) => v,
        Err(p) => return Err(p),
    };
    let id = match req_str(get_field(j, "id"), "id") {
        Ok(v) => v,
        Err(p) => return Err(p),
    };
    let name = match req_str(get_field(j, "name"), "name") {
        Ok(v) => v,
        Err(p) => return Err(p),
    };
    let description = match req_str(get_field(j, "description"), "description") {
        Ok(v) => v,
        Err(p) => return Err(p),
    };
    Ok(ProjectCategory { self_url, id, name, description })
}

// ---------------------------------------------------------------- avatar

pub open spec fn avatar_error(j: Json) -> Option<Seq<StepView>> {
    if spec_str(field(j, "48x48"@)) is None {
        Some(key_path("48x48"@))
    } else if spec_str(field(j, "24x24"@)) is None {
        Some(key_path("24x24"@))
    } else if spec_str(field(j, "16x16"@)) is None {
        Some(key_path("16x16"@))
    } else if spec_str(field(j, "32x32"@)) is None {
        Some(key_path("32x32"@))
    } else {
        None
    }
}

pub open spec fn avatar_matches(j: Json, x: ProjectAvatar) -> bool {
    &&& spec_str(field(j, "48x48"@)) == Some(x.forty_eight@)
    &&& spec_str(field(j, "24x24"@)) == Some(x.twenty_four@)
    &&& spec_str(field(j, "16x16"@)) == Some(x.sixteen@)
    &&& spec_str(field(j, "32x32"@)) == Some(x.thirty_two@)
}

pub fn decode_avatar(j: &Json) -> (r: Result<ProjectAvatar, Vec<PathStep>>)
    ensures
        match r {
            Ok(x) => avatar_error(*j) is None && avatar_matches(*j, x),
            Err(p) => avatar_error(*j) == Some(path_view(p)),
        },
{
    let forty_eight = match req_str(get_field(j, "48x48"), "48x48") {
        Ok(v) => v,
        Err(p) => return Err(p),
    };
    let twenty_four = match req_str(get_field(j, "24x24"), "24x24") {
        Ok(v) => v,
        Err(p) => return Err(p),
    };
    let sixteen = match req_str(get_field(j, "16x16"), "16x16") {
        Ok(v) => v,
        Err(p) => return Err(p),
    };
    let thirty_two = match req_str(get_field(j, "32x32"), "32x32") {
        Ok(v) => v,
        Err(p) => return Err(p),
    };
    Ok(ProjectAvatar { forty_eight, twenty_four, sixteen, thirty_two })
}


// ---------------------------------------------------------------- project

pub open spec fn project_error(j: Json) -> Option<Seq<StepView>> {
    if spec_str(field(j, "expand"@)) is None {
        Some(key_path("expand"@))
    } else if spec_str(field(j, "self"@)) is None {
        Some(key_path("self"@))
    } else if spec_str(field(j, "id"@)) is None {
        Some(key_path("id"@))
    } else if spec_str(field(j, "key"@)) is None {
        Some(key_path("key"@))
    } else if spec_str(field(j, "name"@)) is None {
        Some(key_path("name"@))
    } else if spec_bool(field(j, "simplified"@)) is None {
        Some(key_path("simplified"@))
    } else if spec_str(field(j, "style"@)) is None {
        Some(key_path("style"@))
    } else if spec_bool(field(j, "isPrivate"@)) is None {
        Some(key_path("isPrivate"@))
    } else if spec_str(field(j, "entityId"@)) is None {
        Some(key_path("entityId"@))
    } else if spec_str(field(j, "uuid"@)) is None {
        Some(key_path("uuid"@))
    } else if field(j, "avatarUrls"@) is None {
        Some(key_path("avatarUrls"@))
    } else if avatar_error(field(j, "avatarUrls"@).unwrap()) is Some {
        Some(key_path("avatarUrls"@) + avatar_error(field(j, "avatarUrls"@).unwrap()).unwrap())
    } else if present(field(j, "projectCategory"@)) && category_error(
        field(j, "projectCategory"@).unwrap(),
    ) is Some {
        Some(key_path("projectCategory"@) + category_error(
            field(j, "projectCategory"@).unwrap(),
        ).unwrap())
    } else if present(field(j, "insight"@)) && insight_error(field(j, "insight"@).unwrap()) is Some {
        Some(key_path("insight"@) + insight_error(field(j, "insight"@).unwrap()).unwrap())
    } else {
        None
    }
}

pub open spec fn project_matches(j: Json, x: ProjectValues) -> bool {
    &&& spec_str(field(j, "expand"@)) == Some(x.expand@)
    &&& spec_str(field(j, "self"@)) == Some(x.self_url@)
    &&& spec_str(field(j, "id"@)) == Some(x.id@)
    &&& spec_str(field(j, "key"@)) == Some(x.key@)
    &&& spec_str(field(j, "name"@)) == Some(x.name@)
    &&& spec_bool(field(j, "simplified"@)) == Some(x.simplified)
    &&& spec_str(field(j, "style"@)) == Some(x.style@)
    &&& spec_bool(field(j, "isPrivate"@)) == Some(x.is_private)
    &&& spec_str(field(j, "entityId"@)) == Some(x.entity_id@)
    &&& spec_str(field(j, "uuid"@)) == Some(x.uuid@)
    &&& avatar_matches(field(j, "avatarUrls"@).unwrap(), x.avatar_urls)
    &&& if present(field(j, "projectCategory"@)) {
        x.project_category matches Some(c) && category_matches(
            field(j, "projectCategory"@).unwrap(),
            c,
        )
    } else {
        x.project_category is None
    }
    &&& if present(field(j, "insight"@)) {
        x.insight matches Some(i) && insight_matches(field(j, "insight"@).unwrap(), i)
    } else {
        x.insight is None
    }
}

pub fn decode_project(j: &Json) -> (r: Result<ProjectValues, Vec<PathStep>>)
    ensures
        match r {
            Ok(x) => project_error(*j) is None && project_matches(*j, x),
            Err(p) => project_error(*j) == Some(path_view(p)),
        },
{
    let expand = match req_str(get_field(j, "expand"), "expand") {
        Ok(v) => v,
        Err(p) => return Err(p),
    };
    let self_url = match req_str(get_field(j, "self"), "self") {
        Ok(v) => v,
        Err(p) => return Err(p),
    };
    let id = match req_str(get_field(j, "id"), "id") {
        Ok(v) => v,
        Err(p) => return Err(p),
    };
    let key = match req_str(get_field(j, "key"), "key") {
        Ok(v) => v,
        Err(p) => return Err(p),
    };
    let name = match req_str(get_field(j, "name"), "name") {
        Ok(v) => v,
        Err(p) => return Err(p),
    };
    let simplified = match req_bool(get_field(j, "simplified"), "simplified") {
        Ok(v) => v,
        Err(p) => return Err(p),
    };
    let style = match req_str(get_field(j, "style"), "style") {
        Ok(v) => v,
        Err(p) => return Err(p),
    };
    let is_private = match req_bool(get_field(j, "isPrivate"), "isPrivate") {
        Ok(v) => v,
        Err(p) => return Err(p),
    };
    let entity_id = match req_str(get_field(j, "entityId"), "entityId") {
        Ok(v) => v,
        Err(p) => return Err(p),
    };
    let uuid = match req_str(get_field(j, "uuid"), "uuid") {
        Ok(v) => v,
        Err(p) => return Err(p),
    };
    let avatar_urls = match get_field(j, "avatarUrls") {
        None => return Err(mismatch_at("avatarUrls")),
        Some(v) => match decode_avatar(v) {
            Ok(a) => a,
            Err(p) => return Err(prefix_path(PathStep::Key(String::from_str("avatarUrls")), p)),
        },
    };
    let category_field = get_field(j, "projectCategory");
    let project_category = if is_present(category_field) {
        match decode_category(category_field.unwrap()) {
            Ok(c) => Some(c),
            Err(p) => return Err(
                prefix_path(PathStep::Key(String::from_str("projectCategory")), p),
            ),
        }
    } else {
        None
    };
    let insight_field = get_field(j, "insight");
    let insight = if is_present(insight_field) {
        match decode_insight(insight_field.unwrap()) {
            Ok(i) => Some(i),
            Err(p) => return Err(prefix_path(PathStep::Key(String::from_str("insight")), p)),
        }
    } else {
        None
    };
    Ok(
        ProjectValues {
            expand,
            self_url,
            id,
            key,
            name,
            simplified,
            style,
            is_private,
            entity_id,
            uuid,
            avatar_urls,
            project_category,
            insight,
        },
    )
}

/// The path to the first project of `items` that fails, led by its index.
pub open spec fn projects_error(items: Seq<Json>) -> Option<Seq<StepView>>
    decreases items.len(),
{
    if items.len() == 0 {
        None
    } else if projects_error(items.drop_last()) is Some {
        projects_error(items.drop_last())
    } else if project_error(items.last()) is Some {
        Some(seq![StepView::Index((items.len() - 1) as nat)] + project_error(items.last()).unwrap())
    } else {
        None
    }
}

proof fn lemma_projects_error_prefix(items: Seq<Json>, k: int)
    requires
        0 <= k <= items.len(),
        projects_error(items.take(k)) is Some,
    ensures
        projects_error(items) == projects_error(items.take(k)),
    decreases items.len() - k,
{
    if k < items.len() {
        assert(items.take(k + 1).drop_last() =~= items.take(k));
        lemma_projects_error_prefix(items, k + 1);
    } else {
        assert(items.take(k) =~= items);
    }
}

pub open spec fn projects_match(items: Seq<Json>, xs: Seq<ProjectValues>) -> bool {
    &&& xs.len() == items.len()
    &&& forall|i: int| 0 <= i < items.len() ==> project_matches(#[trigger] items[i], xs[i])
}

pub fn decode_project_list(items: &Vec<Json>) -> (r: Result<Vec<ProjectValues>, Vec<PathStep>>)
    ensures
        match r {
            Ok(xs) => projects_error(items@) is None && projects_match(items@, xs@),
            Err(p) => projects_error(items@) == Some(path_view(p)),
        },
{
    let mut out: Vec<ProjectValues> = Vec::new();
    let mut i: usize = 0;
    while i < items.len()
        invariant
            0 <= i <= items@.len(),
            projects_error(items@.take(i as int)) is None,
            projects_match(items@.take(i as int), out@),
        decreases items@.len() - i,
    {
        let ghost next = items@.take(i as int + 1);
        assert(next.drop_last() =~= items@.take(i as int));
        assert(next.last() == items@[i as int]);
        match decode_project(&items[i]) {
            Ok(x) => {
                out.push(x);
            },
            Err(p) => {
                proof {
                    lemma_projects_error_prefix(items@, i + 1);
                }
                return Err(prefix_path(PathStep::Index(i), p));
            },
        }
        i = i + 1;
        assert(projects_match(items@.take(i as int), out@)) by {
            assert forall|k: int| 0 <= k < i implies project_matches(
                #[trigger] items@.take(i as int)[k],
                out@[k],
            ) by {
                if k < i - 1 {
                    assert(items@.take(i as int)[k] == items@.take(i - 1)[k]);
                }
            }
        }
    }
    assert(items@.take(items@.len() as int) =~= items@);
    Ok(out)
}

// ---------------------------------------------------------------- project listing

pub open spec fn listing_error(j: Json) -> Option<Seq<StepView>> {
    if spec_str(field(j, "self"@)) is None {
        Some(key_path("self"@))
    } else if !opt_str_ok(field(j, "nextPage"@)) {
        Some(key_path("nextPage"@))
    } else if spec_u32(field(j, "maxResults"@)) is None {
        Some(key_path("maxResults"@))
    } else if spec_u32(field(j, "startAt"@)) is None {
        Some(key_path("startAt"@))
    } else if spec_u32(field(j, "total"@)) is None {
        Some(key_path("total"@))
    } else if spec_bool(field(j, "isLast"@)) is None {
        Some(key_path("isLast"@))
    } else if spec_array(field(j, "values"@)) is None {
        Some(key_path("values"@))
    } else if projects_error(spec_array(field(j, "values"@)).unwrap()) is Some {
        Some(key_path("values"@) + projects_error(spec_array(field(j, "values"@)).unwrap()).unwrap())
    } else {
        None
    }
}

pub open spec fn listing_matches(j: Json, x: Project) -> bool {
    &&& spec_str(field(j, "self"@)) == Some(x.self_url@)
    &&& match opt_str_value(field(j, "nextPage"@)) {
        Some(s) => x.next_page matches Some(n) && n@ == s,
        None => x.next_page is None,
    }
    &&& spec_u32(field(j, "maxResults"@)) == Some(x.max_results)
    &&& spec_u32(field(j, "startAt"@)) == Some(x.start_at)
    &&& spec_u32(field(j, "total"@)) == Some(x.total)
    &&& spec_bool(field(j, "isLast"@)) == Some(x.is_last)
    &&& projects_match(spec_array(field(j, "values"@)).unwrap(), x.values@)
}

/// Decodes a parsed project listing.
pub fn decode_projects_json(j: &Json) -> (r: Result<Project, Vec<PathStep>>)
    ensures
        match r {
            Ok(x) => listing_error(*j) is None && listing_matches(*j, x),
            Err(p) => listing_error(*j) == Some(path_view(p)),
        },
{
    let self_url = match req_str(get_field(j, "self"), "self") {
        Ok(v) => v,
        Err(p) => return Err(p),
    };
    let next_page = match opt_str(get_field(j, "nextPage"), "nextPage") {
        Ok(v) => v,
        Err(p) => return Err(p),
    };
    let max_results = match req_u32(get_field(j, "maxResults"), "maxResults") {
        Ok(v) => v,
        Err(p) => return Err(p),
    };
    let start_at = match req_u32(get_field(j, "startAt"), "startAt") {
        Ok(v) => v,
        Err(p) => return Err(p),
    };
    let total = match req_u32(get_field(j, "total"), "total") {
        Ok(v) => v,
        Err(p) => return Err(p),
    };
    let is_last = match req_bool(get_field(j, "isLast"), "isLast") {
        Ok(v) => v,
        Err(p) => return Err(p),
    };
    let values = match get_field(j, "values") {
        Some(Json::Array(items)) => match decode_project_list(items) {
            Ok(xs) => xs,
            Err(p) => return Err(prefix_path(PathStep::Key(String::from_str("values")), p)),
        },
        _ => return Err(mismatch_at("values")),
    };
    Ok(Project { self_url, next_page, max_results, start_at, total, is_last, values })
}

// ---------------------------------------------------------------- board location

pub open spec fn location_error(j: Json) -> Option<Seq<StepView>> {
    if spec_u64(field(j, "projectId"@)) is None {
        Some(key_path("projectId"@))
    } else if spec_str(field(j, "displayName"@)) is None {
        Some(key_path("displayName"@))
    } else if spec_str(field(j, "projectName"@)) is None {
        Some(key_path("projectName"@))
    } else if spec_str(field(j, "projectKey"@)) is None {
        Some(key_path("projectKey"@))
    } else if spec_str(field(j, "projectTypeKey"@)) is None {
        Some(key_path("projectTypeKey"@))
    } else if spec_str(field_either(j, "avatarUri"@, "avatarURI"@)) is None {
        Some(key_path("avatarUri"@))
    } else if spec_str(field(j, "name"@)) is None {
        Some(key_path("name"@))
    } else {
        None
    }
}

pub open spec fn location_matches(j: Json, x: JiraBoardLocation) -> bool {
    &&& spec_u64(field(j, "projectId"@)) == Some(x.project_id)
    &&& spec_str(field(j, "displayName"@)) == Some(x.display_name@)
    &&& spec_str(field(j, "projectName"@)) == Some(x.project_name@)
    &&& spec_str(field(j, "projectKey"@)) == Some(x.project_key@)
    &&& spec_str(field(j, "projectTypeKey"@)) == Some(x.project_type_key@)
    &&& spec_str(field_either(j, "avatarUri"@, "avatarURI"@)) == Some(x.avatar_uri@)
    &&& spec_str(field(j, "name"@)) == Some(x.name@)
}

pub fn decode_location(j: &Json) -> (r: Result<JiraBoardLocation, Vec<PathStep>>)
    ensures
        match r {
            Ok(x) => location_error(*j) is None && location_matches(*j, x),
            Err(p) => location_error(*j) == Some(path_view(p)),
        },
{
    let project_id = match req_u64(get_field(j, "projectId"), "projectId") {
        Ok(v) => v,
        Err(p) => return Err(p),
    };
    let display_name = match req_str(get_field(j, "displayName"), "displayName") {
        Ok(v) => v,
        Err(p) => return Err(p),
    };
    let project_name = match req_str(get_field(j, "projectName"), "projectName") {
        Ok(v) => v,
        Err(p) => return Err(p),
    };
    let project_key = match req_str(get_field(j, "projectKey"), "projectKey") {
        Ok(v) => v,
        Err(p) => return Err(p),
    };
    let project_type_key = match req_str(get_field(j, "projectTypeKey"), "projectTypeKey") {
        Ok(v) => v,
        Err(p) => return Err(p),
    };
    let avatar_uri = match req_str(
        get_field_either(j, "avatarUri", "avatarURI"),
        "avatarUri",
    ) {
        Ok(v) => v,
        Err(p) => return Err(p),
    };
    let name = match req_str(get_field(j, "name"), "name") {
        Ok(v) => v,
        Err(p) => return Err(p),
    };
    Ok(
        JiraBoardLocation {
            project_id,
            display_name,
            project_name,
            project_key,
            project_type_key,
            avatar_uri,
            name,
        },
    )
}

// ---------------------------------------------------------------- board

pub open spec fn board_error(j: Json) -> Option<Seq<StepView>> {
    if spec_u32(field(j, "id"@)) is None {
        Some(key_path("id"@))
    } else if spec_str(field(j, "self"@)) is None {
        Some(key_path("self"@))
    } else if spec_str(field(j, "name"@)) is None {
        Some(key_path("name"@))
    } else if spec_str(field_either(j, "typeName"@, "type"@)) is None {
        Some(key_path("typeName"@))
    } else if field(j, "location"@) is None {
        Some(key_path("location"@))
    } else if location_error(field(j, "location"@).unwrap()) is Some {
        Some(key_path("location"@) + location_error(field(j, "location"@).unwrap()).unwrap())
    } else {
        None
    }
}

pub open spec fn board_matches(j: Json, x: JiraBoardValues) -> bool {
    &&& spec_u32(field(j, "id"@)) == Some(x.id)
    &&& spec_str(field(j, "self"@)) == Some(x.self_type@)
    &&& spec_str(field(j, "name"@)) == Some(x.name@)
    &&& spec_str(field_either(j, "typeName"@, "type"@)) == Some(x.board_type@)
    &&& location_matches(field(j, "location"@).unwrap(), x.location)
}

pub fn decode_board(j: &Json) -> (r: Result<JiraBoardValues, Vec<PathStep>>)
    ensures
        match r {
            Ok(x) => board_error(*j) is None && board_matches(*j, x),
            Err(p) => board_error(*j) == Some(path_view(p)),
        },
{
    let id = match req_u32(get_field(j, "id"), "id") {
        Ok(v) => v,
        Err(p) => return Err(p),
    };
    let self_type = match req_str(get_field(j, "self"), "self") {
        Ok(v) => v,
        Err(p) => return Err(p),
    };
    let name = match req_str(get_field(j, "name"), "name") {
        Ok(v) => v,
        Err(p) => return Err(p),
    };
    let board_type = match req_str(get_field_either(j, "typeName", "type"), "typeName") {
        Ok(v) => v,
        Err(p) => return Err(p),
    };
    let location = match get_field(j, "location") {
        None => return Err(mismatch_at("location")),
        Some(v) => match decode_location(v) {
            Ok(l) => l,
            Err(p) => return Err(prefix_path(PathStep::Key(String::from_str("location")), p)),
        },
    };
    Ok(JiraBoardValues { id, self_type, name, board_type, location })
}

/// The path to the first board of `items` that fails, led by its index.
pub open spec fn boards_error(items: Seq<Json>) -> Option<Seq<StepView>>
    decreases items.len(),
{
    if items.len() == 0 {
        None
    } else if boards_error(items.drop_last()) is Some {
        boards_error(items.drop_last())
    } else if board_error(items.last()) is Some {
        Some(seq![StepView::Index((items.len() - 1) as nat)] + board_error(items.last()).unwrap())
    } else {
        None
    }
}

proof fn lemma_boards_error_prefix(items: Seq<Json>, k: int)
    requires
        0 <= k <= items.len(),
        boards_error(items.take(k)) is Some,
    ensures
        boards_error(items) == boards_error(items.take(k)),
    decreases items.len() - k,
{
    if k < items.len() {
        assert(items.take(k + 1).drop_last() =~= items.take(k));
        lemma_boards_error_prefix(items, k + 1);
    } else {
        assert(items.take(k) =~= items);
    }
}

pub open spec fn boards_match(items: Seq<Json>, xs: Seq<JiraBoardValues>) -> bool {
    &&& xs.len() == items.len()
    &&& forall|i: int| 0 <= i < items.len() ==> board_matches(#[trigger] items[i], xs[i])
}

pub fn decode_board_list(items: &Vec<Json>) -> (r: Result<Vec<JiraBoardValues>, Vec<PathStep>>)
    ensures
        match r {
            Ok(xs) => boards_error(items@) is None && boards_match(items@, xs@),
            Err(p) => boards_error(items@) == Some(path_view(p)),
        },
{
    let mut out: Vec<JiraBoardValues> = Vec::new();
    let mut i: usize = 0;
    while i < items.len()
        invariant
            0 <= i <= items@.len(),
            boards_error(items@.take(i as int)) is None,
            boards_match(items@.take(i as int), out@),
        decreases items@.len() - i,
    {
        let ghost next = items@.take(i as int + 1);
        assert(next.drop_last() =~= items@.take(i as int));
        assert(next.last() == items@[i as int]);
        match decode_board(&items[i]) {
            Ok(x) => {
                out.push(x);
            },
            Err(p) => {
                proof {
                    lemma_boards_error_prefix(items@, i + 1);
                }
                return Err(prefix_path(PathStep::Index(i), p));
            },
        }
        i = i + 1;
        assert(boards_match(items@.take(i as int), out@)) by {
            assert forall|k: int| 0 <= k < i implies board_matches(
                #[trigger] items@.take(i as int)[k],
                out@[k],
            ) by {
                if k < i - 1 {
                    assert(items@.take(i as int)[k] == items@.take(i - 1)[k]);
                }
            }
        }
    }
    assert(items@.take(items@.len() as int) =~= items@);
    Ok(out)
}

// ---------------------------------------------------------------- board listing

pub open spec fn board_listing_error(j: Json) -> Option<Seq<StepView>> {
    if spec_u32(field(j, "maxResults"@)) is None {
        Some(key_path("maxResults"@))
    } else if spec_u32(field(j, "startAt"@)) is None {
        Some(key_path("startAt"@))
    } else if spec_u32(field(j, "total"@)) is None {
        Some(key_path("total"@))
    } else if spec_bool(field(j, "isLast"@)) is None {
        Some(key_path("isLast"@))
    } else if spec_array(field(j, "values"@)) is None {
        Some(key_path("values"@))
    } else if boards_error(spec_array(field(j, "values"@)).unwrap()) is Some {
        Some(key_path("values"@) + boards_error(spec_array(field(j, "values"@)).unwrap()).unwrap())
    } else {
        None
    }
}

pub open spec fn board_listing_matches(j: Json, x: JiraBoard) -> bool {
    &&& spec_u32(field(j, "maxResults"@)) == Some(x.max_results)
    &&& spec_u32(field(j, "startAt"@)) == Some(x.start_at)
    &&& spec_u32(field(j, "total"@)) == Some(x.total)
    &&& spec_bool(field(j, "isLast"@)) == Some(x.is_last)
    &&& boards_match(spec_array(field(j, "values"@)).unwrap(), x.values@)
}

/// Decodes a parsed board listing.
pub fn decode_boards_json(j: &Json) -> (r: Result<JiraBoard, Vec<PathStep>>)
    ensures
        match r {
            Ok(x) => board_listing_error(*j) is None && board_listing_matches(*j, x),
            Err(p) => board_listing_error(*j) == Some(path_view(p)),
        },
{
    let max_results = match req_u32(get_field(j, "maxResults"), "maxResults") {
        Ok(v) => v,
        Err(p) => return Err(p),
    };
    let start_at = match req_u32(get_field(j, "startAt"), "startAt") {
        Ok(v) => v,
        Err(p) => return Err(p),
    };
    let total = match req_u32(get_field(j, "total"), "total") {
        Ok(v) => v,
        Err(p) => return Err(p),
    };
    let is_last = match req_bool(get_field(j, "isLast"), "isLast") {
        Ok(v) => v,
        Err(p) => return Err(p),
    };
    let values = match get_field(j, "values") {
        Some(Json::Array(items)) => match decode_board_list(items) {
            Ok(xs) => xs,
            Err(p) => return Err(prefix_path(PathStep::Key(String::from_str("values")), p)),
        },
        _ => return Err(mismatch_at("values")),
    };
    Ok(JiraBoard { max_results, start_at, total, is_last, values })
}

// ---------------------------------------------------------------- raw payloads

/// Decodes a raw board-listing payload.
pub fn decode_boards(raw: &str) -> (r: Result<JiraBoard, DecodeFailure>)
    ensures
        match json_document(raw@) {
            None => r matches Err(DecodeFailure::NotJson { payload }) && payload@ == raw@,
            Some(j) => match r {
                Ok(x) => board_listing_error(j) is None && board_listing_matches(j, x),
                Err(DecodeFailure::SchemaMismatch { path, payload }) => board_listing_error(j)
                    == Some(path_view(path)) && payload@ == raw@,
                Err(DecodeFailure::NotJson { .. }) => false,
            },
        },
{
    match parse_json(raw) {
        None => Err(DecodeFailure::NotJson { payload: String::from_str(raw) }),
        Some(j) => match decode_boards_json(&j) {
            Ok(x) => Ok(x),
            Err(path) => Err(DecodeFailure::SchemaMismatch { path, payload: String::from_str(raw) }),
        },
    }
}

/// Decodes a raw project-listing payload.
pub fn decode_projects(raw: &str) -> (r: Result<Project, DecodeFailure>)
    ensures
        match json_document(raw@) {
            None => r matches Err(DecodeFailure::NotJson { payload }) && payload@ == raw@,
            Some(j) => match r {
                Ok(x) => listing_error(j) is None && listing_matches(j, x),
                Err(DecodeFailure::SchemaMismatch { path, payload }) => listing_error(j) == Some(
                    path_view(path),
                ) && payload@ == raw@,
                Err(DecodeFailure::NotJson { .. }) => false,
            },
        },
{
    match parse_json(raw) {
        None => Err(DecodeFailure::NotJson { payload: String::from_str(raw) }),
        Some(j) => match decode_projects_json(&j) {
            Ok(x) => Ok(x),
            Err(path) => Err(DecodeFailure::SchemaMismatch { path, payload: String::from_str(raw) }),
        },
    }
}

// ---------------------------------------------------------------- laws

/// A board location may spell its avatar member `avatarUri` or `avatarURI`:
/// two locations that differ only in that spelling decode alike.
pub proof fn lemma_avatar_uri_spelling(j1: Json, j2: Json)
    requires
        field(j1, "avatarURI"@) is None,
        field(j2, "avatarUri"@) is None,
        field(j1, "avatarUri"@) == field(j2, "avatarURI"@),
        forall|k: Seq<char>|
            k != "avatarUri"@ && k != "avatarURI"@ ==> field(j1, k) == field(j2, k),
    ensures
        location_error(j1) == location_error(j2),
        forall|x: JiraBoardLocation| location_matches(j1, x) == location_matches(j2, x),
{
    reveal_strlit("avatarUri");
    reveal_strlit("avatarURI");
    reveal_strlit("projectId");
    reveal_strlit("displayName");
    reveal_strlit("projectName");
    reveal_strlit("projectKey");
    reveal_strlit("projectTypeKey");
    reveal_strlit("name");
    assert("projectId"@[0] != "avatarUri"@[0]);
    assert("projectId"@[0] != "avatarURI"@[0]);
    assert(field(j1, "projectId"@) == field(j2, "projectId"@));
    assert(field(j1, "displayName"@) == field(j2, "displayName"@));
    assert(field(j1, "projectName"@) == field(j2, "projectName"@));
    assert(field(j1, "projectKey"@) == field(j2, "projectKey"@));
    assert(field(j1, "projectTypeKey"@) == field(j2, "projectTypeKey"@));
    assert(field(j1, "name"@) == field(j2, "name"@));
    assert(field_either(j1, "avatarUri"@, "avatarURI"@) == field_either(
        j2,
        "avatarUri"@,
        "avatarURI"@,
    ));
}

/// Leaving out `projectCategory` and `insight` never makes a project fail:
/// without them it decodes exactly when it does with well-formed ones, and
/// yields both as absent; with them, both are present and match.
pub proof fn lemma_optional_members(j1: Json, j2: Json)
    requires
        field(j1, "projectCategory"@) is None,
        field(j1, "insight"@) is None,
        present(field(j2, "projectCategory"@)),
        category_error(field(j2, "projectCategory"@).unwrap()) is None,
        present(field(j2, "insight"@)),
        insight_error(field(j2, "insight"@).unwrap()) is None,
        forall|k: Seq<char>|
            k != "projectCategory"@ && k != "insight"@ ==> field(j1, k) == field(j2, k),
    ensures
        project_error(j1) == project_error(j2),
        forall|x: ProjectValues|
            project_matches(j1, x) ==> x.project_category is None && x.insight is None,
        forall|x: ProjectValues|
            project_matches(j2, x) ==> (x.project_category matches Some(c) && category_matches(
                field(j2, "projectCategory"@).unwrap(),
                c,
            )) && (x.insight matches Some(i) && insight_matches(field(j2, "insight"@).unwrap(), i)),
{
    reveal_strlit("projectCategory");
    reveal_strlit("insight");
    reveal_strlit("expand");
    reveal_strlit("self");
    reveal_strlit("id");
    reveal_strlit("key");
    reveal_strlit("name");
    reveal_strlit("simplified");
    reveal_strlit("style");
    reveal_strlit("isPrivate");
    reveal_strlit("entityId");
    reveal_strlit("uuid");
    reveal_strlit("avatarUrls");
    assert("expand"@.len() != "projectCategory"@.len() && "expand"@.len() != "insight"@.len());
    assert("self"@.len() != "projectCategory"@.len() && "self"@.len() != "insight"@.len());
    assert(field(j1, "expand"@) == field(j2, "expand"@));
    assert(field(j1, "self"@) == field(j2, "self"@));
    assert(field(j1, "id"@) == field(j2, "id"@));
    assert(field(j1, "key"@) == field(j2, "key"@));
    assert(field(j1, "name"@) == field(j2, "name"@));
    assert(field(j1, "simplified"@) == field(j2, "simplified"@));
    assert(field(j1, "style"@) == field(j2, "style"@));
    assert(field(j1, "isPrivate"@) == field(j2, "isPrivate"@));
    assert(field(j1, "entityId"@) == field(j2, "entityId"@));
    assert(field(j1, "uuid"@) == field(j2, "uuid"@));
    assert(field(j1, "avatarUrls"@) == field(j2, "avatarUrls"@));
}

/// A listing whose `total` is a string fails at `total`, once the members
/// that come before it are well-formed.
pub proof fn lemma_total_as_string(j: Json, s: String)
    requires
        field(j, "total"@) == Some(Json::Str(s)),
        spec_u32(field(j, "maxResults"@)) is Some,
        spec_u32(field(j, "startAt"@)) is Some,
    ensures
        board_listing_error(j) == Some(key_path("total"@)),
        spec_str(field(j, "self"@)) is Some && opt_str_ok(field(j, "nextPage"@)) ==> listing_error(j)
            == Some(key_path("total"@)),
{
}

} // verus!
