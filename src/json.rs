//! A JSON tree as the decoders see it, and typed access to its fields.

use vstd::prelude::*;
use vstd::string::*;

verus! {

/// A parsed JSON value. A number that is a non-negative integer within `u64`
/// is kept as `UInt`; every other number is `OtherNumber`.
pub enum Json {
    Null,
    Bool(bool),
    UInt(u64),
    OtherNumber,
    Str(String),
    Array(Vec<Json>),
    Object(Vec<(String, Json)>),
}

/// One step of the path to a field that failed to decode.
#[derive(Debug, PartialEq, Eq)]
pub enum PathStep {
    Key(String),
    Index(usize),
}

/// The mathematical form of a `PathStep`.
pub enum StepView {
    Key(Seq<char>),
    Index(nat),
}

impl View for PathStep {
    type V = StepView;

    open spec fn view(&self) -> StepView {
        match self {
            PathStep::Key(k) => StepView::Key(k@),
            PathStep::Index(i) => StepView::Index(*i as nat),
        }
    }
}

pub open spec fn path_view(p: Vec<PathStep>) -> Seq<StepView> {
    p@.map_values(|s: PathStep| s@)
}

pub open spec fn key_path(k: Seq<char>) -> Seq<StepView> {
    seq![StepView::Key(k)]
}

/// The value stored under `key` in a list of object members (the first one,
/// should a key repeat).
pub open spec fn entry_of(members: Seq<(String, Json)>, key: Seq<char>) -> Option<Json>
    decreases members.len(),
{
    if members.len() == 0 {
        None
    } else if members[0].0@ == key {
        Some(members[0].1)
    } else {
        entry_of(members.drop_first(), key)
    }
}

/// The member `key` of `j`; nothing when `j` is not an object or lacks it.
pub open spec fn field(j: Json, key: Seq<char>) -> Option<Json> {
    match j {
        Json::Object(members) => entry_of(members@, key),
        _ => None,
    }
}

/// The member under `a`, or, when there is none, under `b`.
pub open spec fn field_either(j: Json, a: Seq<char>, b: Seq<char>) -> Option<Json> {
    if field(j, a) is Some {
        field(j, a)
    } else {
        field(j, b)
    }
}

pub open spec fn spec_str(v: Option<Json>) -> Option<Seq<char>> {
    match v {
        Some(Json::Str(s)) => Some(s@),
        _ => None,
    }
}

pub open spec fn spec_u64(v: Option<Json>) -> Option<u64> {
    match v {
        Some(Json::UInt(n)) => Some(n),
        _ => None,
    }
}

pub open spec fn spec_u32(v: Option<Json>) -> Option<u32> {
    match v {
        Some(Json::UInt(n)) => if n <= u32::MAX {
            Some(n as u32)
        } else {
            None
        },
        _ => None,
    }
}

pub open spec fn spec_bool(v: Option<Json>) -> Option<bool> {
    match v {
        Some(Json::Bool(b)) => Some(b),
        _ => None,
    }
}

pub open spec fn spec_array(v: Option<Json>) -> Option<Seq<Json>> {
    match v {
        Some(Json::Array(items)) => Some(items@),
        _ => None,
    }
}

/// An optional member is present when it is there and not `null`.
pub open spec fn present(v: Option<Json>) -> bool {
    v matches Some(x) && !(x is Null)
}

/// An optional string member: absent or `null` is fine, a string is kept,
/// anything else is a mismatch.
pub open spec fn opt_str_ok(v: Option<Json>) -> bool {
    !present(v) || spec_str(v) is Some
}

pub open spec fn opt_str_value(v: Option<Json>) -> Option<Seq<char>> {
    if present(v) {
        spec_str(v)
    } else {
        None
    }
}

/// Looks up member `key` of `j`.
pub fn get_field<'a>(j: &'a Json, key: &str) -> (r: Option<&'a Json>)
    ensures
        match r {
            Some(v) => field(*j, key@) == Some(*v),
            None => field(*j, key@) is None,
        },
{
    match j {
        Json::Object(members) => {
            let wanted = String::from_str(key);
            let mut i: usize = 0;
            assert(members@.subrange(0, members@.len() as int) =~= members@);
            while i < members.len()
                invariant
                    0 <= i <= members@.len(),
                    wanted@ == key@,
                    field(*j, key@) == entry_of(members@, key@),
                    entry_of(members@, key@) == entry_of(members@.subrange(i as int, members@.len() as int), key@),
                decreases members@.len() - i,
            {
                let ghost rest = members@.subrange(i as int, members@.len() as int);
                assert(rest.drop_first() =~= members@.subrange(i + 1, members@.len() as int));
                assert(rest[0] == members@[i as int]);
                if members[i].0 == wanted {
                    assert(entry_of(rest, key@) == Some(rest[0].1));
                    return Some(&members[i].1);
                }
                i = i + 1;
            }
            None
        },
        _ => None,
    }
}

/// Looks up `a`, then `b` when `a` is absent.
pub fn get_field_either<'a>(j: &'a Json, a: &str, b: &str) -> (r: Option<&'a Json>)
    ensures
        match r {
            Some(v) => field_either(*j, a@, b@) == Some(*v),
            None => field_either(*j, a@, b@) is None,
        },
{
    match get_field(j, a) {
        Some(v) => Some(v),
        None => get_field(j, b),
    }
}

pub fn mismatch_at(key: &str) -> (r: Vec<PathStep>)
    ensures
        path_view(r) == key_path(key@),
{
    let r = vec![PathStep::Key(String::from_str(key))];
    assert(path_view(r) =~= key_path(key@));
    r
}

/// Puts `step` in front of a path that was found below it.
pub fn prefix_path(step: PathStep, p: Vec<PathStep>) -> (r: Vec<PathStep>)
    ensures
        path_view(r) == seq![step@] + path_view(p),
{
    let mut r = p;
    r.insert(0, step);
    assert(path_view(r) =~= seq![step@] + path_view(p));
    r
}

/// A required string value.
pub fn req_str(v: Option<&Json>, key: &str) -> (r: Result<String, Vec<PathStep>>)
    ensures
        match spec_str(opt_deref(v)) {
            Some(s) => r matches Ok(x) && x@ == s,
            None => r matches Err(p) && path_view(p) == key_path(key@),
        },
{
    match v {
        Some(Json::Str(s)) => Ok(s.clone()),
        _ => Err(mismatch_at(key)),
    }
}

/// A required count that fits in `u32`.
pub fn req_u32(v: Option<&Json>, key: &str) -> (r: Result<u32, Vec<PathStep>>)
    ensures
        match spec_u32(opt_deref(v)) {
            Some(n) => r == Ok::<u32, Vec<PathStep>>(n),
            None => r matches Err(p) && path_view(p) == key_path(key@),
        },
{
    match v {
        Some(Json::UInt(n)) => if *n <= u32::MAX as u64 {
            Ok(*n as u32)
        } else {
            Err(mismatch_at(key))
        },
        _ => Err(mismatch_at(key)),
    }
}

/// A required number that fits in `u64`.
pub fn req_u64(v: Option<&Json>, key: &str) -> (r: Result<u64, Vec<PathStep>>)
    ensures
        match spec_u64(opt_deref(v)) {
            Some(n) => r == Ok::<u64, Vec<PathStep>>(n),
            None => r matches Err(p) && path_view(p) == key_path(key@),
        },
{
    match v {
        Some(Json::UInt(n)) => Ok(*n),
        _ => Err(mismatch_at(key)),
    }
}

/// A required boolean.
pub fn req_bool(v: Option<&Json>, key: &str) -> (r: Result<bool, Vec<PathStep>>)
    ensures
        match spec_bool(opt_deref(v)) {
            Some(b) => r == Ok::<bool, Vec<PathStep>>(b),
            None => r matches Err(p) && path_view(p) == key_path(key@),
        },
{
    match v {
        Some(Json::Bool(b)) => Ok(*b),
        _ => Err(mismatch_at(key)),
    }
}

/// An optional string value.
pub fn opt_str(v: Option<&Json>, key: &str) -> (r: Result<Option<String>, Vec<PathStep>>)
    ensures
        opt_str_ok(opt_deref(v)) ==> (r matches Ok(x) && match opt_str_value(opt_deref(v)) {
            Some(s) => x matches Some(y) && y@ == s,
            None => x is None,
        }),
        !opt_str_ok(opt_deref(v)) ==> (r matches Err(p) && path_view(p) == key_path(key@)),
{
    match v {
        None => Ok(None),
        Some(Json::Null) => Ok(None),
        Some(Json::Str(s)) => Ok(Some(s.clone())),
        _ => Err(mismatch_at(key)),
    }
}

/// Tells whether an optional member is present (there and not `null`).
pub fn is_present(v: Option<&Json>) -> (r: bool)
    ensures
        r == present(opt_deref(v)),
{
    match v {
        None => false,
        Some(Json::Null) => false,
        _ => true,
    }
}

pub open spec fn opt_deref(v: Option<&Json>) -> Option<Json> {
    match v {
        Some(x) => Some(*x),
        None => None,
    }
}

#[verifier::external_type_specification]
#[verifier::external_body]
pub struct ExValue(serde_json::Value);

/// The tree that `text` parses to, or nothing when it is not a JSON document.
pub uninterp spec fn json_document(text: Seq<char>) -> Option<Json>;

/// Relies on `serde_json::from_str` into `serde_json::Value`: it accepts
/// exactly the JSON documents, and its result depends on the text alone.
#[verifier::external_body]
pub(crate) fn parse_json(text: &str) -> (r: Option<Json>)
    ensures
        r == json_document(text@),
{
    serde_json::from_str::<serde_json::Value>(text).ok().map(tree_of)
}

/// Relies on the variants of `serde_json::Value`, and on
/// `serde_json::Number::as_u64`, to copy a parsed value member by member.
#[verifier::external_body]
fn tree_of(v: serde_json::Value) -> Json {
    match v {
        serde_json::Value::Null => Json::Null,
        serde_json::Value::Bool(b) => Json::Bool(b),
        serde_json::Value::Number(n) => n.as_u64().map_or(Json::OtherNumber, Json::UInt),
        serde_json::Value::String(s) => Json::Str(s),
        serde_json::Value::Array(a) => Json::Array(a.into_iter().map(tree_of).collect()),
        serde_json::Value::Object(m) => Json::Object(
            m.into_iter().map(|(k, x)| (k, tree_of(x))).collect(),
        ),
    }
}

} // verus!
