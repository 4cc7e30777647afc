//! Launch settings: which profile a project is started with.
//!
//! The settings are a JSON document. Its member `profiles`, where that is an
//! object, maps profile names to their settings; the first name that the
//! parser hands out is the one the project is launched with. Parsing is
//! `serde_json`'s work: what it returns is named here, not worked out.

use vstd::prelude::*;

verus! {

/// A parsed JSON value, as `serde_json` holds it.
#[verifier::external_type_specification]
#[verifier::external_body]
pub struct ExValue(serde_json::Value);

/// What `serde_json` reports when text is not JSON.
#[verifier::external_type_specification]
#[verifier::external_body]
pub struct ExJsonError(serde_json::Error);

/// The members of a JSON object, as `serde_json` holds them.
#[verifier::external_type_specification]
#[verifier::external_body]
#[verifier::reject_recursive_types(K)]
#[verifier::reject_recursive_types(V)]
pub struct ExJsonMap<K, V>(serde_json::Map<K, V>);

/// The value that `serde_json::from_str` reads from `text`; none where it
/// reports an error.
pub uninterp spec fn json_document(text: Seq<char>) -> Option<serde_json::Value>;

/// The member of `value` under `key`, as `serde_json::Value::get` finds it;
/// none where `value` is no object or has no such member.
pub uninterp spec fn json_member(value: serde_json::Value, key: Seq<char>) -> Option<
    serde_json::Value,
>;

/// The members of `value`, as `serde_json::Value::as_object` hands them
/// out; none where `value` is no object.
pub uninterp spec fn json_object(value: serde_json::Value) -> Option<
    serde_json::Map<String, serde_json::Value>,
>;

/// The names of the members of `object`, in the order in which
/// `serde_json::Map::keys` walks them.
pub uninterp spec fn json_keys(object: serde_json::Map<String, serde_json::Value>) -> Seq<
    Seq<char>,
>;

/// Calls `serde_json::from_str` for a `serde_json::Value`. The contract
/// claims only that the outcome is the one named `json_document`: the same
/// text always reads as the same value, or always fails.
#[verifier::external_body]
fn parse_document(text: &str) -> (r: Result<serde_json::Value, serde_json::Error>)
    ensures
        match r {
            Ok(value) => json_document(text@) == Some(value),
            Err(_) => json_document(text@) is None,
        },
{
    serde_json::from_str::<serde_json::Value>(text)
}

/// Calls `serde_json::Value::get` with a string key. The contract claims
/// only that the outcome is the one named `json_member`.
#[verifier::external_body]
fn member<'a>(value: &'a serde_json::Value, key: &str) -> (r: Option<&'a serde_json::Value>)
    ensures
        match r {
            Some(found) => json_member(*value, key@) == Some(*found),
            None => json_member(*value, key@) is None,
        },
{
    value.get(key)
}

/// Calls `serde_json::Value::as_object`. The contract claims only that the
/// outcome is the one named `json_object`.
#[verifier::external_body]
fn as_object<'a>(value: &'a serde_json::Value) -> (r: Option<
    &'a serde_json::Map<String, serde_json::Value>,
>)
    ensures
        match r {
            Some(object) => json_object(*value) == Some(*object),
            None => json_object(*value) is None,
        },
{
    value.as_object()
}

/// Calls `serde_json::Map::keys` and copies each key out. The contract
/// claims that the names come in the order of that walk, which is what
/// `json_keys` names.
#[verifier::external_body]
fn keys(object: &serde_json::Map<String, serde_json::Value>) -> (r: Vec<String>)
    ensures
        r.deep_view() == json_keys(*object),
{
    object.keys().cloned().collect()
}

/// The name of the member that holds the profiles: `profiles`.
pub open spec fn profiles_key() -> Seq<char> {
    seq!['p', 'r', 'o', 'f', 'i', 'l', 'e', 's']
}

/// The names of the profiles that launch settings with the given text
/// declare, in the parser's order; none where the text is not JSON, has no
/// member `profiles` at its top, or where that member is no object.
pub open spec fn profile_names(text: Seq<char>) -> Option<Seq<Seq<char>>> {
    match json_document(text) {
        Some(document) => match json_member(document, profiles_key()) {
            Some(profiles) => match json_object(profiles) {
                Some(object) => Some(json_keys(object)),
                None => None,
            },
            None => None,
        },
        None => None,
    }
}

/// The first of `names`, if there is one.
pub open spec fn first_name(names: Seq<Seq<char>>) -> Option<Seq<char>> {
    if names.len() > 0 {
        Some(names[0])
    } else {
        None
    }
}

/// The profile that launch settings with the given text select: the first
/// that they declare.
pub open spec fn launch_profile(text: Seq<char>) -> Option<Seq<char>> {
    match profile_names(text) {
        Some(names) => first_name(names),
        None => None,
    }
}

/// The profile that is selected is one that the settings declare: the
/// first of them. Settings that declare none select none.
pub proof fn lemma_profile_is_declared(text: Seq<char>)
    ensures
        match launch_profile(text) {
            Some(name) => profile_names(text) is Some && profile_names(text)->0.len() > 0
                && profile_names(text)->0[0] == name && profile_names(text)->0.contains(name),
            None => profile_names(text) is None || profile_names(text)->0.len() == 0,
        },
{
}

/// Which profile is selected depends on the text of the settings alone:
/// two answers to the same text name the same profile.
pub proof fn lemma_profile_depends_on_text_alone(
    text: Seq<char>,
    first: Option<String>,
    second: Option<String>,
)
    requires
        first.deep_view() == launch_profile(text),
        second.deep_view() == launch_profile(text),
    ensures
        first.deep_view() == second.deep_view(),
        first is Some <==> second is Some,
        first is Some ==> first->0@ == second->0@,
{
}

/// The first of the profile names, if there is any.
pub fn first_profile(names: &Vec<String>) -> (r: Option<String>)
    ensures
        r.deep_view() == first_name(names.deep_view()),
{
    if names.len() > 0 {
        Some(names[0].clone())
    } else {
        None
    }
}

/// The names of the profiles that the launch settings in `contents` declare.
pub fn read_profile_names(contents: &str) -> (r: Option<Vec<String>>)
    ensures
        match r {
            Some(names) => profile_names(contents@) == Some(names.deep_view()),
            None => profile_names(contents@) is None,
        },
{
    let document = match parse_document(contents) {
        Ok(document) => document,
        Err(_) => {
            return None;
        },
    };
    proof {
        reveal_strlit("profiles");
        assert("profiles"@ =~= profiles_key());
    }
    let profiles = match member(&document, "profiles") {
        Some(profiles) => profiles,
        None => {
            return None;
        },
    };
    match as_object(profiles) {
        Some(object) => Some(keys(object)),
        None => None,
    }
}

/// Finds the profile to launch with in the text of a project's launch
/// settings. Text that is not JSON, or that declares no profile, selects
/// none: that is no error.
pub fn detect_launch_profile(contents: &str) -> (r: Option<String>)
    ensures
        r.deep_view() == launch_profile(contents@),
{
    match read_profile_names(contents) {
        Some(names) => first_profile(&names),
        None => None,
    }
}

} // verus!
