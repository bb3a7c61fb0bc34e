//! Parts of JSON documents that several reports share.
use vstd::prelude::*;

use crate::json::{json_list, json_string, json_strings, jstr};
use crate::model::{api_name, path_text, RegPath, ValueName};
use crate::report::{
    match_json, permission_json, permission_view_json, search_matches_json, PermissionView,
};
use crate::search::{Match, MatchView};
use crate::select::{Scope, ScopeView};
use crate::text::{concat, join, joined, views, views_push};

verus! {

/// `true`, `false` or `null`.
pub open spec fn json_opt_bool(b: Option<bool>) -> Seq<char> {
    match b {
        Some(true) => "true"@,
        Some(false) => "false"@,
        None => "null"@,
    }
}

/// `true`, `false` or `null`.
pub fn jopt_bool(b: Option<bool>) -> (r: &'static str)
    ensures
        r@ == json_opt_bool(b),
{
    match b {
        Some(true) => "true",
        Some(false) => "false",
        None => "null",
    }
}

/// The path of a key, or `null`.
pub open spec fn opt_path_json(p: Option<RegPath>) -> Seq<char> {
    match p {
        Some(p) => json_string(path_text(p@)),
        None => "null"@,
    }
}

/// The path of a key, or `null`.
pub fn jopt_path(p: &Option<RegPath>) -> (out: String)
    ensures
        out@ == opt_path_json(*p),
{
    match p {
        Some(p) => jstr(p.to_string().as_str()),
        None => "null".to_owned(),
    }
}

/// The name of a value as the system has it, or `null`.
pub open spec fn opt_api_json(n: Option<ValueName>) -> Seq<char> {
    match n {
        Some(n) => json_string(api_name(n@)),
        None => "null"@,
    }
}

/// The name of a value as the system has it, or `null`.
pub fn jopt_api(n: &Option<ValueName>) -> (out: String)
    ensures
        out@ == opt_api_json(*n),
{
    match n {
        Some(n) => jstr(n.api().as_str()),
        None => "null".to_owned(),
    }
}

/// Two texts as a JSON object with the given names.
pub open spec fn pair_text(first: Seq<char>, second: Seq<char>, p: (String, String)) -> Seq<char> {
    "{\""@ + first + "\":"@ + json_string(p.0@) + ",\""@ + second + "\":"@ + json_string(p.1@)
        + "}"@
}

/// Pairs of texts as JSON objects, with commas between them.
pub open spec fn pair_items(
    first: Seq<char>,
    second: Seq<char>,
    pairs: Seq<(String, String)>,
) -> Seq<char> {
    joined(pairs.map_values(|p: (String, String)| pair_text(first, second, p)), ","@)
}

/// Pairs of texts as JSON objects, with commas between them.
pub fn pair_list(first: &str, second: &str, pairs: &Vec<(String, String)>) -> (out: String)
    ensures
        out@ == pair_items(first@, second@, pairs@),
{
    broadcast use views_push;

    let mut parts: Vec<String> = Vec::new();
    for i in 0..pairs.len()
        invariant
            views(parts@) =~= pairs@.take(i as int).map_values(
                |p: (String, String)| pair_text(first@, second@, p),
            ),
    {
        let mut one = concat("{\"", first);
        one.append("\":");
        one.append(jstr(pairs[i].0.as_str()).as_str());
        one.append(",\"");
        one.append(second);
        one.append("\":");
        one.append(jstr(pairs[i].1.as_str()).as_str());
        one.append("}");
        let ghost before = parts@;
        parts.push(one);
        assert(views(parts@) == views(before).push(one@));
    }
    assert(pairs@.take(pairs@.len() as int) =~= pairs@);
    join(parts.as_slice(), ",")
}

/// Texts as JSON strings with commas and spaces between them.
pub open spec fn json_spaced(items: Seq<Seq<char>>) -> Seq<char> {
    joined(items.map_values(|s: Seq<char>| json_string(s)), ", "@)
}

/// Texts as JSON strings with commas and spaces between them.
pub fn json_spaced_strings(values: &[String]) -> (out: String)
    ensures
        out@ == json_spaced(views(values@)),
{
    broadcast use views_push;

    let ghost all = views(values@);
    let mut parts: Vec<String> = Vec::new();
    for i in 0..values.len()
        invariant
            all == views(values@),
            views(parts@) =~= all.take(i as int).map_values(|s: Seq<char>| json_string(s)),
    {
        let one = jstr(values[i].as_str());
        let ghost before = parts@;
        parts.push(one);
        assert(views(parts@) == views(before).push(one@));
    }
    assert(all.take(all.len() as int) =~= all);
    join(parts.as_slice(), ", ")
}

/// The patterns of a scope as JSON members.
pub open spec fn scope_json(s: ScopeView) -> Seq<char> {
    "\"include\":["@ + json_list(s.include_keys) + "],\"exclude\":["@ + json_list(s.exclude_keys)
        + "],\"includeValues\":["@ + json_list(s.include_values) + "],\"excludeValues\":["@
        + json_list(s.exclude_values) + "]"@
}

/// The patterns of a scope as JSON members.
pub fn scope_members(s: &Scope) -> (out: String)
    ensures
        out@ == scope_json(s@),
{
    let mut out = "\"include\":[".to_owned();
    out.append(json_strings(s.include_keys.as_slice()).as_str());
    out.append("],\"exclude\":[");
    out.append(json_strings(s.exclude_keys.as_slice()).as_str());
    out.append("],\"includeValues\":[");
    out.append(json_strings(s.include_values.as_slice()).as_str());
    out.append("],\"excludeValues\":[");
    out.append(json_strings(s.exclude_values.as_slice()).as_str());
    out.append("]");
    out
}

/// Permissions as JSON, with commas between them.
pub open spec fn permission_items(items: Seq<PermissionView>) -> Seq<char> {
    joined(items.map_values(|p: PermissionView| permission_json(p)), ","@)
}

/// Permissions as JSON, with commas between them.
pub fn permission_list(items: &Vec<PermissionView>) -> (out: String)
    ensures
        out@ == permission_items(items@),
{
    broadcast use views_push;

    let mut parts: Vec<String> = Vec::new();
    for i in 0..items.len()
        invariant
            views(parts@) =~= items@.take(i as int).map_values(
                |p: PermissionView| permission_json(p),
            ),
    {
        let one = permission_view_json(&items[i]);
        let ghost before = parts@;
        parts.push(one);
        assert(views(parts@) == views(before).push(one@));
    }
    assert(items@.take(items@.len() as int) =~= items@);
    join(parts.as_slice(), ",")
}

/// Matches as JSON, with a separator between them.
pub open spec fn match_items(matches: Seq<MatchView>, sep: Seq<char>) -> Seq<char> {
    joined(matches.map_values(|m: MatchView| match_json(m)), sep)
}

/// Matches as JSON, with a separator between them.
pub fn match_list(matches: &Vec<Match>, sep: &str) -> (out: String)
    ensures
        out@ == match_items(views(matches@), sep@),
{
    join(search_matches_json(matches).as_slice(), sep)
}

} // verus!
