//! What commands that only look at the registry report.
use vstd::prelude::*;

use crate::apply::{artifact_evidence_json, evidence_json, written_view};
use crate::hive_report::{meets, met};
use crate::input::{data_format_name, format_name, DataFormat};
use crate::json::{
    jbool, jopt_string, json_bool, json_list, json_opt, json_string, json_strings, jstr,
};
use crate::model::{path_text, KeyBlock, RegPath};
use crate::number::{dec_of, push_dec};
use crate::parts::{
    jopt_bool, jopt_path, json_opt_bool, opt_path_json, pair_items, pair_list, permission_items,
    permission_list, scope_json, scope_members,
};
use crate::report::{
    json_of, permission_differences, permission_json, permission_view_json, query_json, stats_json,
    stats_text, PermissionView, TypeCount,
};
use crate::select::{RegistryStats, Scope};
use crate::text::{join, joined, opt_text, views, views_push};

verus! {

// ---------------------------------------------------------------------------
// Exports
// ---------------------------------------------------------------------------

/// What was exported to a file.
#[derive(Debug)]
pub struct ExportFile {
    pub source: RegPath,
    pub computer: Option<String>,
    pub root_as: Option<RegPath>,
    pub format: DataFormat,
    pub recursive: bool,
    pub scope: Scope,
    pub file: String,
    pub dry_run: bool,
    pub keys: usize,
    pub values: usize,
    pub skipped: usize,
    pub written: Option<(u64, String)>,
}

/// What was exported to a file, as JSON.
pub open spec fn export_file_json(d: ExportFile) -> Seq<char> {
    "{\"source\":"@ + json_string(path_text(d.source@)) + ",\"computer\":"@
        + json_opt(opt_text(d.computer)) + ",\"rootAs\":"@ + opt_path_json(d.root_as)
        + ",\"format\":"@ + json_string(format_name(d.format)) + ",\"recursive\":"@
        + json_bool(d.recursive) + ","@ + scope_json(d.scope@) + ",\"file\":"@
        + json_string(d.file@) + ",\"dryRun\":"@ + json_bool(d.dry_run) + ",\"keys\":"@
        + dec_of(d.keys as nat) + ",\"values\":"@ + dec_of(d.values as nat) + ",\"skipped\":"@
        + dec_of(d.skipped as nat) + ", "@
        + evidence_json("bytes"@, "sha256"@, written_view(d.written)) + "}"@
}

impl ExportFile {
    /// What was exported to a file, as JSON.
    pub fn to_json(&self) -> (out: String)
        ensures
            out@ == export_file_json(*self),
    {
        let mut out = "{\"source\":".to_owned();
        out.append(jstr(self.source.to_string().as_str()).as_str());
        out.append(",\"computer\":");
        out.append(jopt_string(&self.computer).as_str());
        out.append(",\"rootAs\":");
        out.append(jopt_path(&self.root_as).as_str());
        out.append(",\"format\":");
        out.append(jstr(data_format_name(self.format)).as_str());
        out.append(",\"recursive\":");
        out.append(jbool(self.recursive));
        out.append(",");
        out.append(scope_members(&self.scope).as_str());
        out.append(",\"file\":");
        out.append(jstr(self.file.as_str()).as_str());
        out.append(",\"dryRun\":");
        out.append(jbool(self.dry_run));
        out.append(",\"keys\":");
        push_dec(&mut out, self.keys as u64);
        out.append(",\"values\":");
        push_dec(&mut out, self.values as u64);
        out.append(",\"skipped\":");
        push_dec(&mut out, self.skipped as u64);
        out.append(", ");
        out.append(artifact_evidence_json(&self.written).as_str());
        out.append("}");
        out
    }
}

/// Registry data as JSON, or `null`.
pub open spec fn opt_data_json(data: Option<String>) -> Seq<char> {
    match data {
        Some(json) => json@,
        None => "null"@,
    }
}

fn push_opt_data(out: &mut String, data: &Option<String>)
    ensures
        final(out)@ == old(out)@ + opt_data_json(*data),
{
    match data {
        Some(json) => out.append(json.as_str()),
        None => out.append("null"),
    }
}

/// What was exported from one view.
#[derive(Debug)]
pub struct ExportView {
    pub view: String,
    pub file: Option<String>,
    pub dry_run: bool,
    pub keys: usize,
    pub values: usize,
    pub skipped: usize,
    /// The data itself as JSON, where it goes to no file.
    pub data: Option<String>,
    pub written: Option<(u64, String)>,
}

/// What was exported from one view, as JSON.
pub open spec fn export_view_json(d: ExportView) -> Seq<char> {
    "{\"view\":"@ + json_string(d.view@) + ",\"file\":"@ + json_opt(opt_text(d.file))
        + ",\"dryRun\":"@ + json_bool(d.dry_run) + ",\"keys\":"@ + dec_of(d.keys as nat)
        + ",\"values\":"@ + dec_of(d.values as nat) + ",\"skipped\":"@ + dec_of(d.skipped as nat)
        + ",\"data\":"@ + opt_data_json(d.data) + ", "@
        + evidence_json("bytes"@, "sha256"@, written_view(d.written)) + "}"@
}

impl ExportView {
    /// What was exported from one view, as JSON.
    pub fn to_json(&self) -> (out: String)
        ensures
            out@ == export_view_json(*self),
    {
        let mut out = "{\"view\":".to_owned();
        out.append(jstr(self.view.as_str()).as_str());
        out.append(",\"file\":");
        out.append(jopt_string(&self.file).as_str());
        out.append(",\"dryRun\":");
        out.append(jbool(self.dry_run));
        out.append(",\"keys\":");
        push_dec(&mut out, self.keys as u64);
        out.append(",\"values\":");
        push_dec(&mut out, self.values as u64);
        out.append(",\"skipped\":");
        push_dec(&mut out, self.skipped as u64);
        out.append(",\"data\":");
        push_opt_data(&mut out, &self.data);
        out.append(", ");
        out.append(artifact_evidence_json(&self.written).as_str());
        out.append("}");
        out
    }
}

/// Exports as JSON, with commas between them.
pub open spec fn export_view_items(items: Seq<ExportView>) -> Seq<char> {
    joined(items.map_values(|d: ExportView| export_view_json(d)), ","@)
}

fn export_view_list(items: &Vec<ExportView>) -> (out: String)
    ensures
        out@ == export_view_items(items@),
{
    broadcast use views_push;

    let mut parts: Vec<String> = Vec::new();
    for i in 0..items.len()
        invariant
            views(parts@) =~= items@.take(i as int).map_values(
                |d: ExportView| export_view_json(d),
            ),
    {
        let one = items[i].to_json();
        let ghost before = parts@;
        parts.push(one);
        assert(views(parts@) == views(before).push(one@));
    }
    assert(items@.take(items@.len() as int) =~= items@);
    join(parts.as_slice(), ",")
}

/// What was exported from both views.
#[derive(Debug)]
pub struct ExportViews {
    pub source: RegPath,
    pub computer: Option<String>,
    pub root_as: Option<RegPath>,
    pub format: DataFormat,
    pub recursive: bool,
    pub scope: Scope,
    pub views: Vec<ExportView>,
    pub failures: Vec<(String, String)>,
}

/// What was exported from both views, as JSON.
pub open spec fn export_views_json(d: ExportViews) -> Seq<char> {
    "{\"source\":"@ + json_string(path_text(d.source@)) + ",\"computer\":"@
        + json_opt(opt_text(d.computer)) + ",\"rootAs\":"@ + opt_path_json(d.root_as)
        + ",\"format\":"@ + json_string(format_name(d.format)) + ",\"recursive\":"@
        + json_bool(d.recursive) + ","@ + scope_json(d.scope@) + ",\"views\":["@
        + export_view_items(d.views@) + "],\"failures\":["@
        + pair_items("view"@, "problem"@, d.failures@) + "]}"@
}

impl ExportViews {
    /// What was exported from both views, as JSON.
    pub fn to_json(&self) -> (out: String)
        ensures
            out@ == export_views_json(*self),
    {
        let mut out = "{\"source\":".to_owned();
        out.append(jstr(self.source.to_string().as_str()).as_str());
        out.append(",\"computer\":");
        out.append(jopt_string(&self.computer).as_str());
        out.append(",\"rootAs\":");
        out.append(jopt_path(&self.root_as).as_str());
        out.append(",\"format\":");
        out.append(jstr(data_format_name(self.format)).as_str());
        out.append(",\"recursive\":");
        out.append(jbool(self.recursive));
        out.append(",");
        out.append(scope_members(&self.scope).as_str());
        out.append(",\"views\":[");
        out.append(export_view_list(&self.views).as_str());
        out.append("],\"failures\":[");
        out.append(pair_list("view", "problem", &self.failures).as_str());
        out.append("]}");
        out
    }
}

// ---------------------------------------------------------------------------
// Queries and lists
// ---------------------------------------------------------------------------

/// What a query found in one view.
#[derive(Debug)]
pub struct QueryView {
    pub view: String,
    /// What stands for the hive of the keys.
    pub root: Option<String>,
    pub keys: Vec<KeyBlock>,
    pub incomplete: bool,
}

/// What a query found in one view, as JSON.
pub open spec fn query_view_json(d: QueryView) -> Seq<char> {
    "{\"view\":"@ + json_string(d.view@) + ",\"keys\":"@
        + query_json(opt_text(d.root), views(d.keys@)) + ",\"incomplete\":"@
        + json_bool(d.incomplete) + "}"@
}

impl QueryView {
    /// What a query found in one view, as JSON.
    pub fn to_json(&self) -> (out: String)
        ensures
            out@ == query_view_json(*self),
    {
        let mut out = "{\"view\":".to_owned();
        out.append(jstr(self.view.as_str()).as_str());
        out.append(",\"keys\":");
        out.append(json_of(&self.keys, &self.root).as_str());
        out.append(",\"incomplete\":");
        out.append(jbool(self.incomplete));
        out.append("}");
        out
    }
}

/// Answers as JSON, with commas between them.
pub open spec fn query_view_items(items: Seq<QueryView>) -> Seq<char> {
    joined(items.map_values(|d: QueryView| query_view_json(d)), ","@)
}

fn query_view_list(items: &Vec<QueryView>) -> (out: String)
    ensures
        out@ == query_view_items(items@),
{
    broadcast use views_push;

    let mut parts: Vec<String> = Vec::new();
    for i in 0..items.len()
        invariant
            views(parts@) =~= items@.take(i as int).map_values(
                |d: QueryView| query_view_json(d),
            ),
    {
        let one = items[i].to_json();
        let ghost before = parts@;
        parts.push(one);
        assert(views(parts@) == views(before).push(one@));
    }
    assert(items@.take(items@.len() as int) =~= items@);
    join(parts.as_slice(), ",")
}

/// What a query found in both views.
#[derive(Debug)]
pub struct QueryViews {
    pub path: String,
    pub views: Vec<QueryView>,
    pub failures: Vec<(String, String)>,
}

/// What a query found in both views, as JSON.
pub open spec fn query_views_json(d: QueryViews) -> Seq<char> {
    "{\"path\":"@ + json_string(d.path@) + ",\"views\":["@ + query_view_items(d.views@)
        + "],\"failures\":["@ + pair_items("view"@, "error"@, d.failures@) + "]}"@
}

impl QueryViews {
    /// What a query found in both views, as JSON.
    pub fn to_json(&self) -> (out: String)
        ensures
            out@ == query_views_json(*self),
    {
        let mut out = "{\"path\":".to_owned();
        out.append(jstr(self.path.as_str()).as_str());
        out.append(",\"views\":[");
        out.append(query_view_list(&self.views).as_str());
        out.append("],\"failures\":[");
        out.append(pair_list("view", "error", &self.failures).as_str());
        out.append("]}");
        out
    }
}

/// The subkeys of a key in one view.
#[derive(Debug)]
pub struct ListView {
    pub view: String,
    pub keys: Vec<String>,
    pub skipped: Vec<(String, String)>,
    pub truncated: bool,
}

/// The subkeys of a key in one view, as JSON.
pub open spec fn list_view_json(d: ListView) -> Seq<char> {
    "{\"view\":"@ + json_string(d.view@) + ",\"keys\":["@ + json_list(views(d.keys@))
        + "],\"skipped\":["@ + pair_items("path"@, "problem"@, d.skipped@) + "],\"truncated\":"@
        + json_bool(d.truncated) + "}"@
}

impl ListView {
    /// The subkeys of a key in one view, as JSON.
    pub fn to_json(&self) -> (out: String)
        ensures
            out@ == list_view_json(*self),
    {
        let mut out = "{\"view\":".to_owned();
        out.append(jstr(self.view.as_str()).as_str());
        out.append(",\"keys\":[");
        out.append(json_strings(self.keys.as_slice()).as_str());
        out.append("],\"skipped\":[");
        out.append(pair_list("path", "problem", &self.skipped).as_str());
        out.append("],\"truncated\":");
        out.append(jbool(self.truncated));
        out.append("}");
        out
    }
}

/// Lists as JSON, with commas between them.
pub open spec fn list_view_items(items: Seq<ListView>) -> Seq<char> {
    joined(items.map_values(|d: ListView| list_view_json(d)), ","@)
}

fn list_view_list(items: &Vec<ListView>) -> (out: String)
    ensures
        out@ == list_view_items(items@),
{
    broadcast use views_push;

    let mut parts: Vec<String> = Vec::new();
    for i in 0..items.len()
        invariant
            views(parts@) =~= items@.take(i as int).map_values(
                |d: ListView| list_view_json(d),
            ),
    {
        let one = items[i].to_json();
        let ghost before = parts@;
        parts.push(one);
        assert(views(parts@) == views(before).push(one@));
    }
    assert(items@.take(items@.len() as int) =~= items@);
    join(parts.as_slice(), ",")
}

/// The subkeys of a key.
#[derive(Debug)]
pub struct ListViews {
    pub path: String,
    pub computer: Option<String>,
    pub recursive: bool,
    pub include_keys: Vec<String>,
    pub exclude_keys: Vec<String>,
    pub limit: u64,
    pub views: Vec<ListView>,
    pub failures: Vec<(String, String)>,
}

/// The subkeys of a key, as JSON.
pub open spec fn list_views_json(d: ListViews) -> Seq<char> {
    "{\"path\":"@ + json_string(d.path@) + ",\"computer\":"@ + json_opt(opt_text(d.computer))
        + ",\"recursive\":"@ + json_bool(d.recursive) + ",\"include\":["@
        + json_list(views(d.include_keys@)) + "],\"exclude\":["@
        + json_list(views(d.exclude_keys@)) + "],\"limit\":"@ + dec_of(d.limit as nat)
        + ",\"views\":["@ + list_view_items(d.views@) + "],\"failures\":["@
        + pair_items("view"@, "error"@, d.failures@) + "]}"@
}

impl ListViews {
    /// The subkeys of a key, as JSON.
    pub fn to_json(&self) -> (out: String)
        ensures
            out@ == list_views_json(*self),
    {
        let mut out = "{\"path\":".to_owned();
        out.append(jstr(self.path.as_str()).as_str());
        out.append(",\"computer\":");
        out.append(jopt_string(&self.computer).as_str());
        out.append(",\"recursive\":");
        out.append(jbool(self.recursive));
        out.append(",\"include\":[");
        out.append(json_strings(self.include_keys.as_slice()).as_str());
        out.append("],\"exclude\":[");
        out.append(json_strings(self.exclude_keys.as_slice()).as_str());
        out.append("],\"limit\":");
        push_dec(&mut out, self.limit);
        out.append(",\"views\":[");
        out.append(list_view_list(&self.views).as_str());
        out.append("],\"failures\":[");
        out.append(pair_list("view", "error", &self.failures).as_str());
        out.append("]}");
        out
    }
}

// ---------------------------------------------------------------------------
// Statistics and fingerprints
// ---------------------------------------------------------------------------

/// Statistics of one view.
#[derive(Debug)]
pub struct StatsView {
    pub view: String,
    pub stats: RegistryStats,
    pub types: Vec<TypeCount>,
    pub conflicts: usize,
    pub matched: bool,
    pub skipped: Vec<(String, String)>,
}

/// Statistics of one view, as JSON.
pub open spec fn stats_view_json(d: StatsView) -> Seq<char> {
    "{\"view\":"@ + json_string(d.view@) + ", "@ + stats_text(d.stats, d.types@)
        + ",\"conflicts\":"@ + dec_of(d.conflicts as nat) + ",\"incomplete\":"@
        + json_bool(d.skipped@.len() != 0) + ",\"matched\":"@ + json_bool(d.matched)
        + ",\"skipped\":["@ + pair_items("path"@, "problem"@, d.skipped@) + "]}"@
}

impl StatsView {
    /// Statistics of one view, as JSON.
    pub fn to_json(&self) -> (out: String)
        ensures
            out@ == stats_view_json(*self),
    {
        let mut out = "{\"view\":".to_owned();
        out.append(jstr(self.view.as_str()).as_str());
        out.append(", ");
        out.append(stats_json(&self.stats, &self.types).as_str());
        out.append(",\"conflicts\":");
        push_dec(&mut out, self.conflicts as u64);
        out.append(",\"incomplete\":");
        out.append(jbool(self.skipped.len() != 0));
        out.append(",\"matched\":");
        out.append(jbool(self.matched));
        out.append(",\"skipped\":[");
        out.append(pair_list("path", "problem", &self.skipped).as_str());
        out.append("]}");
        out
    }
}

/// Statistics as JSON, with commas between them.
pub open spec fn stats_view_items(items: Seq<StatsView>) -> Seq<char> {
    joined(items.map_values(|d: StatsView| stats_view_json(d)), ","@)
}

fn stats_view_list(items: &Vec<StatsView>) -> (out: String)
    ensures
        out@ == stats_view_items(items@),
{
    broadcast use views_push;

    let mut parts: Vec<String> = Vec::new();
    for i in 0..items.len()
        invariant
            views(parts@) =~= items@.take(i as int).map_values(
                |d: StatsView| stats_view_json(d),
            ),
    {
        let one = items[i].to_json();
        let ghost before = parts@;
        parts.push(one);
        assert(views(parts@) == views(before).push(one@));
    }
    assert(items@.take(items@.len() as int) =~= items@);
    join(parts.as_slice(), ",")
}

/// Statistics of a live key.
#[derive(Debug)]
pub struct StatsViews {
    pub source: String,
    pub computer: Option<String>,
    pub root_as: Option<RegPath>,
    pub scope: Scope,
    pub views: Vec<StatsView>,
    pub failures: Vec<(String, String)>,
}

/// Statistics of a live key, as JSON.
pub open spec fn stats_views_json(d: StatsViews) -> Seq<char> {
    "{\"source\":"@ + json_string(d.source@) + ",\"computer\":"@ + json_opt(opt_text(d.computer))
        + ",\"rootAs\":"@ + opt_path_json(d.root_as) + ","@ + scope_json(d.scope@)
        + ",\"views\":["@ + stats_view_items(d.views@) + "],\"failures\":["@
        + pair_items("view"@, "error"@, d.failures@) + "]}"@
}

impl StatsViews {
    /// Statistics of a live key, as JSON.
    pub fn to_json(&self) -> (out: String)
        ensures
            out@ == stats_views_json(*self),
    {
        let mut out = "{\"source\":".to_owned();
        out.append(jstr(self.source.as_str()).as_str());
        out.append(",\"computer\":");
        out.append(jopt_string(&self.computer).as_str());
        out.append(",\"rootAs\":");
        out.append(jopt_path(&self.root_as).as_str());
        out.append(",");
        out.append(scope_members(&self.scope).as_str());
        out.append(",\"views\":[");
        out.append(stats_view_list(&self.views).as_str());
        out.append("],\"failures\":[");
        out.append(pair_list("view", "error", &self.failures).as_str());
        out.append("]}");
        out
    }
}

/// Statistics of a file.
#[derive(Debug)]
pub struct StatsFile {
    pub source: String,
    pub format: String,
    pub stats: RegistryStats,
    pub types: Vec<TypeCount>,
    pub conflicts: usize,
    pub incomplete: bool,
    pub matched: bool,
    pub scope: Scope,
}

/// Statistics of a file, as JSON.
pub open spec fn stats_file_json(d: StatsFile) -> Seq<char> {
    "{\"source\":"@ + json_string(d.source@) + ",\"format\":"@ + json_string(d.format@)
        + ",\"rootAs\":null, "@ + stats_text(d.stats, d.types@) + ",\"conflicts\":"@
        + dec_of(d.conflicts as nat) + ",\"incomplete\":"@ + json_bool(d.incomplete)
        + ",\"matched\":"@ + json_bool(d.matched) + ","@ + scope_json(d.scope@) + "}"@
}

impl StatsFile {
    /// Statistics of a file, as JSON.
    pub fn to_json(&self) -> (out: String)
        ensures
            out@ == stats_file_json(*self),
    {
        let mut out = "{\"source\":".to_owned();
        out.append(jstr(self.source.as_str()).as_str());
        out.append(",\"format\":");
        out.append(jstr(self.format.as_str()).as_str());
        out.append(",\"rootAs\":null, ");
        out.append(stats_json(&self.stats, &self.types).as_str());
        out.append(",\"conflicts\":");
        push_dec(&mut out, self.conflicts as u64);
        out.append(",\"incomplete\":");
        out.append(jbool(self.incomplete));
        out.append(",\"matched\":");
        out.append(jbool(self.matched));
        out.append(",");
        out.append(scope_members(&self.scope).as_str());
        out.append("}");
        out
    }
}

/// The fingerprint of one view.
#[derive(Debug)]
pub struct FingerprintView {
    pub view: String,
    pub sha256: String,
    pub conflicts: usize,
    pub expected: Option<String>,
    pub matched: bool,
    pub keys: usize,
    pub values: usize,
    pub skipped: Vec<(String, String)>,
}

/// The fingerprint of one view, as JSON.
pub open spec fn fingerprint_view_json(d: FingerprintView) -> Seq<char> {
    "{\"view\":"@ + json_string(d.view@) + ",\"sha256\":"@ + json_string(d.sha256@)
        + ",\"conflicts\":"@ + dec_of(d.conflicts as nat) + ",\"incomplete\":"@
        + json_bool(d.skipped@.len() != 0) + ",\"expected\":"@ + json_opt(opt_text(d.expected))
        + ",\"matches\":"@ + json_opt_bool(met(opt_text(d.expected), d.matched, d.sha256@))
        + ",\"matched\":"@ + json_bool(d.matched) + ",\"keys\":"@ + dec_of(d.keys as nat)
        + ",\"values\":"@ + dec_of(d.values as nat) + ",\"skipped\":["@
        + pair_items("path"@, "problem"@, d.skipped@) + "]}"@
}

impl FingerprintView {
    /// The fingerprint of one view, as JSON.
    pub fn to_json(&self) -> (out: String)
        ensures
            out@ == fingerprint_view_json(*self),
    {
        let mut out = "{\"view\":".to_owned();
        out.append(jstr(self.view.as_str()).as_str());
        out.append(",\"sha256\":");
        out.append(jstr(self.sha256.as_str()).as_str());
        out.append(",\"conflicts\":");
        push_dec(&mut out, self.conflicts as u64);
        out.append(",\"incomplete\":");
        out.append(jbool(self.skipped.len() != 0));
        out.append(",\"expected\":");
        out.append(jopt_string(&self.expected).as_str());
        out.append(",\"matches\":");
        out.append(jopt_bool(meets(&self.expected, self.matched, self.sha256.as_str())));
        out.append(",\"matched\":");
        out.append(jbool(self.matched));
        out.append(",\"keys\":");
        push_dec(&mut out, self.keys as u64);
        out.append(",\"values\":");
        push_dec(&mut out, self.values as u64);
        out.append(",\"skipped\":[");
        out.append(pair_list("path", "problem", &self.skipped).as_str());
        out.append("]}");
        out
    }
}

/// Fingerprints as JSON, with commas between them.
pub open spec fn fingerprint_view_items(items: Seq<FingerprintView>) -> Seq<char> {
    joined(items.map_values(|d: FingerprintView| fingerprint_view_json(d)), ","@)
}

fn fingerprint_view_list(items: &Vec<FingerprintView>) -> (out: String)
    ensures
        out@ == fingerprint_view_items(items@),
{
    broadcast use views_push;

    let mut parts: Vec<String> = Vec::new();
    for i in 0..items.len()
        invariant
            views(parts@) =~= items@.take(i as int).map_values(
                |d: FingerprintView| fingerprint_view_json(d),
            ),
    {
        let one = items[i].to_json();
        let ghost before = parts@;
        parts.push(one);
        assert(views(parts@) == views(before).push(one@));
    }
    assert(items@.take(items@.len() as int) =~= items@);
    join(parts.as_slice(), ",")
}

/// The fingerprints of a live key.
#[derive(Debug)]
pub struct FingerprintViews {
    pub source: String,
    pub computer: Option<String>,
    pub root_as: Option<RegPath>,
    pub canonical_version: u32,
    pub scope: Scope,
    pub views: Vec<FingerprintView>,
    pub failures: Vec<(String, String)>,
}

/// The fingerprints of a live key, as JSON.
pub open spec fn fingerprint_views_json(d: FingerprintViews) -> Seq<char> {
    "{\"source\":"@ + json_string(d.source@) + ",\"computer\":"@ + json_opt(opt_text(d.computer))
        + ",\"rootAs\":"@ + opt_path_json(d.root_as) + ",\"canonicalVersion\":"@
        + dec_of(d.canonical_version as nat) + ",\"algorithm\":\"sha256\","@
        + scope_json(d.scope@) + ",\"views\":["@ + fingerprint_view_items(d.views@)
        + "],\"failures\":["@ + pair_items("view"@, "error"@, d.failures@) + "]}"@
}

impl FingerprintViews {
    /// The fingerprints of a live key, as JSON.
    pub fn to_json(&self) -> (out: String)
        ensures
            out@ == fingerprint_views_json(*self),
    {
        let mut out = "{\"source\":".to_owned();
        out.append(jstr(self.source.as_str()).as_str());
        out.append(",\"computer\":");
        out.append(jopt_string(&self.computer).as_str());
        out.append(",\"rootAs\":");
        out.append(jopt_path(&self.root_as).as_str());
        out.append(",\"canonicalVersion\":");
        push_dec(&mut out, self.canonical_version as u64);
        out.append(",\"algorithm\":\"sha256\",");
        out.append(scope_members(&self.scope).as_str());
        out.append(",\"views\":[");
        out.append(fingerprint_view_list(&self.views).as_str());
        out.append("],\"failures\":[");
        out.append(pair_list("view", "error", &self.failures).as_str());
        out.append("]}");
        out
    }
}

/// The fingerprint of a file.
#[derive(Debug)]
pub struct FingerprintFile {
    pub source: String,
    pub format: String,
    pub canonical_version: u32,
    pub sha256: String,
    pub conflicts: usize,
    pub incomplete: bool,
    pub expected: Option<String>,
    pub matched: bool,
    pub keys: usize,
    pub values: usize,
    pub scope: Scope,
}

/// The fingerprint of a file, as JSON.
pub open spec fn fingerprint_file_json(d: FingerprintFile) -> Seq<char> {
    "{\"source\":"@ + json_string(d.source@) + ",\"format\":"@ + json_string(d.format@)
        + ",\"rootAs\":null,\"canonicalVersion\":"@ + dec_of(d.canonical_version as nat)
        + ",\"algorithm\":\"sha256\",\"sha256\":"@ + json_string(d.sha256@) + ",\"conflicts\":"@
        + dec_of(d.conflicts as nat) + ",\"incomplete\":"@ + json_bool(d.incomplete)
        + ",\"expected\":"@ + json_opt(opt_text(d.expected)) + ",\"matches\":"@
        + json_opt_bool(met(opt_text(d.expected), d.matched, d.sha256@)) + ",\"matched\":"@
        + json_bool(d.matched) + ",\"keys\":"@ + dec_of(d.keys as nat) + ",\"values\":"@
        + dec_of(d.values as nat) + ","@ + scope_json(d.scope@) + "}"@
}

impl FingerprintFile {
    /// The fingerprint of a file, as JSON.
    pub fn to_json(&self) -> (out: String)
        ensures
            out@ == fingerprint_file_json(*self),
    {
        let mut out = "{\"source\":".to_owned();
        out.append(jstr(self.source.as_str()).as_str());
        out.append(",\"format\":");
        out.append(jstr(self.format.as_str()).as_str());
        out.append(",\"rootAs\":null,\"canonicalVersion\":");
        push_dec(&mut out, self.canonical_version as u64);
        out.append(",\"algorithm\":\"sha256\",\"sha256\":");
        out.append(jstr(self.sha256.as_str()).as_str());
        out.append(",\"conflicts\":");
        push_dec(&mut out, self.conflicts as u64);
        out.append(",\"incomplete\":");
        out.append(jbool(self.incomplete));
        out.append(",\"expected\":");
        out.append(jopt_string(&self.expected).as_str());
        out.append(",\"matches\":");
        out.append(jopt_bool(meets(&self.expected, self.matched, self.sha256.as_str())));
        out.append(",\"matched\":");
        out.append(jbool(self.matched));
        out.append(",\"keys\":");
        push_dec(&mut out, self.keys as u64);
        out.append(",\"values\":");
        push_dec(&mut out, self.values as u64);
        out.append(",");
        out.append(scope_members(&self.scope).as_str());
        out.append("}");
        out
    }
}

// ---------------------------------------------------------------------------
// Probes and permissions
// ---------------------------------------------------------------------------

/// What can be done with a key in one view.
#[derive(Debug)]
pub struct ProbeView {
    pub view: String,
    pub exists: bool,
    pub readable: bool,
    pub writable: bool,
    pub creatable: bool,
    pub detail: String,
}

/// What can be done with a key in one view, as JSON.
pub open spec fn probe_view_json(d: ProbeView) -> Seq<char> {
    "{\"view\":"@ + json_string(d.view@) + ",\"exists\":"@ + json_bool(d.exists)
        + ",\"readable\":"@ + json_bool(d.readable) + ",\"writable\":"@ + json_bool(d.writable)
        + ",\"creatable\":"@ + json_bool(d.creatable) + ",\"detail\":"@ + json_string(d.detail@)
        + "}"@
}

impl ProbeView {
    /// What can be done with a key in one view, as JSON.
    pub fn to_json(&self) -> (out: String)
        ensures
            out@ == probe_view_json(*self),
    {
        let mut out = "{\"view\":".to_owned();
        out.append(jstr(self.view.as_str()).as_str());
        out.append(",\"exists\":");
        out.append(jbool(self.exists));
        out.append(",\"readable\":");
        out.append(jbool(self.readable));
        out.append(",\"writable\":");
        out.append(jbool(self.writable));
        out.append(",\"creatable\":");
        out.append(jbool(self.creatable));
        out.append(",\"detail\":");
        out.append(jstr(self.detail.as_str()).as_str());
        out.append("}");
        out
    }
}

/// Probes as JSON, with commas between them.
pub open spec fn probe_view_items(items: Seq<ProbeView>) -> Seq<char> {
    joined(items.map_values(|d: ProbeView| probe_view_json(d)), ","@)
}

fn probe_view_list(items: &Vec<ProbeView>) -> (out: String)
    ensures
        out@ == probe_view_items(items@),
{
    broadcast use views_push;

    let mut parts: Vec<String> = Vec::new();
    for i in 0..items.len()
        invariant
            views(parts@) =~= items@.take(i as int).map_values(
                |d: ProbeView| probe_view_json(d),
            ),
    {
        let one = items[i].to_json();
        let ghost before = parts@;
        parts.push(one);
        assert(views(parts@) == views(before).push(one@));
    }
    assert(items@.take(items@.len() as int) =~= items@);
    join(parts.as_slice(), ",")
}

/// What can be done with a key in both views.
#[derive(Debug)]
pub struct ProbeViews {
    pub path: RegPath,
    pub computer: Option<String>,
    pub views: Vec<ProbeView>,
}

/// What can be done with a key in both views, as JSON.
pub open spec fn probe_views_json(d: ProbeViews) -> Seq<char> {
    "{\"path\":"@ + json_string(path_text(d.path@)) + ",\"computer\":"@
        + json_opt(opt_text(d.computer)) + ",\"views\":["@ + probe_view_items(d.views@) + "]}"@
}

impl ProbeViews {
    /// What can be done with a key in both views, as JSON.
    pub fn to_json(&self) -> (out: String)
        ensures
            out@ == probe_views_json(*self),
    {
        let mut out = "{\"path\":".to_owned();
        out.append(jstr(self.path.to_string().as_str()).as_str());
        out.append(",\"computer\":");
        out.append(jopt_string(&self.computer).as_str());
        out.append(",\"views\":[");
        out.append(probe_view_list(&self.views).as_str());
        out.append("]}");
        out
    }
}

/// What can be done with a key.
#[derive(Debug)]
pub struct Probe {
    pub path: String,
    pub computer: Option<String>,
    pub exists: bool,
    pub readable: bool,
    pub writable: bool,
    pub creatable: bool,
    pub detail: String,
}

/// What can be done with a key, as JSON.
pub open spec fn probe_json(d: Probe) -> Seq<char> {
    "{\"path\": "@ + json_string(d.path@) + ", \"computer\": "@ + json_opt(opt_text(d.computer))
        + ", \"exists\": "@ + json_bool(d.exists) + ", \"readable\": "@ + json_bool(d.readable)
        + ", \"writable\": "@ + json_bool(d.writable) + ", \"creatable\": "@
        + json_bool(d.creatable) + ", \"detail\": "@ + json_string(d.detail@) + "}"@
}

impl Probe {
    /// What can be done with a key, as JSON.
    pub fn to_json(&self) -> (out: String)
        ensures
            out@ == probe_json(*self),
    {
        let mut out = "{\"path\": ".to_owned();
        out.append(jstr(self.path.as_str()).as_str());
        out.append(", \"computer\": ");
        out.append(jopt_string(&self.computer).as_str());
        out.append(", \"exists\": ");
        out.append(jbool(self.exists));
        out.append(", \"readable\": ");
        out.append(jbool(self.readable));
        out.append(", \"writable\": ");
        out.append(jbool(self.writable));
        out.append(", \"creatable\": ");
        out.append(jbool(self.creatable));
        out.append(", \"detail\": ");
        out.append(jstr(self.detail.as_str()).as_str());
        out.append("}");
        out
    }
}

/// Who may do what with a key.
#[derive(Debug)]
pub struct PermissionViews {
    pub path: RegPath,
    pub computer: Option<String>,
    pub views: Vec<PermissionView>,
    pub failures: Vec<(String, String)>,
}

/// Who may do what with a key, as JSON.
pub open spec fn permission_views_json(d: PermissionViews) -> Seq<char> {
    "{\"path\":"@ + json_string(path_text(d.path@)) + ",\"computer\":"@
        + json_opt(opt_text(d.computer)) + ",\"views\":["@ + permission_items(d.views@)
        + "],\"failures\":["@ + pair_items("view"@, "error"@, d.failures@) + "]}"@
}

impl PermissionViews {
    /// Who may do what with a key, as JSON.
    pub fn to_json(&self) -> (out: String)
        ensures
            out@ == permission_views_json(*self),
    {
        let mut out = "{\"path\":".to_owned();
        out.append(jstr(self.path.to_string().as_str()).as_str());
        out.append(",\"computer\":");
        out.append(jopt_string(&self.computer).as_str());
        out.append(",\"views\":[");
        out.append(permission_list(&self.views).as_str());
        out.append("],\"failures\":[");
        out.append(pair_list("view", "error", &self.failures).as_str());
        out.append("]}");
        out
    }
}

/// The fields in which permissions differ, as JSON strings.
pub open spec fn difference_items(a: PermissionView, b: PermissionView) -> Seq<char> {
    json_list(crate::report::differences(a, b))
}

fn difference_list(a: &PermissionView, b: &PermissionView) -> (out: String)
    ensures
        out@ == difference_items(*a, *b),
{
    broadcast use views_push;

    let fields = permission_differences(a, b);
    let ghost all = views(fields@);
    let mut names: Vec<String> = Vec::new();
    for i in 0..fields.len()
        invariant
            all == views(fields@),
            views(names@) =~= all.take(i as int),
    {
        let one = fields[i].to_owned();
        let ghost before = names@;
        names.push(one);
        assert(views(names@) == views(before).push(one@));
    }
    assert(all.take(all.len() as int) =~= all);
    json_strings(names.as_slice())
}

/// Whether permissions are equal.
pub open spec fn equal_permissions(a: PermissionView, b: PermissionView) -> bool {
    crate::report::differences(a, b).len() == 0
}

fn are_equal(a: &PermissionView, b: &PermissionView) -> (r: bool)
    ensures
        r == equal_permissions(*a, *b),
{
    let fields = permission_differences(a, b);
    assert(views(fields@).len() == fields@.len());
    fields.len() == 0
}

/// The permissions of two keys in one view.
#[derive(Debug)]
pub struct PermissionComparison {
    pub view: String,
    pub source: PermissionView,
    pub target: PermissionView,
}

/// The permissions of two keys in one view, as JSON.
pub open spec fn permission_comparison_json(d: PermissionComparison) -> Seq<char> {
    "{\"view\":"@ + json_string(d.view@) + ",\"equal\":"@
        + json_bool(equal_permissions(d.source, d.target)) + ",\"differences\":["@
        + difference_items(d.source, d.target) + "],\"source\":"@ + permission_json(d.source)
        + ",\"target\":"@ + permission_json(d.target) + "}"@
}

impl PermissionComparison {
    /// The permissions of two keys in one view, as JSON.
    pub fn to_json(&self) -> (out: String)
        ensures
            out@ == permission_comparison_json(*self),
    {
        let mut out = "{\"view\":".to_owned();
        out.append(jstr(self.view.as_str()).as_str());
        out.append(",\"equal\":");
        out.append(jbool(are_equal(&self.source, &self.target)));
        out.append(",\"differences\":[");
        out.append(difference_list(&self.source, &self.target).as_str());
        out.append("],\"source\":");
        out.append(permission_view_json(&self.source).as_str());
        out.append(",\"target\":");
        out.append(permission_view_json(&self.target).as_str());
        out.append("}");
        out
    }
}

/// Comparisons as JSON, with commas between them.
pub open spec fn permission_comparison_items(items: Seq<PermissionComparison>) -> Seq<char> {
    joined(items.map_values(|d: PermissionComparison| permission_comparison_json(d)), ","@)
}

fn permission_comparison_list(items: &Vec<PermissionComparison>) -> (out: String)
    ensures
        out@ == permission_comparison_items(items@),
{
    broadcast use views_push;

    let mut parts: Vec<String> = Vec::new();
    for i in 0..items.len()
        invariant
            views(parts@) =~= items@.take(i as int).map_values(
                |d: PermissionComparison| permission_comparison_json(d),
            ),
    {
        let one = items[i].to_json();
        let ghost before = parts@;
        parts.push(one);
        assert(views(parts@) == views(before).push(one@));
    }
    assert(items@.take(items@.len() as int) =~= items@);
    join(parts.as_slice(), ",")
}

/// A view of one side that could not be read.
#[derive(Debug)]
pub struct SideError {
    pub side: String,
    pub view: String,
    pub error: String,
}

/// A view of one side that could not be read, as JSON.
pub open spec fn side_error_json(d: SideError) -> Seq<char> {
    "{\"side\":"@ + json_string(d.side@) + ",\"view\":"@ + json_string(d.view@) + ",\"error\":"@
        + json_string(d.error@) + "}"@
}

impl SideError {
    /// A view of one side that could not be read, as JSON.
    pub fn to_json(&self) -> (out: String)
        ensures
            out@ == side_error_json(*self),
    {
        let mut out = "{\"side\":".to_owned();
        out.append(jstr(self.side.as_str()).as_str());
        out.append(",\"view\":");
        out.append(jstr(self.view.as_str()).as_str());
        out.append(",\"error\":");
        out.append(jstr(self.error.as_str()).as_str());
        out.append("}");
        out
    }
}

/// Failures as JSON, with commas between them.
pub open spec fn side_error_items(items: Seq<SideError>) -> Seq<char> {
    joined(items.map_values(|d: SideError| side_error_json(d)), ","@)
}

fn side_error_list(items: &Vec<SideError>) -> (out: String)
    ensures
        out@ == side_error_items(items@),
{
    broadcast use views_push;

    let mut parts: Vec<String> = Vec::new();
    for i in 0..items.len()
        invariant
            views(parts@) =~= items@.take(i as int).map_values(
                |d: SideError| side_error_json(d),
            ),
    {
        let one = items[i].to_json();
        let ghost before = parts@;
        parts.push(one);
        assert(views(parts@) == views(before).push(one@));
    }
    assert(items@.take(items@.len() as int) =~= items@);
    join(parts.as_slice(), ",")
}

/// The permissions of two keys.
#[derive(Debug)]
pub struct PermissionComparisons {
    pub source_path: RegPath,
    pub source_computer: Option<String>,
    pub target_path: RegPath,
    pub target_computer: Option<String>,
    pub equal: bool,
    pub views: Vec<PermissionComparison>,
    pub failures: Vec<SideError>,
}

/// The permissions of two keys, as JSON.
pub open spec fn permission_comparisons_json(d: PermissionComparisons) -> Seq<char> {
    "{\"sourcePath\":"@ + json_string(path_text(d.source_path@)) + ",\"sourceComputer\":"@
        + json_opt(opt_text(d.source_computer)) + ",\"targetPath\":"@
        + json_string(path_text(d.target_path@)) + ",\"targetComputer\":"@
        + json_opt(opt_text(d.target_computer)) + ",\"equal\":"@ + json_bool(d.equal)
        + ",\"views\":["@ + permission_comparison_items(d.views@) + "],\"failures\":["@
        + side_error_items(d.failures@) + "]}"@
}

impl PermissionComparisons {
    /// The permissions of two keys, as JSON.
    pub fn to_json(&self) -> (out: String)
        ensures
            out@ == permission_comparisons_json(*self),
    {
        let mut out = "{\"sourcePath\":".to_owned();
        out.append(jstr(self.source_path.to_string().as_str()).as_str());
        out.append(",\"sourceComputer\":");
        out.append(jopt_string(&self.source_computer).as_str());
        out.append(",\"targetPath\":");
        out.append(jstr(self.target_path.to_string().as_str()).as_str());
        out.append(",\"targetComputer\":");
        out.append(jopt_string(&self.target_computer).as_str());
        out.append(",\"equal\":");
        out.append(jbool(self.equal));
        out.append(",\"views\":[");
        out.append(permission_comparison_list(&self.views).as_str());
        out.append("],\"failures\":[");
        out.append(side_error_list(&self.failures).as_str());
        out.append("]}");
        out
    }
}

} // verus!
