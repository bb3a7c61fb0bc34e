//! What comparing, searching and watching report.
use vstd::prelude::*;

use crate::apply::{artifact_evidence_json, evidence_json, written_view};
use crate::diff::{
    changes_json, diff_changes_json, diff_lines, diff_lines_json, watch_changes_json, watch_json, Diff,
};
use crate::input::{data_format_name, format_name, DataFormat};
use crate::json::{
    jbool, jopt_string, json_bool, json_list, json_opt, json_string, json_strings, jstr,
};
use crate::model::{path_text, RegPath};
use crate::number::{dec_of, push_dec};
use crate::parts::{match_items, match_list, pair_items, pair_list, scope_json, scope_members};
use crate::report::{mode_name, search_mode_name};
use crate::search::{Match, Mode};
use crate::select::Scope;
use crate::text::{join, joined, opt_text, views, views_push};

verus! {

// ---------------------------------------------------------------------------
// Comparisons
// ---------------------------------------------------------------------------

/// The counts of a comparison.
#[derive(Clone, Copy, Debug, PartialEq, Eq, Structural)]
pub struct DiffCounts {
    pub added: usize,
    pub modified: usize,
    pub removed: usize,
}

/// What a comparison found.
#[derive(Debug)]
pub struct DiffReport {
    pub a: String,
    pub computer_a: Option<String>,
    pub b: String,
    pub computer_b: Option<String>,
    pub map_a: Option<String>,
    pub map_b: Option<String>,
    pub incomplete: bool,
    pub summary_only: bool,
    pub scope: Scope,
    pub counts: DiffCounts,
    pub patch: Option<String>,
    pub patch_format: DataFormat,
    pub patch_written: bool,
    pub dry_run: bool,
    pub written: Option<(u64, String)>,
    pub difference: Diff,
}

/// What a comparison found, as JSON.
pub open spec fn diff_report_json(d: DiffReport) -> Seq<char> {
    "{\n  \"a\": "@ + json_string(d.a@) + ",\n  \"computerA\": "@
        + json_opt(opt_text(d.computer_a)) + ",\n  \"b\": "@ + json_string(d.b@)
        + ",\n  \"computerB\": "@ + json_opt(opt_text(d.computer_b)) + ",\n  \"mapA\": "@
        + json_opt(opt_text(d.map_a)) + ",\n  \"mapB\": "@ + json_opt(opt_text(d.map_b))
        + ",\n  \"incomplete\": "@ + json_bool(d.incomplete) + ",\n  \"summaryOnly\": "@
        + json_bool(d.summary_only) + ",\n  \"include\": ["@ + json_list(d.scope@.include_keys)
        + "],\n  \"exclude\": ["@ + json_list(d.scope@.exclude_keys)
        + "],\n  \"includeValues\": ["@ + json_list(d.scope@.include_values)
        + "],\n  \"excludeValues\": ["@ + json_list(d.scope@.exclude_values)
        + "],\n  \"added\": "@ + dec_of(d.counts.added as nat) + ", \"modified\": "@
        + dec_of(d.counts.modified as nat) + ", \"removed\": "@ + dec_of(d.counts.removed as nat)
        + ",\n  \"patch\": "@ + json_opt(opt_text(d.patch)) + ", \"patchFormat\": "@
        + json_string(format_name(d.patch_format)) + ", \"patchWritten\": "@
        + json_bool(d.patch_written) + ", \"dryRun\": "@ + json_bool(d.dry_run) + ",\n  "@
        + evidence_json("bytes"@, "sha256"@, written_view(d.written)) + ",\n  \"changes\": [\n"@
        + joined(diff_lines(d.difference@, d.summary_only), ",\n"@) + "\n  ]\n}"@
}

impl DiffReport {
    /// What a comparison found, as JSON.
    pub fn to_json(&self) -> (out: String)
        ensures
            out@ == diff_report_json(*self),
    {
        let mut out = "{\n  \"a\": ".to_owned();
        out.append(jstr(self.a.as_str()).as_str());
        out.append(",\n  \"computerA\": ");
        out.append(jopt_string(&self.computer_a).as_str());
        out.append(",\n  \"b\": ");
        out.append(jstr(self.b.as_str()).as_str());
        out.append(",\n  \"computerB\": ");
        out.append(jopt_string(&self.computer_b).as_str());
        out.append(",\n  \"mapA\": ");
        out.append(jopt_string(&self.map_a).as_str());
        out.append(",\n  \"mapB\": ");
        out.append(jopt_string(&self.map_b).as_str());
        out.append(",\n  \"incomplete\": ");
        out.append(jbool(self.incomplete));
        out.append(",\n  \"summaryOnly\": ");
        out.append(jbool(self.summary_only));
        out.append(",\n  \"include\": [");
        out.append(json_strings(self.scope.include_keys.as_slice()).as_str());
        out.append("],\n  \"exclude\": [");
        out.append(json_strings(self.scope.exclude_keys.as_slice()).as_str());
        out.append("],\n  \"includeValues\": [");
        out.append(json_strings(self.scope.include_values.as_slice()).as_str());
        out.append("],\n  \"excludeValues\": [");
        out.append(json_strings(self.scope.exclude_values.as_slice()).as_str());
        out.append("],\n  \"added\": ");
        push_dec(&mut out, self.counts.added as u64);
        out.append(", \"modified\": ");
        push_dec(&mut out, self.counts.modified as u64);
        out.append(", \"removed\": ");
        push_dec(&mut out, self.counts.removed as u64);
        out.append(",\n  \"patch\": ");
        out.append(jopt_string(&self.patch).as_str());
        out.append(", \"patchFormat\": ");
        out.append(jstr(data_format_name(self.patch_format)).as_str());
        out.append(", \"patchWritten\": ");
        out.append(jbool(self.patch_written));
        out.append(", \"dryRun\": ");
        out.append(jbool(self.dry_run));
        out.append(",\n  ");
        out.append(artifact_evidence_json(&self.written).as_str());
        out.append(",\n  \"changes\": [\n");
        out.append(join(diff_lines_json(&self.difference, self.summary_only).as_slice(), ",\n").as_str());
        out.append("\n  ]\n}");
        out
    }
}

/// What a comparison found in one view.
#[derive(Debug)]
pub struct ViewDiff {
    pub view: String,
    pub incomplete: bool,
    pub counts: DiffCounts,
    pub patch: Option<String>,
    pub patch_written: bool,
    pub dry_run: bool,
    pub written: Option<(u64, String)>,
    pub summary_only: bool,
    pub difference: Diff,
}

/// What a comparison found in one view, as JSON.
pub open spec fn view_diff_json(d: ViewDiff) -> Seq<char> {
    "{\"view\":"@ + json_string(d.view@) + ",\"incomplete\":"@ + json_bool(d.incomplete)
        + ",\"added\":"@ + dec_of(d.counts.added as nat) + ",\"modified\":"@
        + dec_of(d.counts.modified as nat) + ",\"removed\":"@ + dec_of(d.counts.removed as nat)
        + ",\"patch\":"@ + json_opt(opt_text(d.patch)) + ",\"patchWritten\":"@
        + json_bool(d.patch_written) + ",\"dryRun\":"@ + json_bool(d.dry_run) + ", "@
        + evidence_json("bytes"@, "sha256"@, written_view(d.written)) + ",\"changes\":["@
        + joined(changes_json(d.difference@, d.summary_only), ","@) + "]}"@
}

impl ViewDiff {
    /// What a comparison found in one view, as JSON.
    pub fn to_json(&self) -> (out: String)
        ensures
            out@ == view_diff_json(*self),
    {
        let mut out = "{\"view\":".to_owned();
        out.append(jstr(self.view.as_str()).as_str());
        out.append(",\"incomplete\":");
        out.append(jbool(self.incomplete));
        out.append(",\"added\":");
        push_dec(&mut out, self.counts.added as u64);
        out.append(",\"modified\":");
        push_dec(&mut out, self.counts.modified as u64);
        out.append(",\"removed\":");
        push_dec(&mut out, self.counts.removed as u64);
        out.append(",\"patch\":");
        out.append(jopt_string(&self.patch).as_str());
        out.append(",\"patchWritten\":");
        out.append(jbool(self.patch_written));
        out.append(",\"dryRun\":");
        out.append(jbool(self.dry_run));
        out.append(", ");
        out.append(artifact_evidence_json(&self.written).as_str());
        out.append(",\"changes\":[");
        out.append(join(diff_changes_json(&self.difference, self.summary_only).as_slice(), ",").as_str());
        out.append("]}");
        out
    }
}

/// Comparisons as JSON, with commas between them.
pub open spec fn view_diff_items(items: Seq<ViewDiff>) -> Seq<char> {
    joined(items.map_values(|d: ViewDiff| view_diff_json(d)), ","@)
}

fn view_diff_list(items: &Vec<ViewDiff>) -> (out: String)
    ensures
        out@ == view_diff_items(items@),
{
    broadcast use views_push;

    let mut parts: Vec<String> = Vec::new();
    for i in 0..items.len()
        invariant
            views(parts@) =~= items@.take(i as int).map_values(
                |d: ViewDiff| view_diff_json(d),
            ),
    {
        let one = items[i].to_json();
        let ghost before = parts@;
        parts.push(one);
        assert(views(parts@) == views(before).push(one@));
    }
    assert(items@.take(items@.len() as int) =~= items@);
    join(parts.as_slice(), ",")
}

/// A side that could not be read in one view.
#[derive(Debug)]
pub struct SideProblem {
    pub view: String,
    pub side: String,
    pub problem: String,
}

/// A side that could not be read in one view, as JSON.
pub open spec fn side_problem_json(d: SideProblem) -> Seq<char> {
    "{\"view\":"@ + json_string(d.view@) + ",\"side\":"@ + json_string(d.side@) + ",\"problem\":"@
        + json_string(d.problem@) + "}"@
}

impl SideProblem {
    /// A side that could not be read in one view, as JSON.
    pub fn to_json(&self) -> (out: String)
        ensures
            out@ == side_problem_json(*self),
    {
        let mut out = "{\"view\":".to_owned();
        out.append(jstr(self.view.as_str()).as_str());
        out.append(",\"side\":");
        out.append(jstr(self.side.as_str()).as_str());
        out.append(",\"problem\":");
        out.append(jstr(self.problem.as_str()).as_str());
        out.append("}");
        out
    }
}

/// Problems as JSON, with commas between them.
pub open spec fn side_problem_items(items: Seq<SideProblem>) -> Seq<char> {
    joined(items.map_values(|d: SideProblem| side_problem_json(d)), ","@)
}

fn side_problem_list(items: &Vec<SideProblem>) -> (out: String)
    ensures
        out@ == side_problem_items(items@),
{
    broadcast use views_push;

    let mut parts: Vec<String> = Vec::new();
    for i in 0..items.len()
        invariant
            views(parts@) =~= items@.take(i as int).map_values(
                |d: SideProblem| side_problem_json(d),
            ),
    {
        let one = items[i].to_json();
        let ghost before = parts@;
        parts.push(one);
        assert(views(parts@) == views(before).push(one@));
    }
    assert(items@.take(items@.len() as int) =~= items@);
    join(parts.as_slice(), ",")
}

/// What a comparison found in both views.
#[derive(Debug)]
pub struct DiffViews {
    pub a: String,
    pub computer_a: Option<String>,
    pub b: String,
    pub computer_b: Option<String>,
    pub map_a: Option<String>,
    pub map_b: Option<String>,
    pub summary_only: bool,
    pub scope: Scope,
    pub patch_format: DataFormat,
    pub views: Vec<ViewDiff>,
    pub failures: Vec<SideProblem>,
}

/// What a comparison found in both views, as JSON.
pub open spec fn diff_views_json(d: DiffViews) -> Seq<char> {
    "{\"a\":"@ + json_string(d.a@) + ",\"computerA\":"@ + json_opt(opt_text(d.computer_a))
        + ",\"b\":"@ + json_string(d.b@) + ",\"computerB\":"@ + json_opt(opt_text(d.computer_b))
        + ",\"mapA\":"@ + json_opt(opt_text(d.map_a)) + ",\"mapB\":"@
        + json_opt(opt_text(d.map_b)) + ",\"summaryOnly\":"@ + json_bool(d.summary_only) + ","@
        + scope_json(d.scope@) + ",\"patchFormat\":"@ + json_string(format_name(d.patch_format))
        + ",\"views\":["@ + view_diff_items(d.views@) + "],\"failures\":["@
        + side_problem_items(d.failures@) + "]}"@
}

impl DiffViews {
    /// What a comparison found in both views, as JSON.
    pub fn to_json(&self) -> (out: String)
        ensures
            out@ == diff_views_json(*self),
    {
        let mut out = "{\"a\":".to_owned();
        out.append(jstr(self.a.as_str()).as_str());
        out.append(",\"computerA\":");
        out.append(jopt_string(&self.computer_a).as_str());
        out.append(",\"b\":");
        out.append(jstr(self.b.as_str()).as_str());
        out.append(",\"computerB\":");
        out.append(jopt_string(&self.computer_b).as_str());
        out.append(",\"mapA\":");
        out.append(jopt_string(&self.map_a).as_str());
        out.append(",\"mapB\":");
        out.append(jopt_string(&self.map_b).as_str());
        out.append(",\"summaryOnly\":");
        out.append(jbool(self.summary_only));
        out.append(",");
        out.append(scope_members(&self.scope).as_str());
        out.append(",\"patchFormat\":");
        out.append(jstr(data_format_name(self.patch_format)).as_str());
        out.append(",\"views\":[");
        out.append(view_diff_list(&self.views).as_str());
        out.append("],\"failures\":[");
        out.append(side_problem_list(&self.failures).as_str());
        out.append("]}");
        out
    }
}

// ---------------------------------------------------------------------------
// Searches
// ---------------------------------------------------------------------------

/// What a search found in one view.
#[derive(Debug)]
pub struct FoundView {
    pub view: String,
    pub truncated: bool,
    pub incomplete: bool,
    pub matches: Vec<Match>,
}

/// What a search found in one view, as JSON.
pub open spec fn found_view_json(d: FoundView) -> Seq<char> {
    "{\"view\":"@ + json_string(d.view@) + ",\"truncated\":"@ + json_bool(d.truncated)
        + ",\"incomplete\":"@ + json_bool(d.incomplete) + ",\"matches\":["@
        + match_items(views(d.matches@), ","@) + "]}"@
}

impl FoundView {
    /// What a search found in one view, as JSON.
    pub fn to_json(&self) -> (out: String)
        ensures
            out@ == found_view_json(*self),
    {
        let mut out = "{\"view\":".to_owned();
        out.append(jstr(self.view.as_str()).as_str());
        out.append(",\"truncated\":");
        out.append(jbool(self.truncated));
        out.append(",\"incomplete\":");
        out.append(jbool(self.incomplete));
        out.append(",\"matches\":[");
        out.append(match_list(&self.matches, ",").as_str());
        out.append("]}");
        out
    }
}

/// Results as JSON, with commas between them.
pub open spec fn found_view_items(items: Seq<FoundView>) -> Seq<char> {
    joined(items.map_values(|d: FoundView| found_view_json(d)), ","@)
}

fn found_view_list(items: &Vec<FoundView>) -> (out: String)
    ensures
        out@ == found_view_items(items@),
{
    broadcast use views_push;

    let mut parts: Vec<String> = Vec::new();
    for i in 0..items.len()
        invariant
            views(parts@) =~= items@.take(i as int).map_values(
                |d: FoundView| found_view_json(d),
            ),
    {
        let one = items[i].to_json();
        let ghost before = parts@;
        parts.push(one);
        assert(views(parts@) == views(before).push(one@));
    }
    assert(items@.take(items@.len() as int) =~= items@);
    join(parts.as_slice(), ",")
}

/// What a search found in both views.
#[derive(Debug)]
pub struct FoundViews {
    pub source: String,
    pub remote_computer: Option<String>,
    pub query: String,
    pub mode: Mode,
    pub case_sensitive: bool,
    pub scope: Scope,
    pub limit: usize,
    pub views: Vec<FoundView>,
    pub failures: Vec<(String, String)>,
}

/// What a search found in both views, as JSON.
pub open spec fn found_views_json(d: FoundViews) -> Seq<char> {
    "{\"source\":"@ + json_string(d.source@) + ",\"remoteComputer\":"@
        + json_opt(opt_text(d.remote_computer)) + ",\"query\":"@ + json_string(d.query@)
        + ",\"mode\":"@ + json_string(mode_name(d.mode)) + ",\"caseSensitive\":"@
        + json_bool(d.case_sensitive) + ","@ + scope_json(d.scope@) + ",\"limitPerView\":"@
        + dec_of(d.limit as nat) + ",\"views\":["@ + found_view_items(d.views@)
        + "],\"failures\":["@ + pair_items("view"@, "problem"@, d.failures@) + "]}"@
}

impl FoundViews {
    /// What a search found in both views, as JSON.
    pub fn to_json(&self) -> (out: String)
        ensures
            out@ == found_views_json(*self),
    {
        let mut out = "{\"source\":".to_owned();
        out.append(jstr(self.source.as_str()).as_str());
        out.append(",\"remoteComputer\":");
        out.append(jopt_string(&self.remote_computer).as_str());
        out.append(",\"query\":");
        out.append(jstr(self.query.as_str()).as_str());
        out.append(",\"mode\":");
        out.append(jstr(search_mode_name(self.mode)).as_str());
        out.append(",\"caseSensitive\":");
        out.append(jbool(self.case_sensitive));
        out.append(",");
        out.append(scope_members(&self.scope).as_str());
        out.append(",\"limitPerView\":");
        push_dec(&mut out, self.limit as u64);
        out.append(",\"views\":[");
        out.append(found_view_list(&self.views).as_str());
        out.append("],\"failures\":[");
        out.append(pair_list("view", "problem", &self.failures).as_str());
        out.append("]}");
        out
    }
}

/// What a search found.
#[derive(Debug)]
pub struct Found {
    pub source: String,
    pub remote_computer: Option<String>,
    pub query: String,
    pub mode: Mode,
    pub case_sensitive: bool,
    pub scope: Scope,
    pub limit: usize,
    pub truncated: bool,
    pub incomplete: bool,
    pub matches: Vec<Match>,
}

/// What a search found, as JSON.
pub open spec fn found_json(d: Found) -> Seq<char> {
    "{\n  \"source\": "@ + json_string(d.source@) + ",\n  \"remoteComputer\": "@
        + json_opt(opt_text(d.remote_computer)) + ",\n  \"query\": "@ + json_string(d.query@)
        + ",\n  \"mode\": "@ + json_string(mode_name(d.mode)) + ",\n  \"caseSensitive\": "@
        + json_bool(d.case_sensitive) + ",\n  \"include\": ["@ + json_list(d.scope@.include_keys)
        + "],\n  \"exclude\": ["@ + json_list(d.scope@.exclude_keys)
        + "],\n  \"includeValues\": ["@ + json_list(d.scope@.include_values)
        + "],\n  \"excludeValues\": ["@ + json_list(d.scope@.exclude_values)
        + "],\n  \"limit\": "@ + dec_of(d.limit as nat) + ",\n  \"truncated\": "@
        + json_bool(d.truncated) + ",\n  \"incomplete\": "@ + json_bool(d.incomplete)
        + ",\n  \"matches\": [\n"@ + match_items(views(d.matches@), ",\n"@) + "\n  ]\n}"@
}

impl Found {
    /// What a search found, as JSON.
    pub fn to_json(&self) -> (out: String)
        ensures
            out@ == found_json(*self),
    {
        let mut out = "{\n  \"source\": ".to_owned();
        out.append(jstr(self.source.as_str()).as_str());
        out.append(",\n  \"remoteComputer\": ");
        out.append(jopt_string(&self.remote_computer).as_str());
        out.append(",\n  \"query\": ");
        out.append(jstr(self.query.as_str()).as_str());
        out.append(",\n  \"mode\": ");
        out.append(jstr(search_mode_name(self.mode)).as_str());
        out.append(",\n  \"caseSensitive\": ");
        out.append(jbool(self.case_sensitive));
        out.append(",\n  \"include\": [");
        out.append(json_strings(self.scope.include_keys.as_slice()).as_str());
        out.append("],\n  \"exclude\": [");
        out.append(json_strings(self.scope.exclude_keys.as_slice()).as_str());
        out.append("],\n  \"includeValues\": [");
        out.append(json_strings(self.scope.include_values.as_slice()).as_str());
        out.append("],\n  \"excludeValues\": [");
        out.append(json_strings(self.scope.exclude_values.as_slice()).as_str());
        out.append("],\n  \"limit\": ");
        push_dec(&mut out, self.limit as u64);
        out.append(",\n  \"truncated\": ");
        out.append(jbool(self.truncated));
        out.append(",\n  \"incomplete\": ");
        out.append(jbool(self.incomplete));
        out.append(",\n  \"matches\": [\n");
        out.append(match_list(&self.matches, ",\n").as_str());
        out.append("\n  ]\n}");
        out
    }
}

// ---------------------------------------------------------------------------
// Watching
// ---------------------------------------------------------------------------

/// That nothing changed in time.
#[derive(Debug)]
pub struct WatchTimeout {
    pub sequence: u32,
    pub path: RegPath,
    pub recursive: bool,
    pub timeout_seconds: u32,
}

/// That nothing changed in time, as JSON.
pub open spec fn watch_timeout_json(d: WatchTimeout) -> Seq<char> {
    "{\"sequence\": "@ + dec_of(d.sequence as nat) + ", \"path\": "@
        + json_string(path_text(d.path@)) + ", \"timedOut\": true, \"recursive\": "@
        + json_bool(d.recursive) + ", \"timeoutSeconds\": "@ + dec_of(d.timeout_seconds as nat)
        + "}"@
}

impl WatchTimeout {
    /// That nothing changed in time, as JSON.
    pub fn to_json(&self) -> (out: String)
        ensures
            out@ == watch_timeout_json(*self),
    {
        let mut out = "{\"sequence\": ".to_owned();
        push_dec(&mut out, self.sequence as u64);
        out.append(", \"path\": ");
        out.append(jstr(self.path.to_string().as_str()).as_str());
        out.append(", \"timedOut\": true, \"recursive\": ");
        out.append(jbool(self.recursive));
        out.append(", \"timeoutSeconds\": ");
        push_dec(&mut out, self.timeout_seconds as u64);
        out.append("}");
        out
    }
}

/// What changed.
#[derive(Debug)]
pub struct WatchEvent {
    pub sequence: u32,
    pub path: RegPath,
    pub recursive: bool,
    pub key_removed: bool,
    pub incomplete: bool,
    pub counts: DiffCounts,
    pub changes: Diff,
}

/// What changed, as JSON.
pub open spec fn watch_event_json(d: WatchEvent) -> Seq<char> {
    "{\"sequence\": "@ + dec_of(d.sequence as nat) + ", \"path\": "@
        + json_string(path_text(d.path@)) + ", \"timedOut\": false, \"recursive\": "@
        + json_bool(d.recursive) + ", \"keyRemoved\": "@ + json_bool(d.key_removed)
        + ", \"incomplete\": "@ + json_bool(d.incomplete) + ", \"added\": "@
        + dec_of(d.counts.added as nat) + ", \"modified\": "@ + dec_of(d.counts.modified as nat)
        + ", \"removed\": "@ + dec_of(d.counts.removed as nat) + ", \"changes\": "@
        + watch_json(d.changes@) + "}"@
}

impl WatchEvent {
    /// What changed, as JSON.
    pub fn to_json(&self) -> (out: String)
        ensures
            out@ == watch_event_json(*self),
    {
        let mut out = "{\"sequence\": ".to_owned();
        push_dec(&mut out, self.sequence as u64);
        out.append(", \"path\": ");
        out.append(jstr(self.path.to_string().as_str()).as_str());
        out.append(", \"timedOut\": false, \"recursive\": ");
        out.append(jbool(self.recursive));
        out.append(", \"keyRemoved\": ");
        out.append(jbool(self.key_removed));
        out.append(", \"incomplete\": ");
        out.append(jbool(self.incomplete));
        out.append(", \"added\": ");
        push_dec(&mut out, self.counts.added as u64);
        out.append(", \"modified\": ");
        push_dec(&mut out, self.counts.modified as u64);
        out.append(", \"removed\": ");
        push_dec(&mut out, self.counts.removed as u64);
        out.append(", \"changes\": ");
        out.append(watch_changes_json(&self.changes).as_str());
        out.append("}");
        out
    }
}

/// That nothing changed in time in either view.
#[derive(Debug)]
pub struct WatchBothTimeout {
    pub sequence: u32,
    pub path: RegPath,
    pub recursive: bool,
    pub timeout_seconds: u32,
}

/// That nothing changed in time in either view, as JSON.
pub open spec fn watch_both_timeout_json(d: WatchBothTimeout) -> Seq<char> {
    "{\"sequence\":"@ + dec_of(d.sequence as nat) + ",\"path\":"@
        + json_string(path_text(d.path@)) + ",\"timedOut\":true,\"recursive\":"@
        + json_bool(d.recursive) + ",\"timeoutSeconds\":"@ + dec_of(d.timeout_seconds as nat)
        + ",\"views\":[\"32\",\"64\"]}"@
}

impl WatchBothTimeout {
    /// That nothing changed in time in either view, as JSON.
    pub fn to_json(&self) -> (out: String)
        ensures
            out@ == watch_both_timeout_json(*self),
    {
        let mut out = "{\"sequence\":".to_owned();
        push_dec(&mut out, self.sequence as u64);
        out.append(",\"path\":");
        out.append(jstr(self.path.to_string().as_str()).as_str());
        out.append(",\"timedOut\":true,\"recursive\":");
        out.append(jbool(self.recursive));
        out.append(",\"timeoutSeconds\":");
        push_dec(&mut out, self.timeout_seconds as u64);
        out.append(",\"views\":[\"32\",\"64\"]}");
        out
    }
}

/// What changed in one view.
#[derive(Debug)]
pub struct WatchView {
    pub view: String,
    pub key_removed: bool,
    pub incomplete: bool,
    pub counts: DiffCounts,
    pub changes: Diff,
}

/// What changed in one view, as JSON.
pub open spec fn watch_view_json(d: WatchView) -> Seq<char> {
    "{\"view\":"@ + json_string(d.view@) + ",\"keyRemoved\":"@ + json_bool(d.key_removed)
        + ",\"incomplete\":"@ + json_bool(d.incomplete) + ",\"added\":"@
        + dec_of(d.counts.added as nat) + ",\"modified\":"@ + dec_of(d.counts.modified as nat)
        + ",\"removed\":"@ + dec_of(d.counts.removed as nat) + ",\"changes\":"@
        + watch_json(d.changes@) + "}"@
}

impl WatchView {
    /// What changed in one view, as JSON.
    pub fn to_json(&self) -> (out: String)
        ensures
            out@ == watch_view_json(*self),
    {
        let mut out = "{\"view\":".to_owned();
        out.append(jstr(self.view.as_str()).as_str());
        out.append(",\"keyRemoved\":");
        out.append(jbool(self.key_removed));
        out.append(",\"incomplete\":");
        out.append(jbool(self.incomplete));
        out.append(",\"added\":");
        push_dec(&mut out, self.counts.added as u64);
        out.append(",\"modified\":");
        push_dec(&mut out, self.counts.modified as u64);
        out.append(",\"removed\":");
        push_dec(&mut out, self.counts.removed as u64);
        out.append(",\"changes\":");
        out.append(watch_changes_json(&self.changes).as_str());
        out.append("}");
        out
    }
}

/// Changes as JSON, with commas between them.
pub open spec fn watch_view_items(items: Seq<WatchView>) -> Seq<char> {
    joined(items.map_values(|d: WatchView| watch_view_json(d)), ","@)
}

fn watch_view_list(items: &Vec<WatchView>) -> (out: String)
    ensures
        out@ == watch_view_items(items@),
{
    broadcast use views_push;

    let mut parts: Vec<String> = Vec::new();
    for i in 0..items.len()
        invariant
            views(parts@) =~= items@.take(i as int).map_values(
                |d: WatchView| watch_view_json(d),
            ),
    {
        let one = items[i].to_json();
        let ghost before = parts@;
        parts.push(one);
        assert(views(parts@) == views(before).push(one@));
    }
    assert(items@.take(items@.len() as int) =~= items@);
    join(parts.as_slice(), ",")
}

/// What changed in both views.
#[derive(Debug)]
pub struct WatchBothEvent {
    pub sequence: u32,
    pub path: RegPath,
    pub recursive: bool,
    pub triggered_view: String,
    pub views: Vec<WatchView>,
}

/// What changed in both views, as JSON.
pub open spec fn watch_both_event_json(d: WatchBothEvent) -> Seq<char> {
    "{\"sequence\":"@ + dec_of(d.sequence as nat) + ",\"path\":"@
        + json_string(path_text(d.path@)) + ",\"timedOut\":false,\"recursive\":"@
        + json_bool(d.recursive) + ",\"triggeredView\":"@ + json_string(d.triggered_view@)
        + ",\"views\":["@ + watch_view_items(d.views@) + "]}"@
}

impl WatchBothEvent {
    /// What changed in both views, as JSON.
    pub fn to_json(&self) -> (out: String)
        ensures
            out@ == watch_both_event_json(*self),
    {
        let mut out = "{\"sequence\":".to_owned();
        push_dec(&mut out, self.sequence as u64);
        out.append(",\"path\":");
        out.append(jstr(self.path.to_string().as_str()).as_str());
        out.append(",\"timedOut\":false,\"recursive\":");
        out.append(jbool(self.recursive));
        out.append(",\"triggeredView\":");
        out.append(jstr(self.triggered_view.as_str()).as_str());
        out.append(",\"views\":[");
        out.append(watch_view_list(&self.views).as_str());
        out.append("]}");
        out
    }
}

} // verus!
