//! What the operations on an offline hive report, and how they end.
use vstd::prelude::*;

use crate::apply::{
    apply_report_json, atomic_exit, evidence_json, hive_atomic_exit, opt_apply_report_json,
    opt_report_json, redo_evidence_json, report_json, undo_evidence_json, written_view, ApplyReport,
};
use crate::exit::Exit;
use crate::input::{data_format_name, format_name, DataFormat};
use crate::json::{
    jbool, jopt_string, json_bool, json_list, json_opt, json_string, json_strings, jstr,
};
use crate::model::{RegFile, RegPath};
use crate::number::{dec_of, push_dec};
use crate::outcome::{
    permissions_end, permissions_exit, scope_one_end, scope_one_exit, search_end, search_exit,
};
use crate::parts::{
    jopt_bool, jopt_path, json_opt_bool, match_items, match_list, opt_path_json, pair_items,
    pair_list, permission_items, permission_list, scope_json, scope_members,
};
use crate::report::{
    mode_name, search_mode_name, stats_json, stats_text, PermissionView, TypeCount,
};
use crate::search::{Match, Mode};
use crate::select::{RegistryStats, Scope};
use crate::text::{opt_text, same_str, views};
use crate::writer::{file_json, to_json};

verus! {

/// What is known of a hive file.
#[derive(Debug)]
pub struct HiveInfo {
    pub file: String,
    pub size: u64,
    pub signature_valid: bool,
    pub readable: bool,
    pub writable: bool,
    pub detail: String,
    pub root_subkeys: Vec<String>,
}

/// What is known of a hive file, as JSON.
pub open spec fn hive_info_json(d: HiveInfo) -> Seq<char> {
    "{\"file\":"@ + json_string(d.file@) + ",\"size\":"@ + dec_of(d.size as nat)
        + ",\"signatureValid\":"@ + json_bool(d.signature_valid) + ",\"readable\":"@
        + json_bool(d.readable) + ",\"writable\":"@ + json_bool(d.writable) + ",\"detail\":"@
        + json_string(d.detail@) + ",\"rootSubkeys\":["@ + json_list(views(d.root_subkeys@))
        + "]}"@
}

impl HiveInfo {
    /// What is known of a hive file, as JSON.
    pub fn to_json(&self) -> (out: String)
        ensures
            out@ == hive_info_json(*self),
    {
        let mut out = "{\"file\":".to_owned();
        out.append(jstr(self.file.as_str()).as_str());
        out.append(",\"size\":");
        push_dec(&mut out, self.size);
        out.append(",\"signatureValid\":");
        out.append(jbool(self.signature_valid));
        out.append(",\"readable\":");
        out.append(jbool(self.readable));
        out.append(",\"writable\":");
        out.append(jbool(self.writable));
        out.append(",\"detail\":");
        out.append(jstr(self.detail.as_str()).as_str());
        out.append(",\"rootSubkeys\":[");
        out.append(json_strings(self.root_subkeys.as_slice()).as_str());
        out.append("]}");
        out
    }

    /// How asking ends: a hive that cannot be read is an error.
    pub fn exit(&self) -> (r: Exit)
        ensures
            r == if self.readable {
                Exit::Success
            } else {
                Exit::Io
            },
    {
        if self.readable {
            Exit::Success
        } else {
            Exit::Io
        }
    }
}

/// The subkeys of a key in a hive.
#[derive(Debug)]
pub struct HiveList {
    pub subkey: String,
    pub recursive: bool,
    pub include_keys: Vec<String>,
    pub exclude_keys: Vec<String>,
    pub limit: u64,
    pub truncated: bool,
    pub keys: Vec<String>,
    pub skipped: Vec<(String, String)>,
}

/// The subkeys of a key in a hive, as JSON.
pub open spec fn hive_list_json(d: HiveList) -> Seq<char> {
    "{\"subkey\":"@ + json_string(d.subkey@) + ",\"recursive\":"@ + json_bool(d.recursive)
        + ",\"include\":["@ + json_list(views(d.include_keys@)) + "],\"exclude\":["@
        + json_list(views(d.exclude_keys@)) + "],\"limit\":"@ + dec_of(d.limit as nat)
        + ",\"truncated\":"@ + json_bool(d.truncated) + ",\"keys\":["@ + json_list(views(d.keys@))
        + "],\"skipped\":["@ + pair_items("path"@, "problem"@, d.skipped@) + "]}"@
}

impl HiveList {
    /// The subkeys of a key in a hive, as JSON.
    pub fn to_json(&self) -> (out: String)
        ensures
            out@ == hive_list_json(*self),
    {
        let mut out = "{\"subkey\":".to_owned();
        out.append(jstr(self.subkey.as_str()).as_str());
        out.append(",\"recursive\":");
        out.append(jbool(self.recursive));
        out.append(",\"include\":[");
        out.append(json_strings(self.include_keys.as_slice()).as_str());
        out.append("],\"exclude\":[");
        out.append(json_strings(self.exclude_keys.as_slice()).as_str());
        out.append("],\"limit\":");
        push_dec(&mut out, self.limit);
        out.append(",\"truncated\":");
        out.append(jbool(self.truncated));
        out.append(",\"keys\":[");
        out.append(json_strings(self.keys.as_slice()).as_str());
        out.append("],\"skipped\":[");
        out.append(pair_list("path", "problem", &self.skipped).as_str());
        out.append("]}");
        out
    }
}

/// Statistics of a subtree of a hive.
#[derive(Debug)]
pub struct HiveStats {
    pub subkey: String,
    pub root_as: Option<RegPath>,
    pub stats: RegistryStats,
    pub types: Vec<TypeCount>,
    pub conflicts: usize,
    pub matched: bool,
    pub scope: Scope,
    pub skipped: Vec<(String, String)>,
}

/// Statistics of a subtree of a hive, as JSON.
pub open spec fn hive_stats_json(d: HiveStats) -> Seq<char> {
    "{\"subkey\":"@ + json_string(d.subkey@) + ",\"rootAs\":"@ + opt_path_json(d.root_as) + ", "@
        + stats_text(d.stats, d.types@) + ",\"conflicts\":"@ + dec_of(d.conflicts as nat)
        + ",\"incomplete\":"@ + json_bool(d.skipped@.len() != 0) + ",\"matched\":"@
        + json_bool(d.matched) + ","@ + scope_json(d.scope@) + ",\"skipped\":["@
        + pair_items("path"@, "problem"@, d.skipped@) + "]}"@
}

impl HiveStats {
    /// Statistics of a subtree of a hive, as JSON.
    pub fn to_json(&self) -> (out: String)
        ensures
            out@ == hive_stats_json(*self),
    {
        let mut out = "{\"subkey\":".to_owned();
        out.append(jstr(self.subkey.as_str()).as_str());
        out.append(",\"rootAs\":");
        out.append(jopt_path(&self.root_as).as_str());
        out.append(", ");
        out.append(stats_json(&self.stats, &self.types).as_str());
        out.append(",\"conflicts\":");
        push_dec(&mut out, self.conflicts as u64);
        out.append(",\"incomplete\":");
        out.append(jbool(self.skipped.len() != 0));
        out.append(",\"matched\":");
        out.append(jbool(self.matched));
        out.append(",");
        out.append(scope_members(&self.scope).as_str());
        out.append(",\"skipped\":[");
        out.append(pair_list("path", "problem", &self.skipped).as_str());
        out.append("]}");
        out
    }

    /// How the count ends.
    pub fn exit(&self) -> (r: Exit)
        ensures
            r == scope_one_end(self.matched, self.skipped@.len() != 0, false),
    {
        scope_one_exit(self.matched, self.skipped.len() != 0, false)
    }
}

/// Whether a digest is the expected one; nothing where none is expected. A scope
/// that matched nothing has no digest to meet an expectation with.
pub open spec fn met(expected: Option<Seq<char>>, matched: bool, sha256: Seq<char>) -> Option<
    bool,
> {
    match expected {
        Some(e) => Some(matched && e == sha256),
        None => None,
    }
}

/// Whether a digest is the expected one; nothing where none is expected.
pub fn meets(expected: &Option<String>, matched: bool, sha256: &str) -> (r: Option<bool>)
    ensures
        r == met(opt_text(*expected), matched, sha256@),
{
    match expected {
        Some(e) => Some(matched && same_str(e.as_str(), sha256)),
        None => None,
    }
}

/// The fingerprint of a subtree of a hive.
#[derive(Debug)]
pub struct HiveFingerprint {
    pub subkey: String,
    pub root_as: Option<RegPath>,
    pub canonical_version: u32,
    pub sha256: String,
    pub conflicts: usize,
    pub expected: Option<String>,
    pub matched: bool,
    pub keys: usize,
    pub values: usize,
    pub scope: Scope,
    pub skipped: Vec<(String, String)>,
}

/// The fingerprint of a subtree of a hive, as JSON.
pub open spec fn hive_fingerprint_json(d: HiveFingerprint) -> Seq<char> {
    "{\"subkey\":"@ + json_string(d.subkey@) + ",\"rootAs\":"@ + opt_path_json(d.root_as)
        + ",\"canonicalVersion\":"@ + dec_of(d.canonical_version as nat)
        + ",\"algorithm\":\"sha256\",\"sha256\":"@ + json_string(d.sha256@) + ",\"conflicts\":"@
        + dec_of(d.conflicts as nat) + ",\"incomplete\":"@ + json_bool(d.skipped@.len() != 0)
        + ",\"expected\":"@ + json_opt(opt_text(d.expected)) + ",\"matches\":"@
        + json_opt_bool(met(opt_text(d.expected), d.matched, d.sha256@)) + ",\"matched\":"@
        + json_bool(d.matched) + ",\"keys\":"@ + dec_of(d.keys as nat) + ",\"values\":"@
        + dec_of(d.values as nat) + ","@ + scope_json(d.scope@) + ",\"skipped\":["@
        + pair_items("path"@, "problem"@, d.skipped@) + "]}"@
}

impl HiveFingerprint {
    /// The fingerprint of a subtree of a hive, as JSON.
    pub fn to_json(&self) -> (out: String)
        ensures
            out@ == hive_fingerprint_json(*self),
    {
        let mut out = "{\"subkey\":".to_owned();
        out.append(jstr(self.subkey.as_str()).as_str());
        out.append(",\"rootAs\":");
        out.append(jopt_path(&self.root_as).as_str());
        out.append(",\"canonicalVersion\":");
        push_dec(&mut out, self.canonical_version as u64);
        out.append(",\"algorithm\":\"sha256\",\"sha256\":");
        out.append(jstr(self.sha256.as_str()).as_str());
        out.append(",\"conflicts\":");
        push_dec(&mut out, self.conflicts as u64);
        out.append(",\"incomplete\":");
        out.append(jbool(self.skipped.len() != 0));
        out.append(",\"expected\":");
        out.append(jopt_string(&self.expected).as_str());
        out.append(",\"matches\":");
        out.append(jopt_bool(meets(&self.expected, self.matched, self.sha256.as_str())));
        out.append(",\"matched\":");
        out.append(jbool(self.matched));
        out.append(",\"keys\":");
        push_dec(&mut out, self.keys as u64);
        out.append(",\"values\":");
        push_dec(&mut out, self.values as u64);
        out.append(",");
        out.append(scope_members(&self.scope).as_str());
        out.append(",\"skipped\":[");
        out.append(pair_list("path", "problem", &self.skipped).as_str());
        out.append("]}");
        out
    }

    /// How the comparison ends.
    pub fn exit(&self) -> (r: Exit)
        ensures
            r == scope_one_end(
                self.matched,
                self.skipped@.len() != 0,
                met(opt_text(self.expected), self.matched, self.sha256@) == Some(false),
            ),
    {
        let mismatch = match meets(&self.expected, self.matched, self.sha256.as_str()) {
            Some(b) => !b,
            None => false,
        };
        scope_one_exit(self.matched, self.skipped.len() != 0, mismatch)
    }
}

/// What can be done with a key of a hive.
#[derive(Debug)]
pub struct HiveProbe {
    pub subkey: String,
    pub exists: bool,
    pub readable: bool,
    pub writable: bool,
    pub creatable: bool,
    pub detail: String,
}

/// What can be done with a key of a hive, as JSON.
pub open spec fn hive_probe_json(d: HiveProbe) -> Seq<char> {
    "{\"subkey\":"@ + json_string(d.subkey@) + ",\"exists\":"@ + json_bool(d.exists)
        + ",\"readable\":"@ + json_bool(d.readable) + ",\"writable\":"@ + json_bool(d.writable)
        + ",\"creatable\":"@ + json_bool(d.creatable) + ",\"detail\":"@ + json_string(d.detail@)
        + "}"@
}

impl HiveProbe {
    /// What can be done with a key of a hive, as JSON.
    pub fn to_json(&self) -> (out: String)
        ensures
            out@ == hive_probe_json(*self),
    {
        let mut out = "{\"subkey\":".to_owned();
        out.append(jstr(self.subkey.as_str()).as_str());
        out.append(",\"exists\":");
        out.append(jbool(self.exists));
        out.append(",\"readable\":");
        out.append(jbool(self.readable));
        out.append(",\"writable\":");
        out.append(jbool(self.writable));
        out.append(",\"creatable\":");
        out.append(jbool(self.creatable));
        out.append(",\"detail\":");
        out.append(jstr(self.detail.as_str()).as_str());
        out.append("}");
        out
    }

    /// How the probe ends: a key that can neither be written nor created is
    /// denied.
    pub fn exit(&self) -> (r: Exit)
        ensures
            r == if self.writable || self.creatable {
                Exit::Success
            } else {
                Exit::AccessDenied
            },
    {
        if self.writable || self.creatable {
            Exit::Success
        } else {
            Exit::AccessDenied
        }
    }
}

/// Who may do what with a key of a hive.
#[derive(Debug)]
pub struct HivePermissions {
    pub subkey: String,
    pub reports: Vec<PermissionView>,
    pub failures: Vec<(String, String)>,
}

/// Who may do what with a key of a hive, as JSON.
pub open spec fn hive_permissions_json(d: HivePermissions) -> Seq<char> {
    "{\"subkey\":"@ + json_string(d.subkey@) + ",\"views\":["@ + permission_items(d.reports@)
        + "],\"failures\":["@ + pair_items("view"@, "error"@, d.failures@) + "]}"@
}

impl HivePermissions {
    /// Who may do what with a key of a hive, as JSON.
    pub fn to_json(&self) -> (out: String)
        ensures
            out@ == hive_permissions_json(*self),
    {
        let mut out = "{\"subkey\":".to_owned();
        out.append(jstr(self.subkey.as_str()).as_str());
        out.append(",\"views\":[");
        out.append(permission_list(&self.reports).as_str());
        out.append("],\"failures\":[");
        out.append(pair_list("view", "error", &self.failures).as_str());
        out.append("]}");
        out
    }

    /// How reading them ends.
    pub fn exit(&self) -> (r: Exit)
        ensures
            r == permissions_end(self.reports@.len(), self.failures@.len()),
    {
        permissions_exit(self.reports.len(), self.failures.len())
    }
}

/// What a search in a hive found.
#[derive(Debug)]
pub struct HiveSearch {
    pub source: String,
    pub query: String,
    pub mode: Mode,
    pub case_sensitive: bool,
    pub scope: Scope,
    pub limit: usize,
    pub truncated: bool,
    pub incomplete: bool,
    pub matches: Vec<Match>,
}

/// What a search in a hive found, as JSON.
pub open spec fn hive_search_json(d: HiveSearch) -> Seq<char> {
    "{\"source\":"@ + json_string(d.source@) + ",\"remoteComputer\":null,\"query\":"@
        + json_string(d.query@) + ",\"mode\":"@ + json_string(mode_name(d.mode))
        + ",\"caseSensitive\":"@ + json_bool(d.case_sensitive) + ","@ + scope_json(d.scope@)
        + ",\"limit\":"@ + dec_of(d.limit as nat) + ",\"truncated\":"@ + json_bool(d.truncated)
        + ",\"incomplete\":"@ + json_bool(d.incomplete) + ",\"matches\":["@
        + match_items(views(d.matches@), ","@) + "]}"@
}

impl HiveSearch {
    /// What a search in a hive found, as JSON.
    pub fn to_json(&self) -> (out: String)
        ensures
            out@ == hive_search_json(*self),
    {
        let mut out = "{\"source\":".to_owned();
        out.append(jstr(self.source.as_str()).as_str());
        out.append(",\"remoteComputer\":null,\"query\":");
        out.append(jstr(self.query.as_str()).as_str());
        out.append(",\"mode\":");
        out.append(jstr(search_mode_name(self.mode)).as_str());
        out.append(",\"caseSensitive\":");
        out.append(jbool(self.case_sensitive));
        out.append(",");
        out.append(scope_members(&self.scope).as_str());
        out.append(",\"limit\":");
        push_dec(&mut out, self.limit as u64);
        out.append(",\"truncated\":");
        out.append(jbool(self.truncated));
        out.append(",\"incomplete\":");
        out.append(jbool(self.incomplete));
        out.append(",\"matches\":[");
        out.append(match_list(&self.matches, ",").as_str());
        out.append("]}");
        out
    }

    /// How the search ends.
    pub fn exit(&self) -> (r: Exit)
        ensures
            r == search_end(self.incomplete, self.matches@.len()),
    {
        search_exit(self.incomplete, self.matches.len())
    }
}

/// What became of a change in a hive.
#[derive(Debug)]
pub struct HiveChange {
    pub undo: Option<String>,
    pub written: Option<(u64, String)>,
    pub applied: ApplyReport,
    pub rollback: Option<ApplyReport>,
}

/// What became of a change in a hive, as JSON.
pub open spec fn hive_change_json(d: HiveChange) -> Seq<char> {
    "{\"undo\":"@ + json_opt(opt_text(d.undo)) + ", "@
        + evidence_json("undoBytes"@, "undoSha256"@, written_view(d.written)) + ",\"apply\":"@
        + report_json(d.applied) + ",\"rolledBack\":"@ + json_bool(d.rollback is Some)
        + ",\"rollback\":"@ + opt_report_json(d.rollback) + "}"@
}

impl HiveChange {
    /// What became of a change in a hive, as JSON.
    pub fn to_json(&self) -> (out: String)
        ensures
            out@ == hive_change_json(*self),
    {
        let mut out = "{\"undo\":".to_owned();
        out.append(jopt_string(&self.undo).as_str());
        out.append(", ");
        out.append(undo_evidence_json(&self.written).as_str());
        out.append(",\"apply\":");
        out.append(apply_report_json(&self.applied).as_str());
        out.append(",\"rolledBack\":");
        out.append(jbool(self.rollback.is_some()));
        out.append(",\"rollback\":");
        out.append(opt_apply_report_json(&self.rollback).as_str());
        out.append("}");
        out
    }

    /// How the change ends.
    pub fn exit(&self) -> (r: Exit)
        ensures
            r == atomic_exit(self.applied, self.rollback),
    {
        hive_atomic_exit(&self.applied, &self.rollback)
    }
}

/// What became of taking a change in a hive back.
#[derive(Debug)]
pub struct HiveRedo {
    pub redo: Option<String>,
    pub written: Option<(u64, String)>,
    pub applied: ApplyReport,
    pub rollback: Option<ApplyReport>,
}

/// What became of taking a change in a hive back, as JSON.
pub open spec fn hive_redo_json(d: HiveRedo) -> Seq<char> {
    "{\"redo\":"@ + json_opt(opt_text(d.redo)) + ", "@
        + evidence_json("redoBytes"@, "redoSha256"@, written_view(d.written)) + ",\"apply\":"@
        + report_json(d.applied) + ",\"rolledBack\":"@ + json_bool(d.rollback is Some)
        + ",\"rollback\":"@ + opt_report_json(d.rollback) + "}"@
}

impl HiveRedo {
    /// What became of taking a change in a hive back, as JSON.
    pub fn to_json(&self) -> (out: String)
        ensures
            out@ == hive_redo_json(*self),
    {
        let mut out = "{\"redo\":".to_owned();
        out.append(jopt_string(&self.redo).as_str());
        out.append(", ");
        out.append(redo_evidence_json(&self.written).as_str());
        out.append(",\"apply\":");
        out.append(apply_report_json(&self.applied).as_str());
        out.append(",\"rolledBack\":");
        out.append(jbool(self.rollback.is_some()));
        out.append(",\"rollback\":");
        out.append(opt_apply_report_json(&self.rollback).as_str());
        out.append("}");
        out
    }

    /// How the change ends.
    pub fn exit(&self) -> (r: Exit)
        ensures
            r == atomic_exit(self.applied, self.rollback),
    {
        hive_atomic_exit(&self.applied, &self.rollback)
    }
}

/// What became of synchronizing a hive.
#[derive(Debug)]
pub struct HiveSync {
    pub prune: bool,
    pub prune_keys: bool,
    pub dry_run: bool,
    pub applied: ApplyReport,
    pub undo: Option<String>,
    pub written: Option<(u64, String)>,
    pub rollback: Option<ApplyReport>,
}

/// What became of synchronizing a hive, as JSON.
pub open spec fn hive_sync_json(d: HiveSync) -> Seq<char> {
    "{\"prune\":"@ + json_bool(d.prune) + ",\"pruneKeys\":"@ + json_bool(d.prune_keys)
        + ",\"dryRun\":"@ + json_bool(d.dry_run) + ",\"apply\":"@ + report_json(d.applied)
        + ",\"undo\":"@ + json_opt(opt_text(d.undo)) + ", "@
        + evidence_json("undoBytes"@, "undoSha256"@, written_view(d.written))
        + ",\"rolledBack\":"@ + json_bool(d.rollback is Some) + ",\"rollback\":"@
        + opt_report_json(d.rollback) + "}"@
}

impl HiveSync {
    /// What became of synchronizing a hive, as JSON.
    pub fn to_json(&self) -> (out: String)
        ensures
            out@ == hive_sync_json(*self),
    {
        let mut out = "{\"prune\":".to_owned();
        out.append(jbool(self.prune));
        out.append(",\"pruneKeys\":");
        out.append(jbool(self.prune_keys));
        out.append(",\"dryRun\":");
        out.append(jbool(self.dry_run));
        out.append(",\"apply\":");
        out.append(apply_report_json(&self.applied).as_str());
        out.append(",\"undo\":");
        out.append(jopt_string(&self.undo).as_str());
        out.append(", ");
        out.append(undo_evidence_json(&self.written).as_str());
        out.append(",\"rolledBack\":");
        out.append(jbool(self.rollback.is_some()));
        out.append(",\"rollback\":");
        out.append(opt_apply_report_json(&self.rollback).as_str());
        out.append("}");
        out
    }

    /// How the change ends.
    pub fn exit(&self) -> (r: Exit)
        ensures
            r == atomic_exit(self.applied, self.rollback),
    {
        hive_atomic_exit(&self.applied, &self.rollback)
    }
}

/// What became of copying or moving a subtree in a hive.
#[derive(Debug)]
pub struct HiveCopy {
    pub operation: String,
    pub source: String,
    pub destination: String,
    pub overwrite: bool,
    pub dry_run: bool,
    pub undo: Option<String>,
    pub written: Option<(u64, String)>,
    pub copied: ApplyReport,
    pub removed: Option<ApplyReport>,
    pub rollback: Option<ApplyReport>,
}

/// What became of copying or moving a subtree in a hive, as JSON.
pub open spec fn hive_copy_json(d: HiveCopy) -> Seq<char> {
    "{\"operation\":"@ + json_string(d.operation@) + ",\"source\":"@ + json_string(d.source@)
        + ",\"destination\":"@ + json_string(d.destination@) + ",\"overwrite\":"@
        + json_bool(d.overwrite) + ",\"dryRun\":"@ + json_bool(d.dry_run) + ",\"undo\":"@
        + json_opt(opt_text(d.undo)) + ", "@
        + evidence_json("undoBytes"@, "undoSha256"@, written_view(d.written)) + ",\"copy\":"@
        + report_json(d.copied) + ",\"removeSource\":"@ + opt_report_json(d.removed)
        + ",\"rolledBack\":"@ + json_bool(d.rollback is Some) + ",\"rollback\":"@
        + opt_report_json(d.rollback) + "}"@
}

impl HiveCopy {
    /// What became of copying or moving a subtree in a hive, as JSON.
    pub fn to_json(&self) -> (out: String)
        ensures
            out@ == hive_copy_json(*self),
    {
        let mut out = "{\"operation\":".to_owned();
        out.append(jstr(self.operation.as_str()).as_str());
        out.append(",\"source\":");
        out.append(jstr(self.source.as_str()).as_str());
        out.append(",\"destination\":");
        out.append(jstr(self.destination.as_str()).as_str());
        out.append(",\"overwrite\":");
        out.append(jbool(self.overwrite));
        out.append(",\"dryRun\":");
        out.append(jbool(self.dry_run));
        out.append(",\"undo\":");
        out.append(jopt_string(&self.undo).as_str());
        out.append(", ");
        out.append(undo_evidence_json(&self.written).as_str());
        out.append(",\"copy\":");
        out.append(apply_report_json(&self.copied).as_str());
        out.append(",\"removeSource\":");
        out.append(opt_apply_report_json(&self.removed).as_str());
        out.append(",\"rolledBack\":");
        out.append(jbool(self.rollback.is_some()));
        out.append(",\"rollback\":");
        out.append(opt_apply_report_json(&self.rollback).as_str());
        out.append("}");
        out
    }
}

/// What became of copying or moving a value in a hive.
#[derive(Debug)]
pub struct HiveCopyValue {
    pub undo: Option<String>,
    pub written: Option<(u64, String)>,
    pub copied: ApplyReport,
    pub removed: Option<ApplyReport>,
    pub rollback: Option<ApplyReport>,
}

/// What became of copying or moving a value in a hive, as JSON.
pub open spec fn hive_copy_value_json(d: HiveCopyValue) -> Seq<char> {
    "{\"undo\":"@ + json_opt(opt_text(d.undo)) + ", "@
        + evidence_json("undoBytes"@, "undoSha256"@, written_view(d.written)) + ",\"copy\":"@
        + report_json(d.copied) + ",\"removeSource\":"@ + opt_report_json(d.removed)
        + ",\"rolledBack\":"@ + json_bool(d.rollback is Some) + ",\"rollback\":"@
        + opt_report_json(d.rollback) + "}"@
}

impl HiveCopyValue {
    /// What became of copying or moving a value in a hive, as JSON.
    pub fn to_json(&self) -> (out: String)
        ensures
            out@ == hive_copy_value_json(*self),
    {
        let mut out = "{\"undo\":".to_owned();
        out.append(jopt_string(&self.undo).as_str());
        out.append(", ");
        out.append(undo_evidence_json(&self.written).as_str());
        out.append(",\"copy\":");
        out.append(apply_report_json(&self.copied).as_str());
        out.append(",\"removeSource\":");
        out.append(opt_apply_report_json(&self.removed).as_str());
        out.append(",\"rolledBack\":");
        out.append(jbool(self.rollback.is_some()));
        out.append(",\"rollback\":");
        out.append(opt_apply_report_json(&self.rollback).as_str());
        out.append("}");
        out
    }
}

/// What was exported from a hive to a file.
#[derive(Debug)]
pub struct HiveExportFile {
    pub hive: String,
    pub subkey: String,
    pub root_as: String,
    pub format: DataFormat,
    pub file: String,
    pub scope: Scope,
    pub dry_run: bool,
    pub keys: usize,
    pub values: usize,
    pub skipped: usize,
}

/// What was exported from a hive to a file, as JSON.
pub open spec fn hive_export_file_json(d: HiveExportFile) -> Seq<char> {
    "{\"hive\":"@ + json_string(d.hive@) + ",\"subkey\":"@ + json_string(d.subkey@)
        + ",\"rootAs\":"@ + json_string(d.root_as@) + ",\"format\":"@
        + json_string(format_name(d.format)) + ",\"file\":"@ + json_string(d.file@) + ","@
        + scope_json(d.scope@) + ",\"dryRun\":"@ + json_bool(d.dry_run) + ",\"keys\":"@
        + dec_of(d.keys as nat) + ",\"values\":"@ + dec_of(d.values as nat) + ",\"skipped\":"@
        + dec_of(d.skipped as nat) + "}"@
}

impl HiveExportFile {
    /// What was exported from a hive to a file, as JSON.
    pub fn to_json(&self) -> (out: String)
        ensures
            out@ == hive_export_file_json(*self),
    {
        let mut out = "{\"hive\":".to_owned();
        out.append(jstr(self.hive.as_str()).as_str());
        out.append(",\"subkey\":");
        out.append(jstr(self.subkey.as_str()).as_str());
        out.append(",\"rootAs\":");
        out.append(jstr(self.root_as.as_str()).as_str());
        out.append(",\"format\":");
        out.append(jstr(data_format_name(self.format)).as_str());
        out.append(",\"file\":");
        out.append(jstr(self.file.as_str()).as_str());
        out.append(",");
        out.append(scope_members(&self.scope).as_str());
        out.append(",\"dryRun\":");
        out.append(jbool(self.dry_run));
        out.append(",\"keys\":");
        push_dec(&mut out, self.keys as u64);
        out.append(",\"values\":");
        push_dec(&mut out, self.values as u64);
        out.append(",\"skipped\":");
        push_dec(&mut out, self.skipped as u64);
        out.append("}");
        out
    }
}

/// What was exported from a hive, in full.
#[derive(Debug)]
pub struct HiveExportData {
    pub hive: String,
    pub subkey: String,
    pub root_as: String,
    pub format: DataFormat,
    pub scope: Scope,
    pub data: RegFile,
}

/// What was exported from a hive, in full, as JSON.
pub open spec fn hive_export_data_json(d: HiveExportData) -> Seq<char> {
    "{\"hive\":"@ + json_string(d.hive@) + ",\"subkey\":"@ + json_string(d.subkey@)
        + ",\"rootAs\":"@ + json_string(d.root_as@) + ",\"format\":"@
        + json_string(format_name(d.format)) + ","@ + scope_json(d.scope@) + ",\"data\":"@
        + file_json(d.data@) + "}"@
}

impl HiveExportData {
    /// What was exported from a hive, in full, as JSON.
    pub fn to_json(&self) -> (out: String)
        ensures
            out@ == hive_export_data_json(*self),
    {
        let mut out = "{\"hive\":".to_owned();
        out.append(jstr(self.hive.as_str()).as_str());
        out.append(",\"subkey\":");
        out.append(jstr(self.subkey.as_str()).as_str());
        out.append(",\"rootAs\":");
        out.append(jstr(self.root_as.as_str()).as_str());
        out.append(",\"format\":");
        out.append(jstr(data_format_name(self.format)).as_str());
        out.append(",");
        out.append(scope_members(&self.scope).as_str());
        out.append(",\"data\":");
        out.append(to_json(&self.data).as_str());
        out.append("}");
        out
    }
}

} // verus!
