//! What the documents on hives, plans and inspections tell, field by field.
use vstd::prelude::*;

use crate::apply::{opt_report_json, report_json};
use crate::hive_report::{HiveChange, HiveCopy, HiveCopyValue, HiveExportData, HiveExportFile, HiveFingerprint, HiveInfo, HiveList, HivePermissions, HiveProbe, HiveRedo, HiveSearch, HiveStats, HiveSync, hive_change_json, hive_copy_json, hive_copy_value_json, hive_export_data_json, hive_export_file_json, hive_fingerprint_json, hive_info_json, hive_list_json, hive_permissions_json, hive_probe_json, hive_redo_json, hive_search_json, hive_stats_json, hive_sync_json, met};
use crate::input::{format_name};
use crate::inspection::{Companion, Discovery, FoundConflict, Inspection, Risk, companion_items, companion_json, deletes_in, discovery_json, finding_line, finding_lines, format_json, found_conflict_items, found_conflict_json, hive_names, hive_order, inspection_json, opt_value_json, risk_details, risk_json, risk_kinds, self_check_json, verdict_name};
use crate::json::{json_bool, json_list, json_opt, json_string};
use crate::model::{BlockView, EntryView, name_text, preview_of, type_id_of, type_name_of};
use crate::number::{dec_of, dec_of_int};
use crate::parser::{DiagView, OutcomeView, Severity, any_error};
use crate::parts::{json_opt_bool, json_spaced, match_items, opt_path_json, pair_items, permission_items, scope_json};
use crate::report::{Defect, PermissionView, Repair, TypeCount, ViewPlan, WrittenFile, defect_json, diagnostic_json, label_below, link_json, mode_name, pairs_json, permission_json, plan_changes_json, query_key, query_value, repair_json, stats_text, validation, view_plan};
use crate::select::{RegistryStats, ScopeView, capped, total_values};
use crate::selfcheck::{FindingView};
use crate::shortcut::{LinkView, style_name};
use crate::telling::{tells, told_first, told_here, told_on};
use crate::text::{ends, joined, opt_text, views};
use crate::writer::{file_json, value_json};

verus! {

/// In the document of a hive info each field holds what it is named after.
pub proof fn hive_info_tells_its_fields(d: HiveInfo)
    ensures
        tells(hive_info_json(d), "\"file\":"@, json_string(d.file@)),
        tells(hive_info_json(d), "\"size\":"@, dec_of(d.size as nat)),
        tells(hive_info_json(d), "\"signatureValid\":"@, json_bool(d.signature_valid)),
        tells(hive_info_json(d), "\"readable\":"@, json_bool(d.readable)),
        tells(hive_info_json(d), "\"writable\":"@, json_bool(d.writable)),
        tells(hive_info_json(d), "\"detail\":"@, json_string(d.detail@)),
        tells(hive_info_json(d), "\"rootSubkeys\":["@, json_list(views(d.root_subkeys@))),
{
    broadcast use {told_on, told_here, told_first};

    assert(ends("{\"file\":"@, "\"file\":"@)) by {
        reveal_strlit("{\"file\":");
        reveal_strlit("\"file\":");
        assert("{\"file\":"@.skip("{\"file\":"@.len() - "\"file\":"@.len()) =~= "\"file\":"@);
    }
    assert(ends(",\"size\":"@, "\"size\":"@)) by {
        reveal_strlit(",\"size\":");
        reveal_strlit("\"size\":");
        assert(",\"size\":"@.skip(",\"size\":"@.len() - "\"size\":"@.len()) =~= "\"size\":"@);
    }
    assert(ends(",\"signatureValid\":"@, "\"signatureValid\":"@)) by {
        reveal_strlit(",\"signatureValid\":");
        reveal_strlit("\"signatureValid\":");
        assert(",\"signatureValid\":"@.skip(",\"signatureValid\":"@.len() - "\"signatureValid\":"@.len()) =~= "\"signatureValid\":"@);
    }
    assert(ends(",\"readable\":"@, "\"readable\":"@)) by {
        reveal_strlit(",\"readable\":");
        reveal_strlit("\"readable\":");
        assert(",\"readable\":"@.skip(",\"readable\":"@.len() - "\"readable\":"@.len()) =~= "\"readable\":"@);
    }
    assert(ends(",\"writable\":"@, "\"writable\":"@)) by {
        reveal_strlit(",\"writable\":");
        reveal_strlit("\"writable\":");
        assert(",\"writable\":"@.skip(",\"writable\":"@.len() - "\"writable\":"@.len()) =~= "\"writable\":"@);
    }
    assert(ends(",\"detail\":"@, "\"detail\":"@)) by {
        reveal_strlit(",\"detail\":");
        reveal_strlit("\"detail\":");
        assert(",\"detail\":"@.skip(",\"detail\":"@.len() - "\"detail\":"@.len()) =~= "\"detail\":"@);
    }
    assert(ends(",\"rootSubkeys\":["@, "\"rootSubkeys\":["@)) by {
        reveal_strlit(",\"rootSubkeys\":[");
        reveal_strlit("\"rootSubkeys\":[");
        assert(",\"rootSubkeys\":["@.skip(",\"rootSubkeys\":["@.len() - "\"rootSubkeys\":["@.len()) =~= "\"rootSubkeys\":["@);
    }
}

/// In the document of a hive list each field holds what it is named after.
pub proof fn hive_list_tells_its_fields(d: HiveList)
    ensures
        tells(hive_list_json(d), "\"subkey\":"@, json_string(d.subkey@)),
        tells(hive_list_json(d), "\"recursive\":"@, json_bool(d.recursive)),
        tells(hive_list_json(d), "\"include\":["@, json_list(views(d.include_keys@))),
        tells(hive_list_json(d), "\"exclude\":["@, json_list(views(d.exclude_keys@))),
        tells(hive_list_json(d), "\"limit\":"@, dec_of(d.limit as nat)),
        tells(hive_list_json(d), "\"truncated\":"@, json_bool(d.truncated)),
        tells(hive_list_json(d), "\"keys\":["@, json_list(views(d.keys@))),
        tells(hive_list_json(d), "\"skipped\":["@, pair_items("path"@, "problem"@, d.skipped@)),
{
    broadcast use {told_on, told_here, told_first};

    assert(ends("{\"subkey\":"@, "\"subkey\":"@)) by {
        reveal_strlit("{\"subkey\":");
        reveal_strlit("\"subkey\":");
        assert("{\"subkey\":"@.skip("{\"subkey\":"@.len() - "\"subkey\":"@.len()) =~= "\"subkey\":"@);
    }
    assert(ends(",\"recursive\":"@, "\"recursive\":"@)) by {
        reveal_strlit(",\"recursive\":");
        reveal_strlit("\"recursive\":");
        assert(",\"recursive\":"@.skip(",\"recursive\":"@.len() - "\"recursive\":"@.len()) =~= "\"recursive\":"@);
    }
    assert(ends(",\"include\":["@, "\"include\":["@)) by {
        reveal_strlit(",\"include\":[");
        reveal_strlit("\"include\":[");
        assert(",\"include\":["@.skip(",\"include\":["@.len() - "\"include\":["@.len()) =~= "\"include\":["@);
    }
    assert(ends("],\"exclude\":["@, "\"exclude\":["@)) by {
        reveal_strlit("],\"exclude\":[");
        reveal_strlit("\"exclude\":[");
        assert("],\"exclude\":["@.skip("],\"exclude\":["@.len() - "\"exclude\":["@.len()) =~= "\"exclude\":["@);
    }
    assert(ends("],\"limit\":"@, "\"limit\":"@)) by {
        reveal_strlit("],\"limit\":");
        reveal_strlit("\"limit\":");
        assert("],\"limit\":"@.skip("],\"limit\":"@.len() - "\"limit\":"@.len()) =~= "\"limit\":"@);
    }
    assert(ends(",\"truncated\":"@, "\"truncated\":"@)) by {
        reveal_strlit(",\"truncated\":");
        reveal_strlit("\"truncated\":");
        assert(",\"truncated\":"@.skip(",\"truncated\":"@.len() - "\"truncated\":"@.len()) =~= "\"truncated\":"@);
    }
    assert(ends(",\"keys\":["@, "\"keys\":["@)) by {
        reveal_strlit(",\"keys\":[");
        reveal_strlit("\"keys\":[");
        assert(",\"keys\":["@.skip(",\"keys\":["@.len() - "\"keys\":["@.len()) =~= "\"keys\":["@);
    }
    assert(ends("],\"skipped\":["@, "\"skipped\":["@)) by {
        reveal_strlit("],\"skipped\":[");
        reveal_strlit("\"skipped\":[");
        assert("],\"skipped\":["@.skip("],\"skipped\":["@.len() - "\"skipped\":["@.len()) =~= "\"skipped\":["@);
    }
}

/// In the document of a hive stats each field holds what it is named after.
pub proof fn hive_stats_tells_its_fields(d: HiveStats)
    ensures
        tells(hive_stats_json(d), "\"subkey\":"@, json_string(d.subkey@)),
        tells(hive_stats_json(d), "\"rootAs\":"@, opt_path_json(d.root_as)),
        tells(hive_stats_json(d), "\"conflicts\":"@, dec_of(d.conflicts as nat)),
        tells(hive_stats_json(d), "\"incomplete\":"@, json_bool(d.skipped@.len() != 0)),
        tells(hive_stats_json(d), "\"matched\":"@, json_bool(d.matched)),
        tells(hive_stats_json(d), "\"skipped\":["@, pair_items("path"@, "problem"@, d.skipped@)),
{
    broadcast use {told_on, told_here, told_first};

    assert(ends("{\"subkey\":"@, "\"subkey\":"@)) by {
        reveal_strlit("{\"subkey\":");
        reveal_strlit("\"subkey\":");
        assert("{\"subkey\":"@.skip("{\"subkey\":"@.len() - "\"subkey\":"@.len()) =~= "\"subkey\":"@);
    }
    assert(ends(",\"rootAs\":"@, "\"rootAs\":"@)) by {
        reveal_strlit(",\"rootAs\":");
        reveal_strlit("\"rootAs\":");
        assert(",\"rootAs\":"@.skip(",\"rootAs\":"@.len() - "\"rootAs\":"@.len()) =~= "\"rootAs\":"@);
    }
    assert(ends(",\"conflicts\":"@, "\"conflicts\":"@)) by {
        reveal_strlit(",\"conflicts\":");
        reveal_strlit("\"conflicts\":");
        assert(",\"conflicts\":"@.skip(",\"conflicts\":"@.len() - "\"conflicts\":"@.len()) =~= "\"conflicts\":"@);
    }
    assert(ends(",\"incomplete\":"@, "\"incomplete\":"@)) by {
        reveal_strlit(",\"incomplete\":");
        reveal_strlit("\"incomplete\":");
        assert(",\"incomplete\":"@.skip(",\"incomplete\":"@.len() - "\"incomplete\":"@.len()) =~= "\"incomplete\":"@);
    }
    assert(ends(",\"matched\":"@, "\"matched\":"@)) by {
        reveal_strlit(",\"matched\":");
        reveal_strlit("\"matched\":");
        assert(",\"matched\":"@.skip(",\"matched\":"@.len() - "\"matched\":"@.len()) =~= "\"matched\":"@);
    }
    assert(ends(",\"skipped\":["@, "\"skipped\":["@)) by {
        reveal_strlit(",\"skipped\":[");
        reveal_strlit("\"skipped\":[");
        assert(",\"skipped\":["@.skip(",\"skipped\":["@.len() - "\"skipped\":["@.len()) =~= "\"skipped\":["@);
    }
}

/// In the document of a hive fingerprint each field holds what it is named after.
pub proof fn hive_fingerprint_tells_its_fields(d: HiveFingerprint)
    ensures
        tells(hive_fingerprint_json(d), "\"subkey\":"@, json_string(d.subkey@)),
        tells(hive_fingerprint_json(d), "\"rootAs\":"@, opt_path_json(d.root_as)),
        tells(hive_fingerprint_json(d), "\"canonicalVersion\":"@, dec_of(d.canonical_version as nat)),
        tells(hive_fingerprint_json(d), "\"sha256\":"@, json_string(d.sha256@)),
        tells(hive_fingerprint_json(d), "\"conflicts\":"@, dec_of(d.conflicts as nat)),
        tells(hive_fingerprint_json(d), "\"incomplete\":"@, json_bool(d.skipped@.len() != 0)),
        tells(hive_fingerprint_json(d), "\"expected\":"@, json_opt(opt_text(d.expected))),
        tells(hive_fingerprint_json(d), "\"matches\":"@, json_opt_bool(met(opt_text(d.expected), d.matched, d.sha256@))),
        tells(hive_fingerprint_json(d), "\"matched\":"@, json_bool(d.matched)),
        tells(hive_fingerprint_json(d), "\"keys\":"@, dec_of(d.keys as nat)),
        tells(hive_fingerprint_json(d), "\"values\":"@, dec_of(d.values as nat)),
        tells(hive_fingerprint_json(d), "\"skipped\":["@, pair_items("path"@, "problem"@, d.skipped@)),
{
    broadcast use {told_on, told_here, told_first};

    assert(ends("{\"subkey\":"@, "\"subkey\":"@)) by {
        reveal_strlit("{\"subkey\":");
        reveal_strlit("\"subkey\":");
        assert("{\"subkey\":"@.skip("{\"subkey\":"@.len() - "\"subkey\":"@.len()) =~= "\"subkey\":"@);
    }
    assert(ends(",\"rootAs\":"@, "\"rootAs\":"@)) by {
        reveal_strlit(",\"rootAs\":");
        reveal_strlit("\"rootAs\":");
        assert(",\"rootAs\":"@.skip(",\"rootAs\":"@.len() - "\"rootAs\":"@.len()) =~= "\"rootAs\":"@);
    }
    assert(ends(",\"canonicalVersion\":"@, "\"canonicalVersion\":"@)) by {
        reveal_strlit(",\"canonicalVersion\":");
        reveal_strlit("\"canonicalVersion\":");
        assert(",\"canonicalVersion\":"@.skip(",\"canonicalVersion\":"@.len() - "\"canonicalVersion\":"@.len()) =~= "\"canonicalVersion\":"@);
    }
    assert(ends(",\"algorithm\":\"sha256\",\"sha256\":"@, "\"sha256\":"@)) by {
        reveal_strlit(",\"algorithm\":\"sha256\",\"sha256\":");
        reveal_strlit("\"sha256\":");
        assert(",\"algorithm\":\"sha256\",\"sha256\":"@.skip(",\"algorithm\":\"sha256\",\"sha256\":"@.len() - "\"sha256\":"@.len()) =~= "\"sha256\":"@);
    }
    assert(ends(",\"conflicts\":"@, "\"conflicts\":"@)) by {
        reveal_strlit(",\"conflicts\":");
        reveal_strlit("\"conflicts\":");
        assert(",\"conflicts\":"@.skip(",\"conflicts\":"@.len() - "\"conflicts\":"@.len()) =~= "\"conflicts\":"@);
    }
    assert(ends(",\"incomplete\":"@, "\"incomplete\":"@)) by {
        reveal_strlit(",\"incomplete\":");
        reveal_strlit("\"incomplete\":");
        assert(",\"incomplete\":"@.skip(",\"incomplete\":"@.len() - "\"incomplete\":"@.len()) =~= "\"incomplete\":"@);
    }
    assert(ends(",\"expected\":"@, "\"expected\":"@)) by {
        reveal_strlit(",\"expected\":");
        reveal_strlit("\"expected\":");
        assert(",\"expected\":"@.skip(",\"expected\":"@.len() - "\"expected\":"@.len()) =~= "\"expected\":"@);
    }
    assert(ends(",\"matches\":"@, "\"matches\":"@)) by {
        reveal_strlit(",\"matches\":");
        reveal_strlit("\"matches\":");
        assert(",\"matches\":"@.skip(",\"matches\":"@.len() - "\"matches\":"@.len()) =~= "\"matches\":"@);
    }
    assert(ends(",\"matched\":"@, "\"matched\":"@)) by {
        reveal_strlit(",\"matched\":");
        reveal_strlit("\"matched\":");
        assert(",\"matched\":"@.skip(",\"matched\":"@.len() - "\"matched\":"@.len()) =~= "\"matched\":"@);
    }
    assert(ends(",\"keys\":"@, "\"keys\":"@)) by {
        reveal_strlit(",\"keys\":");
        reveal_strlit("\"keys\":");
        assert(",\"keys\":"@.skip(",\"keys\":"@.len() - "\"keys\":"@.len()) =~= "\"keys\":"@);
    }
    assert(ends(",\"values\":"@, "\"values\":"@)) by {
        reveal_strlit(",\"values\":");
        reveal_strlit("\"values\":");
        assert(",\"values\":"@.skip(",\"values\":"@.len() - "\"values\":"@.len()) =~= "\"values\":"@);
    }
    assert(ends(",\"skipped\":["@, "\"skipped\":["@)) by {
        reveal_strlit(",\"skipped\":[");
        reveal_strlit("\"skipped\":[");
        assert(",\"skipped\":["@.skip(",\"skipped\":["@.len() - "\"skipped\":["@.len()) =~= "\"skipped\":["@);
    }
}

/// In the document of a hive probe each field holds what it is named after.
pub proof fn hive_probe_tells_its_fields(d: HiveProbe)
    ensures
        tells(hive_probe_json(d), "\"subkey\":"@, json_string(d.subkey@)),
        tells(hive_probe_json(d), "\"exists\":"@, json_bool(d.exists)),
        tells(hive_probe_json(d), "\"readable\":"@, json_bool(d.readable)),
        tells(hive_probe_json(d), "\"writable\":"@, json_bool(d.writable)),
        tells(hive_probe_json(d), "\"creatable\":"@, json_bool(d.creatable)),
        tells(hive_probe_json(d), "\"detail\":"@, json_string(d.detail@)),
{
    broadcast use {told_on, told_here, told_first};

    assert(ends("{\"subkey\":"@, "\"subkey\":"@)) by {
        reveal_strlit("{\"subkey\":");
        reveal_strlit("\"subkey\":");
        assert("{\"subkey\":"@.skip("{\"subkey\":"@.len() - "\"subkey\":"@.len()) =~= "\"subkey\":"@);
    }
    assert(ends(",\"exists\":"@, "\"exists\":"@)) by {
        reveal_strlit(",\"exists\":");
        reveal_strlit("\"exists\":");
        assert(",\"exists\":"@.skip(",\"exists\":"@.len() - "\"exists\":"@.len()) =~= "\"exists\":"@);
    }
    assert(ends(",\"readable\":"@, "\"readable\":"@)) by {
        reveal_strlit(",\"readable\":");
        reveal_strlit("\"readable\":");
        assert(",\"readable\":"@.skip(",\"readable\":"@.len() - "\"readable\":"@.len()) =~= "\"readable\":"@);
    }
    assert(ends(",\"writable\":"@, "\"writable\":"@)) by {
        reveal_strlit(",\"writable\":");
        reveal_strlit("\"writable\":");
        assert(",\"writable\":"@.skip(",\"writable\":"@.len() - "\"writable\":"@.len()) =~= "\"writable\":"@);
    }
    assert(ends(",\"creatable\":"@, "\"creatable\":"@)) by {
        reveal_strlit(",\"creatable\":");
        reveal_strlit("\"creatable\":");
        assert(",\"creatable\":"@.skip(",\"creatable\":"@.len() - "\"creatable\":"@.len()) =~= "\"creatable\":"@);
    }
    assert(ends(",\"detail\":"@, "\"detail\":"@)) by {
        reveal_strlit(",\"detail\":");
        reveal_strlit("\"detail\":");
        assert(",\"detail\":"@.skip(",\"detail\":"@.len() - "\"detail\":"@.len()) =~= "\"detail\":"@);
    }
}

/// In the document of a hive permissions each field holds what it is named after.
pub proof fn hive_permissions_tells_its_fields(d: HivePermissions)
    ensures
        tells(hive_permissions_json(d), "\"subkey\":"@, json_string(d.subkey@)),
        tells(hive_permissions_json(d), "\"views\":["@, permission_items(d.reports@)),
        tells(hive_permissions_json(d), "\"failures\":["@, pair_items("view"@, "error"@, d.failures@)),
{
    broadcast use {told_on, told_here, told_first};

    assert(ends("{\"subkey\":"@, "\"subkey\":"@)) by {
        reveal_strlit("{\"subkey\":");
        reveal_strlit("\"subkey\":");
        assert("{\"subkey\":"@.skip("{\"subkey\":"@.len() - "\"subkey\":"@.len()) =~= "\"subkey\":"@);
    }
    assert(ends(",\"views\":["@, "\"views\":["@)) by {
        reveal_strlit(",\"views\":[");
        reveal_strlit("\"views\":[");
        assert(",\"views\":["@.skip(",\"views\":["@.len() - "\"views\":["@.len()) =~= "\"views\":["@);
    }
    assert(ends("],\"failures\":["@, "\"failures\":["@)) by {
        reveal_strlit("],\"failures\":[");
        reveal_strlit("\"failures\":[");
        assert("],\"failures\":["@.skip("],\"failures\":["@.len() - "\"failures\":["@.len()) =~= "\"failures\":["@);
    }
}

/// In the document of a hive search each field holds what it is named after.
pub proof fn hive_search_tells_its_fields(d: HiveSearch)
    ensures
        tells(hive_search_json(d), "\"source\":"@, json_string(d.source@)),
        tells(hive_search_json(d), "\"query\":"@, json_string(d.query@)),
        tells(hive_search_json(d), "\"mode\":"@, json_string(mode_name(d.mode))),
        tells(hive_search_json(d), "\"caseSensitive\":"@, json_bool(d.case_sensitive)),
        tells(hive_search_json(d), "\"limit\":"@, dec_of(d.limit as nat)),
        tells(hive_search_json(d), "\"truncated\":"@, json_bool(d.truncated)),
        tells(hive_search_json(d), "\"incomplete\":"@, json_bool(d.incomplete)),
        tells(hive_search_json(d), "\"matches\":["@, match_items(views(d.matches@), ","@)),
{
    broadcast use {told_on, told_here, told_first};

    assert(ends("{\"source\":"@, "\"source\":"@)) by {
        reveal_strlit("{\"source\":");
        reveal_strlit("\"source\":");
        assert("{\"source\":"@.skip("{\"source\":"@.len() - "\"source\":"@.len()) =~= "\"source\":"@);
    }
    assert(ends(",\"remoteComputer\":null,\"query\":"@, "\"query\":"@)) by {
        reveal_strlit(",\"remoteComputer\":null,\"query\":");
        reveal_strlit("\"query\":");
        assert(",\"remoteComputer\":null,\"query\":"@.skip(",\"remoteComputer\":null,\"query\":"@.len() - "\"query\":"@.len()) =~= "\"query\":"@);
    }
    assert(ends(",\"mode\":"@, "\"mode\":"@)) by {
        reveal_strlit(",\"mode\":");
        reveal_strlit("\"mode\":");
        assert(",\"mode\":"@.skip(",\"mode\":"@.len() - "\"mode\":"@.len()) =~= "\"mode\":"@);
    }
    assert(ends(",\"caseSensitive\":"@, "\"caseSensitive\":"@)) by {
        reveal_strlit(",\"caseSensitive\":");
        reveal_strlit("\"caseSensitive\":");
        assert(",\"caseSensitive\":"@.skip(",\"caseSensitive\":"@.len() - "\"caseSensitive\":"@.len()) =~= "\"caseSensitive\":"@);
    }
    assert(ends(",\"limit\":"@, "\"limit\":"@)) by {
        reveal_strlit(",\"limit\":");
        reveal_strlit("\"limit\":");
        assert(",\"limit\":"@.skip(",\"limit\":"@.len() - "\"limit\":"@.len()) =~= "\"limit\":"@);
    }
    assert(ends(",\"truncated\":"@, "\"truncated\":"@)) by {
        reveal_strlit(",\"truncated\":");
        reveal_strlit("\"truncated\":");
        assert(",\"truncated\":"@.skip(",\"truncated\":"@.len() - "\"truncated\":"@.len()) =~= "\"truncated\":"@);
    }
    assert(ends(",\"incomplete\":"@, "\"incomplete\":"@)) by {
        reveal_strlit(",\"incomplete\":");
        reveal_strlit("\"incomplete\":");
        assert(",\"incomplete\":"@.skip(",\"incomplete\":"@.len() - "\"incomplete\":"@.len()) =~= "\"incomplete\":"@);
    }
    assert(ends(",\"matches\":["@, "\"matches\":["@)) by {
        reveal_strlit(",\"matches\":[");
        reveal_strlit("\"matches\":[");
        assert(",\"matches\":["@.skip(",\"matches\":["@.len() - "\"matches\":["@.len()) =~= "\"matches\":["@);
    }
}

/// In the document of a hive change each field holds what it is named after.
pub proof fn hive_change_tells_its_fields(d: HiveChange)
    ensures
        tells(hive_change_json(d), "\"undo\":"@, json_opt(opt_text(d.undo))),
        tells(hive_change_json(d), "\"apply\":"@, report_json(d.applied)),
        tells(hive_change_json(d), "\"rolledBack\":"@, json_bool(d.rollback is Some)),
        tells(hive_change_json(d), "\"rollback\":"@, opt_report_json(d.rollback)),
{
    broadcast use {told_on, told_here, told_first};

    assert(ends("{\"undo\":"@, "\"undo\":"@)) by {
        reveal_strlit("{\"undo\":");
        reveal_strlit("\"undo\":");
        assert("{\"undo\":"@.skip("{\"undo\":"@.len() - "\"undo\":"@.len()) =~= "\"undo\":"@);
    }
    assert(ends(",\"apply\":"@, "\"apply\":"@)) by {
        reveal_strlit(",\"apply\":");
        reveal_strlit("\"apply\":");
        assert(",\"apply\":"@.skip(",\"apply\":"@.len() - "\"apply\":"@.len()) =~= "\"apply\":"@);
    }
    assert(ends(",\"rolledBack\":"@, "\"rolledBack\":"@)) by {
        reveal_strlit(",\"rolledBack\":");
        reveal_strlit("\"rolledBack\":");
        assert(",\"rolledBack\":"@.skip(",\"rolledBack\":"@.len() - "\"rolledBack\":"@.len()) =~= "\"rolledBack\":"@);
    }
    assert(ends(",\"rollback\":"@, "\"rollback\":"@)) by {
        reveal_strlit(",\"rollback\":");
        reveal_strlit("\"rollback\":");
        assert(",\"rollback\":"@.skip(",\"rollback\":"@.len() - "\"rollback\":"@.len()) =~= "\"rollback\":"@);
    }
}

/// In the document of a hive redo each field holds what it is named after.
pub proof fn hive_redo_tells_its_fields(d: HiveRedo)
    ensures
        tells(hive_redo_json(d), "\"redo\":"@, json_opt(opt_text(d.redo))),
        tells(hive_redo_json(d), "\"apply\":"@, report_json(d.applied)),
        tells(hive_redo_json(d), "\"rolledBack\":"@, json_bool(d.rollback is Some)),
        tells(hive_redo_json(d), "\"rollback\":"@, opt_report_json(d.rollback)),
{
    broadcast use {told_on, told_here, told_first};

    assert(ends("{\"redo\":"@, "\"redo\":"@)) by {
        reveal_strlit("{\"redo\":");
        reveal_strlit("\"redo\":");
        assert("{\"redo\":"@.skip("{\"redo\":"@.len() - "\"redo\":"@.len()) =~= "\"redo\":"@);
    }
    assert(ends(",\"apply\":"@, "\"apply\":"@)) by {
        reveal_strlit(",\"apply\":");
        reveal_strlit("\"apply\":");
        assert(",\"apply\":"@.skip(",\"apply\":"@.len() - "\"apply\":"@.len()) =~= "\"apply\":"@);
    }
    assert(ends(",\"rolledBack\":"@, "\"rolledBack\":"@)) by {
        reveal_strlit(",\"rolledBack\":");
        reveal_strlit("\"rolledBack\":");
        assert(",\"rolledBack\":"@.skip(",\"rolledBack\":"@.len() - "\"rolledBack\":"@.len()) =~= "\"rolledBack\":"@);
    }
    assert(ends(",\"rollback\":"@, "\"rollback\":"@)) by {
        reveal_strlit(",\"rollback\":");
        reveal_strlit("\"rollback\":");
        assert(",\"rollback\":"@.skip(",\"rollback\":"@.len() - "\"rollback\":"@.len()) =~= "\"rollback\":"@);
    }
}

/// In the document of a hive sync each field holds what it is named after.
pub proof fn hive_sync_tells_its_fields(d: HiveSync)
    ensures
        tells(hive_sync_json(d), "\"prune\":"@, json_bool(d.prune)),
        tells(hive_sync_json(d), "\"pruneKeys\":"@, json_bool(d.prune_keys)),
        tells(hive_sync_json(d), "\"dryRun\":"@, json_bool(d.dry_run)),
        tells(hive_sync_json(d), "\"apply\":"@, report_json(d.applied)),
        tells(hive_sync_json(d), "\"undo\":"@, json_opt(opt_text(d.undo))),
        tells(hive_sync_json(d), "\"rolledBack\":"@, json_bool(d.rollback is Some)),
        tells(hive_sync_json(d), "\"rollback\":"@, opt_report_json(d.rollback)),
{
    broadcast use {told_on, told_here, told_first};

    assert(ends("{\"prune\":"@, "\"prune\":"@)) by {
        reveal_strlit("{\"prune\":");
        reveal_strlit("\"prune\":");
        assert("{\"prune\":"@.skip("{\"prune\":"@.len() - "\"prune\":"@.len()) =~= "\"prune\":"@);
    }
    assert(ends(",\"pruneKeys\":"@, "\"pruneKeys\":"@)) by {
        reveal_strlit(",\"pruneKeys\":");
        reveal_strlit("\"pruneKeys\":");
        assert(",\"pruneKeys\":"@.skip(",\"pruneKeys\":"@.len() - "\"pruneKeys\":"@.len()) =~= "\"pruneKeys\":"@);
    }
    assert(ends(",\"dryRun\":"@, "\"dryRun\":"@)) by {
        reveal_strlit(",\"dryRun\":");
        reveal_strlit("\"dryRun\":");
        assert(",\"dryRun\":"@.skip(",\"dryRun\":"@.len() - "\"dryRun\":"@.len()) =~= "\"dryRun\":"@);
    }
    assert(ends(",\"apply\":"@, "\"apply\":"@)) by {
        reveal_strlit(",\"apply\":");
        reveal_strlit("\"apply\":");
        assert(",\"apply\":"@.skip(",\"apply\":"@.len() - "\"apply\":"@.len()) =~= "\"apply\":"@);
    }
    assert(ends(",\"undo\":"@, "\"undo\":"@)) by {
        reveal_strlit(",\"undo\":");
        reveal_strlit("\"undo\":");
        assert(",\"undo\":"@.skip(",\"undo\":"@.len() - "\"undo\":"@.len()) =~= "\"undo\":"@);
    }
    assert(ends(",\"rolledBack\":"@, "\"rolledBack\":"@)) by {
        reveal_strlit(",\"rolledBack\":");
        reveal_strlit("\"rolledBack\":");
        assert(",\"rolledBack\":"@.skip(",\"rolledBack\":"@.len() - "\"rolledBack\":"@.len()) =~= "\"rolledBack\":"@);
    }
    assert(ends(",\"rollback\":"@, "\"rollback\":"@)) by {
        reveal_strlit(",\"rollback\":");
        reveal_strlit("\"rollback\":");
        assert(",\"rollback\":"@.skip(",\"rollback\":"@.len() - "\"rollback\":"@.len()) =~= "\"rollback\":"@);
    }
}

/// In the document of a hive copy each field holds what it is named after.
pub proof fn hive_copy_tells_its_fields(d: HiveCopy)
    ensures
        tells(hive_copy_json(d), "\"operation\":"@, json_string(d.operation@)),
        tells(hive_copy_json(d), "\"source\":"@, json_string(d.source@)),
        tells(hive_copy_json(d), "\"destination\":"@, json_string(d.destination@)),
        tells(hive_copy_json(d), "\"overwrite\":"@, json_bool(d.overwrite)),
        tells(hive_copy_json(d), "\"dryRun\":"@, json_bool(d.dry_run)),
        tells(hive_copy_json(d), "\"undo\":"@, json_opt(opt_text(d.undo))),
        tells(hive_copy_json(d), "\"copy\":"@, report_json(d.copied)),
        tells(hive_copy_json(d), "\"removeSource\":"@, opt_report_json(d.removed)),
        tells(hive_copy_json(d), "\"rolledBack\":"@, json_bool(d.rollback is Some)),
        tells(hive_copy_json(d), "\"rollback\":"@, opt_report_json(d.rollback)),
{
    broadcast use {told_on, told_here, told_first};

    assert(ends("{\"operation\":"@, "\"operation\":"@)) by {
        reveal_strlit("{\"operation\":");
        reveal_strlit("\"operation\":");
        assert("{\"operation\":"@.skip("{\"operation\":"@.len() - "\"operation\":"@.len()) =~= "\"operation\":"@);
    }
    assert(ends(",\"source\":"@, "\"source\":"@)) by {
        reveal_strlit(",\"source\":");
        reveal_strlit("\"source\":");
        assert(",\"source\":"@.skip(",\"source\":"@.len() - "\"source\":"@.len()) =~= "\"source\":"@);
    }
    assert(ends(",\"destination\":"@, "\"destination\":"@)) by {
        reveal_strlit(",\"destination\":");
        reveal_strlit("\"destination\":");
        assert(",\"destination\":"@.skip(",\"destination\":"@.len() - "\"destination\":"@.len()) =~= "\"destination\":"@);
    }
    assert(ends(",\"overwrite\":"@, "\"overwrite\":"@)) by {
        reveal_strlit(",\"overwrite\":");
        reveal_strlit("\"overwrite\":");
        assert(",\"overwrite\":"@.skip(",\"overwrite\":"@.len() - "\"overwrite\":"@.len()) =~= "\"overwrite\":"@);
    }
    assert(ends(",\"dryRun\":"@, "\"dryRun\":"@)) by {
        reveal_strlit(",\"dryRun\":");
        reveal_strlit("\"dryRun\":");
        assert(",\"dryRun\":"@.skip(",\"dryRun\":"@.len() - "\"dryRun\":"@.len()) =~= "\"dryRun\":"@);
    }
    assert(ends(",\"undo\":"@, "\"undo\":"@)) by {
        reveal_strlit(",\"undo\":");
        reveal_strlit("\"undo\":");
        assert(",\"undo\":"@.skip(",\"undo\":"@.len() - "\"undo\":"@.len()) =~= "\"undo\":"@);
    }
    assert(ends(",\"copy\":"@, "\"copy\":"@)) by {
        reveal_strlit(",\"copy\":");
        reveal_strlit("\"copy\":");
        assert(",\"copy\":"@.skip(",\"copy\":"@.len() - "\"copy\":"@.len()) =~= "\"copy\":"@);
    }
    assert(ends(",\"removeSource\":"@, "\"removeSource\":"@)) by {
        reveal_strlit(",\"removeSource\":");
        reveal_strlit("\"removeSource\":");
        assert(",\"removeSource\":"@.skip(",\"removeSource\":"@.len() - "\"removeSource\":"@.len()) =~= "\"removeSource\":"@);
    }
    assert(ends(",\"rolledBack\":"@, "\"rolledBack\":"@)) by {
        reveal_strlit(",\"rolledBack\":");
        reveal_strlit("\"rolledBack\":");
        assert(",\"rolledBack\":"@.skip(",\"rolledBack\":"@.len() - "\"rolledBack\":"@.len()) =~= "\"rolledBack\":"@);
    }
    assert(ends(",\"rollback\":"@, "\"rollback\":"@)) by {
        reveal_strlit(",\"rollback\":");
        reveal_strlit("\"rollback\":");
        assert(",\"rollback\":"@.skip(",\"rollback\":"@.len() - "\"rollback\":"@.len()) =~= "\"rollback\":"@);
    }
}

/// In the document of a hive copy value each field holds what it is named after.
pub proof fn hive_copy_value_tells_its_fields(d: HiveCopyValue)
    ensures
        tells(hive_copy_value_json(d), "\"undo\":"@, json_opt(opt_text(d.undo))),
        tells(hive_copy_value_json(d), "\"copy\":"@, report_json(d.copied)),
        tells(hive_copy_value_json(d), "\"removeSource\":"@, opt_report_json(d.removed)),
        tells(hive_copy_value_json(d), "\"rolledBack\":"@, json_bool(d.rollback is Some)),
        tells(hive_copy_value_json(d), "\"rollback\":"@, opt_report_json(d.rollback)),
{
    broadcast use {told_on, told_here, told_first};

    assert(ends("{\"undo\":"@, "\"undo\":"@)) by {
        reveal_strlit("{\"undo\":");
        reveal_strlit("\"undo\":");
        assert("{\"undo\":"@.skip("{\"undo\":"@.len() - "\"undo\":"@.len()) =~= "\"undo\":"@);
    }
    assert(ends(",\"copy\":"@, "\"copy\":"@)) by {
        reveal_strlit(",\"copy\":");
        reveal_strlit("\"copy\":");
        assert(",\"copy\":"@.skip(",\"copy\":"@.len() - "\"copy\":"@.len()) =~= "\"copy\":"@);
    }
    assert(ends(",\"removeSource\":"@, "\"removeSource\":"@)) by {
        reveal_strlit(",\"removeSource\":");
        reveal_strlit("\"removeSource\":");
        assert(",\"removeSource\":"@.skip(",\"removeSource\":"@.len() - "\"removeSource\":"@.len()) =~= "\"removeSource\":"@);
    }
    assert(ends(",\"rolledBack\":"@, "\"rolledBack\":"@)) by {
        reveal_strlit(",\"rolledBack\":");
        reveal_strlit("\"rolledBack\":");
        assert(",\"rolledBack\":"@.skip(",\"rolledBack\":"@.len() - "\"rolledBack\":"@.len()) =~= "\"rolledBack\":"@);
    }
    assert(ends(",\"rollback\":"@, "\"rollback\":"@)) by {
        reveal_strlit(",\"rollback\":");
        reveal_strlit("\"rollback\":");
        assert(",\"rollback\":"@.skip(",\"rollback\":"@.len() - "\"rollback\":"@.len()) =~= "\"rollback\":"@);
    }
}

/// In the document of a hive export file each field holds what it is named after.
pub proof fn hive_export_file_tells_its_fields(d: HiveExportFile)
    ensures
        tells(hive_export_file_json(d), "\"hive\":"@, json_string(d.hive@)),
        tells(hive_export_file_json(d), "\"subkey\":"@, json_string(d.subkey@)),
        tells(hive_export_file_json(d), "\"rootAs\":"@, json_string(d.root_as@)),
        tells(hive_export_file_json(d), "\"format\":"@, json_string(format_name(d.format))),
        tells(hive_export_file_json(d), "\"file\":"@, json_string(d.file@)),
        tells(hive_export_file_json(d), "\"dryRun\":"@, json_bool(d.dry_run)),
        tells(hive_export_file_json(d), "\"keys\":"@, dec_of(d.keys as nat)),
        tells(hive_export_file_json(d), "\"values\":"@, dec_of(d.values as nat)),
        tells(hive_export_file_json(d), "\"skipped\":"@, dec_of(d.skipped as nat)),
{
    broadcast use {told_on, told_here, told_first};

    assert(ends("{\"hive\":"@, "\"hive\":"@)) by {
        reveal_strlit("{\"hive\":");
        reveal_strlit("\"hive\":");
        assert("{\"hive\":"@.skip("{\"hive\":"@.len() - "\"hive\":"@.len()) =~= "\"hive\":"@);
    }
    assert(ends(",\"subkey\":"@, "\"subkey\":"@)) by {
        reveal_strlit(",\"subkey\":");
        reveal_strlit("\"subkey\":");
        assert(",\"subkey\":"@.skip(",\"subkey\":"@.len() - "\"subkey\":"@.len()) =~= "\"subkey\":"@);
    }
    assert(ends(",\"rootAs\":"@, "\"rootAs\":"@)) by {
        reveal_strlit(",\"rootAs\":");
        reveal_strlit("\"rootAs\":");
        assert(",\"rootAs\":"@.skip(",\"rootAs\":"@.len() - "\"rootAs\":"@.len()) =~= "\"rootAs\":"@);
    }
    assert(ends(",\"format\":"@, "\"format\":"@)) by {
        reveal_strlit(",\"format\":");
        reveal_strlit("\"format\":");
        assert(",\"format\":"@.skip(",\"format\":"@.len() - "\"format\":"@.len()) =~= "\"format\":"@);
    }
    assert(ends(",\"file\":"@, "\"file\":"@)) by {
        reveal_strlit(",\"file\":");
        reveal_strlit("\"file\":");
        assert(",\"file\":"@.skip(",\"file\":"@.len() - "\"file\":"@.len()) =~= "\"file\":"@);
    }
    assert(ends(",\"dryRun\":"@, "\"dryRun\":"@)) by {
        reveal_strlit(",\"dryRun\":");
        reveal_strlit("\"dryRun\":");
        assert(",\"dryRun\":"@.skip(",\"dryRun\":"@.len() - "\"dryRun\":"@.len()) =~= "\"dryRun\":"@);
    }
    assert(ends(",\"keys\":"@, "\"keys\":"@)) by {
        reveal_strlit(",\"keys\":");
        reveal_strlit("\"keys\":");
        assert(",\"keys\":"@.skip(",\"keys\":"@.len() - "\"keys\":"@.len()) =~= "\"keys\":"@);
    }
    assert(ends(",\"values\":"@, "\"values\":"@)) by {
        reveal_strlit(",\"values\":");
        reveal_strlit("\"values\":");
        assert(",\"values\":"@.skip(",\"values\":"@.len() - "\"values\":"@.len()) =~= "\"values\":"@);
    }
    assert(ends(",\"skipped\":"@, "\"skipped\":"@)) by {
        reveal_strlit(",\"skipped\":");
        reveal_strlit("\"skipped\":");
        assert(",\"skipped\":"@.skip(",\"skipped\":"@.len() - "\"skipped\":"@.len()) =~= "\"skipped\":"@);
    }
}

/// In the document of a hive export data each field holds what it is named after.
pub proof fn hive_export_data_tells_its_fields(d: HiveExportData)
    ensures
        tells(hive_export_data_json(d), "\"hive\":"@, json_string(d.hive@)),
        tells(hive_export_data_json(d), "\"subkey\":"@, json_string(d.subkey@)),
        tells(hive_export_data_json(d), "\"rootAs\":"@, json_string(d.root_as@)),
        tells(hive_export_data_json(d), "\"format\":"@, json_string(format_name(d.format))),
        tells(hive_export_data_json(d), "\"data\":"@, file_json(d.data@)),
{
    broadcast use {told_on, told_here, told_first};

    assert(ends("{\"hive\":"@, "\"hive\":"@)) by {
        reveal_strlit("{\"hive\":");
        reveal_strlit("\"hive\":");
        assert("{\"hive\":"@.skip("{\"hive\":"@.len() - "\"hive\":"@.len()) =~= "\"hive\":"@);
    }
    assert(ends(",\"subkey\":"@, "\"subkey\":"@)) by {
        reveal_strlit(",\"subkey\":");
        reveal_strlit("\"subkey\":");
        assert(",\"subkey\":"@.skip(",\"subkey\":"@.len() - "\"subkey\":"@.len()) =~= "\"subkey\":"@);
    }
    assert(ends(",\"rootAs\":"@, "\"rootAs\":"@)) by {
        reveal_strlit(",\"rootAs\":");
        reveal_strlit("\"rootAs\":");
        assert(",\"rootAs\":"@.skip(",\"rootAs\":"@.len() - "\"rootAs\":"@.len()) =~= "\"rootAs\":"@);
    }
    assert(ends(",\"format\":"@, "\"format\":"@)) by {
        reveal_strlit(",\"format\":");
        reveal_strlit("\"format\":");
        assert(",\"format\":"@.skip(",\"format\":"@.len() - "\"format\":"@.len()) =~= "\"format\":"@);
    }
    assert(ends(",\"data\":"@, "\"data\":"@)) by {
        reveal_strlit(",\"data\":");
        reveal_strlit("\"data\":");
        assert(",\"data\":"@.skip(",\"data\":"@.len() - "\"data\":"@.len()) =~= "\"data\":"@);
    }
}

/// In the document of a found conflict each field holds what it is named after.
pub proof fn found_conflict_tells_its_fields(d: FoundConflict)
    ensures
        tells(found_conflict_json(d), "\"path\":"@, json_string(d.path@)),
        tells(found_conflict_json(d), "\"value\":"@, json_string(d.value@)),
        tells(found_conflict_json(d), "\"firstLine\":"@, dec_of(d.first_line as nat)),
        tells(found_conflict_json(d), "\"lastLine\":"@, dec_of(d.last_line as nat)),
        tells(found_conflict_json(d), "\"old\":"@, json_string(d.old@)),
        tells(found_conflict_json(d), "\"new\":"@, json_string(d.new@)),
        tells(found_conflict_json(d), "\"oldExact\":"@, opt_value_json(d.old_exact)),
        tells(found_conflict_json(d), "\"newExact\":"@, opt_value_json(d.new_exact)),
{
    broadcast use {told_on, told_here, told_first};

    assert(ends("{\"path\":"@, "\"path\":"@)) by {
        reveal_strlit("{\"path\":");
        reveal_strlit("\"path\":");
        assert("{\"path\":"@.skip("{\"path\":"@.len() - "\"path\":"@.len()) =~= "\"path\":"@);
    }
    assert(ends(",\"value\":"@, "\"value\":"@)) by {
        reveal_strlit(",\"value\":");
        reveal_strlit("\"value\":");
        assert(",\"value\":"@.skip(",\"value\":"@.len() - "\"value\":"@.len()) =~= "\"value\":"@);
    }
    assert(ends(",\"firstLine\":"@, "\"firstLine\":"@)) by {
        reveal_strlit(",\"firstLine\":");
        reveal_strlit("\"firstLine\":");
        assert(",\"firstLine\":"@.skip(",\"firstLine\":"@.len() - "\"firstLine\":"@.len()) =~= "\"firstLine\":"@);
    }
    assert(ends(",\"lastLine\":"@, "\"lastLine\":"@)) by {
        reveal_strlit(",\"lastLine\":");
        reveal_strlit("\"lastLine\":");
        assert(",\"lastLine\":"@.skip(",\"lastLine\":"@.len() - "\"lastLine\":"@.len()) =~= "\"lastLine\":"@);
    }
    assert(ends(",\"old\":"@, "\"old\":"@)) by {
        reveal_strlit(",\"old\":");
        reveal_strlit("\"old\":");
        assert(",\"old\":"@.skip(",\"old\":"@.len() - "\"old\":"@.len()) =~= "\"old\":"@);
    }
    assert(ends(",\"new\":"@, "\"new\":"@)) by {
        reveal_strlit(",\"new\":");
        reveal_strlit("\"new\":");
        assert(",\"new\":"@.skip(",\"new\":"@.len() - "\"new\":"@.len()) =~= "\"new\":"@);
    }
    assert(ends(",\"oldExact\":"@, "\"oldExact\":"@)) by {
        reveal_strlit(",\"oldExact\":");
        reveal_strlit("\"oldExact\":");
        assert(",\"oldExact\":"@.skip(",\"oldExact\":"@.len() - "\"oldExact\":"@.len()) =~= "\"oldExact\":"@);
    }
    assert(ends(",\"newExact\":"@, "\"newExact\":"@)) by {
        reveal_strlit(",\"newExact\":");
        reveal_strlit("\"newExact\":");
        assert(",\"newExact\":"@.skip(",\"newExact\":"@.len() - "\"newExact\":"@.len()) =~= "\"newExact\":"@);
    }
}

/// In the document of an inspection each field holds what it is named after.
pub proof fn inspection_tells_its_fields(d: Inspection)
    ensures
        tells(inspection_json(d), "\"file\": "@, json_string(d.label@)),
        tells(inspection_json(d), "\"format\": "@, json_string(d.format@)),
        tells(inspection_json(d), "\"dialect\": "@, json_opt(opt_text(d.dialect))),
        tells(inspection_json(d), "\"encoding\": "@, json_opt(opt_text(d.encoding))),
        tells(inspection_json(d), "\"keys\": "@, dec_of(d.data.keys@.len())),
        tells(inspection_json(d), "\"values\": "@, dec_of(capped(total_values(views(d.data.keys@))) as nat)),
        tells(inspection_json(d), "\"keyDeletes\": "@, dec_of(deletes_in(views(d.data.keys@)))),
        tells(inspection_json(d), "\"hives\": ["@, json_spaced(hive_names(views(d.data.keys@), hive_order()))),
        tells(inspection_json(d), "\"notes\": ["@, json_spaced(views(d.notes@))),
        tells(inspection_json(d), "\"losses\": ["@, json_spaced(views(d.losses@))),
        tells(inspection_json(d), "\"conflicts\": ["@, found_conflict_items(d.conflicts@)),
        tells(inspection_json(d), "\"data\": "@, file_json(d.data@)),
{
    broadcast use {told_on, told_here, told_first};

    assert(ends("{\"file\": "@, "\"file\": "@)) by {
        reveal_strlit("{\"file\": ");
        reveal_strlit("\"file\": ");
        assert("{\"file\": "@.skip("{\"file\": "@.len() - "\"file\": "@.len()) =~= "\"file\": "@);
    }
    assert(ends(", \"format\": "@, "\"format\": "@)) by {
        reveal_strlit(", \"format\": ");
        reveal_strlit("\"format\": ");
        assert(", \"format\": "@.skip(", \"format\": "@.len() - "\"format\": "@.len()) =~= "\"format\": "@);
    }
    assert(ends(", \"dialect\": "@, "\"dialect\": "@)) by {
        reveal_strlit(", \"dialect\": ");
        reveal_strlit("\"dialect\": ");
        assert(", \"dialect\": "@.skip(", \"dialect\": "@.len() - "\"dialect\": "@.len()) =~= "\"dialect\": "@);
    }
    assert(ends(", \"encoding\": "@, "\"encoding\": "@)) by {
        reveal_strlit(", \"encoding\": ");
        reveal_strlit("\"encoding\": ");
        assert(", \"encoding\": "@.skip(", \"encoding\": "@.len() - "\"encoding\": "@.len()) =~= "\"encoding\": "@);
    }
    assert(ends(", \"keys\": "@, "\"keys\": "@)) by {
        reveal_strlit(", \"keys\": ");
        reveal_strlit("\"keys\": ");
        assert(", \"keys\": "@.skip(", \"keys\": "@.len() - "\"keys\": "@.len()) =~= "\"keys\": "@);
    }
    assert(ends(", \"values\": "@, "\"values\": "@)) by {
        reveal_strlit(", \"values\": ");
        reveal_strlit("\"values\": ");
        assert(", \"values\": "@.skip(", \"values\": "@.len() - "\"values\": "@.len()) =~= "\"values\": "@);
    }
    assert(ends(", \"keyDeletes\": "@, "\"keyDeletes\": "@)) by {
        reveal_strlit(", \"keyDeletes\": ");
        reveal_strlit("\"keyDeletes\": ");
        assert(", \"keyDeletes\": "@.skip(", \"keyDeletes\": "@.len() - "\"keyDeletes\": "@.len()) =~= "\"keyDeletes\": "@);
    }
    assert(ends(", \"hives\": ["@, "\"hives\": ["@)) by {
        reveal_strlit(", \"hives\": [");
        reveal_strlit("\"hives\": [");
        assert(", \"hives\": ["@.skip(", \"hives\": ["@.len() - "\"hives\": ["@.len()) =~= "\"hives\": ["@);
    }
    assert(ends("], \"notes\": ["@, "\"notes\": ["@)) by {
        reveal_strlit("], \"notes\": [");
        reveal_strlit("\"notes\": [");
        assert("], \"notes\": ["@.skip("], \"notes\": ["@.len() - "\"notes\": ["@.len()) =~= "\"notes\": ["@);
    }
    assert(ends("], \"losses\": ["@, "\"losses\": ["@)) by {
        reveal_strlit("], \"losses\": [");
        reveal_strlit("\"losses\": [");
        assert("], \"losses\": ["@.skip("], \"losses\": ["@.len() - "\"losses\": ["@.len()) =~= "\"losses\": ["@);
    }
    assert(ends("], \"conflicts\": ["@, "\"conflicts\": ["@)) by {
        reveal_strlit("], \"conflicts\": [");
        reveal_strlit("\"conflicts\": [");
        assert("], \"conflicts\": ["@.skip("], \"conflicts\": ["@.len() - "\"conflicts\": ["@.len()) =~= "\"conflicts\": ["@);
    }
    assert(ends("], \"data\": "@, "\"data\": "@)) by {
        reveal_strlit("], \"data\": ");
        reveal_strlit("\"data\": ");
        assert("], \"data\": "@.skip("], \"data\": "@.len() - "\"data\": "@.len()) =~= "\"data\": "@);
    }
}

/// In the document of a format each field holds what it is named after.
pub proof fn format_tells_its_fields(e: (Seq<char>, Seq<char>, Seq<char>))
    ensures
        tells(format_json(e), "\"format\": "@, json_string(e.0)),
        tells(format_json(e), "\"typical\": "@, json_string(e.1)),
        tells(format_json(e), "\"notes\": "@, json_string(e.2)),
{
    broadcast use {told_on, told_here, told_first};

    assert(ends("  {\"format\": "@, "\"format\": "@)) by {
        reveal_strlit("  {\"format\": ");
        reveal_strlit("\"format\": ");
        assert("  {\"format\": "@.skip("  {\"format\": "@.len() - "\"format\": "@.len()) =~= "\"format\": "@);
    }
    assert(ends(", \"typical\": "@, "\"typical\": "@)) by {
        reveal_strlit(", \"typical\": ");
        reveal_strlit("\"typical\": ");
        assert(", \"typical\": "@.skip(", \"typical\": "@.len() - "\"typical\": "@.len()) =~= "\"typical\": "@);
    }
    assert(ends(", \"notes\": "@, "\"notes\": "@)) by {
        reveal_strlit(", \"notes\": ");
        reveal_strlit("\"notes\": ");
        assert(", \"notes\": "@.skip(", \"notes\": "@.len() - "\"notes\": "@.len()) =~= "\"notes\": "@);
    }
}

/// In the document of a risk each field holds what it is named after.
pub proof fn risk_tells_its_fields(d: Risk)
    ensures
        tells(risk_json(d), "\"kind\":"@, json_string(d.kind@)),
        tells(risk_json(d), "\"explanation\":"@, json_string(d.explanation@)),
{
    broadcast use {told_on, told_here, told_first};

    assert(ends("{\"kind\":"@, "\"kind\":"@)) by {
        reveal_strlit("{\"kind\":");
        reveal_strlit("\"kind\":");
        assert("{\"kind\":"@.skip("{\"kind\":"@.len() - "\"kind\":"@.len()) =~= "\"kind\":"@);
    }
    assert(ends(",\"explanation\":"@, "\"explanation\":"@)) by {
        reveal_strlit(",\"explanation\":");
        reveal_strlit("\"explanation\":");
        assert(",\"explanation\":"@.skip(",\"explanation\":"@.len() - "\"explanation\":"@.len()) =~= "\"explanation\":"@);
    }
}

/// In the document of a companion each field holds what it is named after.
pub proof fn companion_tells_its_fields(d: Companion)
    ensures
        tells(companion_json(d), "\"path\": "@, json_string(d.path@)),
        tells(companion_json(d), "\"resolvedPath\": "@, json_string(d.resolved_path@)),
        tells(companion_json(d), "\"origin\": "@, json_string(d.origin@)),
        tells(companion_json(d), "\"rank\": "@, dec_of(d.rank as nat)),
        tells(companion_json(d), "\"format\": "@, json_opt(opt_text(d.format))),
        tells(companion_json(d), "\"size\": "@, dec_of(d.size as nat)),
        tells(companion_json(d), "\"risks\": ["@, risk_kinds(d.risks@)),
        tells(companion_json(d), "\"riskDetails\": ["@, risk_details(d.risks@)),
{
    broadcast use {told_on, told_here, told_first};

    assert(ends("    {\"path\": "@, "\"path\": "@)) by {
        reveal_strlit("    {\"path\": ");
        reveal_strlit("\"path\": ");
        assert("    {\"path\": "@.skip("    {\"path\": "@.len() - "\"path\": "@.len()) =~= "\"path\": "@);
    }
    assert(ends(", \"resolvedPath\": "@, "\"resolvedPath\": "@)) by {
        reveal_strlit(", \"resolvedPath\": ");
        reveal_strlit("\"resolvedPath\": ");
        assert(", \"resolvedPath\": "@.skip(", \"resolvedPath\": "@.len() - "\"resolvedPath\": "@.len()) =~= "\"resolvedPath\": "@);
    }
    assert(ends(", \"origin\": "@, "\"origin\": "@)) by {
        reveal_strlit(", \"origin\": ");
        reveal_strlit("\"origin\": ");
        assert(", \"origin\": "@.skip(", \"origin\": "@.len() - "\"origin\": "@.len()) =~= "\"origin\": "@);
    }
    assert(ends(", \"rank\": "@, "\"rank\": "@)) by {
        reveal_strlit(", \"rank\": ");
        reveal_strlit("\"rank\": ");
        assert(", \"rank\": "@.skip(", \"rank\": "@.len() - "\"rank\": "@.len()) =~= "\"rank\": "@);
    }
    assert(ends(", \"format\": "@, "\"format\": "@)) by {
        reveal_strlit(", \"format\": ");
        reveal_strlit("\"format\": ");
        assert(", \"format\": "@.skip(", \"format\": "@.len() - "\"format\": "@.len()) =~= "\"format\": "@);
    }
    assert(ends(", \"size\": "@, "\"size\": "@)) by {
        reveal_strlit(", \"size\": ");
        reveal_strlit("\"size\": ");
        assert(", \"size\": "@.skip(", \"size\": "@.len() - "\"size\": "@.len()) =~= "\"size\": "@);
    }
    assert(ends(", \"risks\": ["@, "\"risks\": ["@)) by {
        reveal_strlit(", \"risks\": [");
        reveal_strlit("\"risks\": [");
        assert(", \"risks\": ["@.skip(", \"risks\": ["@.len() - "\"risks\": ["@.len()) =~= "\"risks\": ["@);
    }
    assert(ends("], \"riskDetails\": ["@, "\"riskDetails\": ["@)) by {
        reveal_strlit("], \"riskDetails\": [");
        reveal_strlit("\"riskDetails\": [");
        assert("], \"riskDetails\": ["@.skip("], \"riskDetails\": ["@.len() - "\"riskDetails\": ["@.len()) =~= "\"riskDetails\": ["@);
    }
}

/// In the document of a discovery each field holds what it is named after.
pub proof fn discovery_tells_its_fields(d: Discovery)
    ensures
        tells(discovery_json(d), "\"executable\": "@, json_opt(opt_text(d.executable))),
        tells(discovery_json(d), "\"anchor\": "@, json_string(d.anchor@)),
        tells(discovery_json(d), "\"stem\": "@, json_string(d.stem@)),
        tells(discovery_json(d), "\"policy\": "@, json_bool(d.policy)),
        tells(discovery_json(d), "\"registryPointer\": "@, json_bool(d.registry_pointer)),
        tells(discovery_json(d), "\"strict\": "@, json_bool(d.strict)),
        tells(discovery_json(d), "\"notes\": ["@, json_spaced(views(d.notes@))),
        tells(discovery_json(d), "\"searched\": ["@, json_spaced(views(d.searched@))),
        tells(discovery_json(d), "\"risky\": "@, dec_of(d.risky as nat)),
        tells(discovery_json(d), "\"found\": [\n"@, companion_items(d.found@)),
{
    broadcast use {told_on, told_here, told_first};

    assert(ends("{\n  \"executable\": "@, "\"executable\": "@)) by {
        reveal_strlit("{\n  \"executable\": ");
        reveal_strlit("\"executable\": ");
        assert("{\n  \"executable\": "@.skip("{\n  \"executable\": "@.len() - "\"executable\": "@.len()) =~= "\"executable\": "@);
    }
    assert(ends(",\n  \"anchor\": "@, "\"anchor\": "@)) by {
        reveal_strlit(",\n  \"anchor\": ");
        reveal_strlit("\"anchor\": ");
        assert(",\n  \"anchor\": "@.skip(",\n  \"anchor\": "@.len() - "\"anchor\": "@.len()) =~= "\"anchor\": "@);
    }
    assert(ends(",\n  \"stem\": "@, "\"stem\": "@)) by {
        reveal_strlit(",\n  \"stem\": ");
        reveal_strlit("\"stem\": ");
        assert(",\n  \"stem\": "@.skip(",\n  \"stem\": "@.len() - "\"stem\": "@.len()) =~= "\"stem\": "@);
    }
    assert(ends(",\n  \"policy\": "@, "\"policy\": "@)) by {
        reveal_strlit(",\n  \"policy\": ");
        reveal_strlit("\"policy\": ");
        assert(",\n  \"policy\": "@.skip(",\n  \"policy\": "@.len() - "\"policy\": "@.len()) =~= "\"policy\": "@);
    }
    assert(ends(",\n  \"registryPointer\": "@, "\"registryPointer\": "@)) by {
        reveal_strlit(",\n  \"registryPointer\": ");
        reveal_strlit("\"registryPointer\": ");
        assert(",\n  \"registryPointer\": "@.skip(",\n  \"registryPointer\": "@.len() - "\"registryPointer\": "@.len()) =~= "\"registryPointer\": "@);
    }
    assert(ends(",\n  \"strict\": "@, "\"strict\": "@)) by {
        reveal_strlit(",\n  \"strict\": ");
        reveal_strlit("\"strict\": ");
        assert(",\n  \"strict\": "@.skip(",\n  \"strict\": "@.len() - "\"strict\": "@.len()) =~= "\"strict\": "@);
    }
    assert(ends(",\n  \"notes\": ["@, "\"notes\": ["@)) by {
        reveal_strlit(",\n  \"notes\": [");
        reveal_strlit("\"notes\": [");
        assert(",\n  \"notes\": ["@.skip(",\n  \"notes\": ["@.len() - "\"notes\": ["@.len()) =~= "\"notes\": ["@);
    }
    assert(ends("],\n  \"searched\": ["@, "\"searched\": ["@)) by {
        reveal_strlit("],\n  \"searched\": [");
        reveal_strlit("\"searched\": [");
        assert("],\n  \"searched\": ["@.skip("],\n  \"searched\": ["@.len() - "\"searched\": ["@.len()) =~= "\"searched\": ["@);
    }
    assert(ends("],\n  \"risky\": "@, "\"risky\": "@)) by {
        reveal_strlit("],\n  \"risky\": ");
        reveal_strlit("\"risky\": ");
        assert("],\n  \"risky\": "@.skip("],\n  \"risky\": "@.len() - "\"risky\": "@.len()) =~= "\"risky\": "@);
    }
    assert(ends(",\n  \"found\": [\n"@, "\"found\": [\n"@)) by {
        reveal_strlit(",\n  \"found\": [\n");
        reveal_strlit("\"found\": [\n");
        assert(",\n  \"found\": [\n"@.skip(",\n  \"found\": [\n"@.len() - "\"found\": [\n"@.len()) =~= "\"found\": [\n"@);
    }
}

/// In the document of a finding line each field holds what it is named after.
pub proof fn finding_line_tells_its_fields(f: FindingView, last: bool)
    ensures
        tells(finding_line(f, last), "\"area\": "@, json_string(f.area)),
        tells(finding_line(f, last), "\"verdict\": "@, json_string(verdict_name(f.verdict))),
        tells(finding_line(f, last), "\"detail\": "@, json_string(f.detail)),
{
    broadcast use {told_on, told_here, told_first};

    assert(ends("  {\"area\": "@, "\"area\": "@)) by {
        reveal_strlit("  {\"area\": ");
        reveal_strlit("\"area\": ");
        assert("  {\"area\": "@.skip("  {\"area\": "@.len() - "\"area\": "@.len()) =~= "\"area\": "@);
    }
    assert(ends(", \"verdict\": "@, "\"verdict\": "@)) by {
        reveal_strlit(", \"verdict\": ");
        reveal_strlit("\"verdict\": ");
        assert(", \"verdict\": "@.skip(", \"verdict\": "@.len() - "\"verdict\": "@.len()) =~= "\"verdict\": "@);
    }
    assert(ends(", \"detail\": "@, "\"detail\": "@)) by {
        reveal_strlit(", \"detail\": ");
        reveal_strlit("\"detail\": ");
        assert(", \"detail\": "@.skip(", \"detail\": "@.len() - "\"detail\": "@.len()) =~= "\"detail\": "@);
    }
}

/// In the document of a self check each field holds what it is named after.
pub proof fn self_check_tells_its_fields(findings: Seq<FindingView>, policy: Seq<Seq<char>>)
    ensures
        tells(self_check_json(findings, policy), "\"findings\":[\n"@, finding_lines(findings, findings.len() as int)),
        tells(self_check_json(findings, policy), "\"policy\":["@, crate::json::json_list(policy)),
{
    broadcast use {told_on, told_here, told_first};

    assert(ends("{\"findings\":[\n"@, "\"findings\":[\n"@)) by {
        reveal_strlit("{\"findings\":[\n");
        reveal_strlit("\"findings\":[\n");
        assert("{\"findings\":[\n"@.skip("{\"findings\":[\n"@.len() - "\"findings\":[\n"@.len()) =~= "\"findings\":[\n"@);
    }
    assert(ends("],\"policy\":["@, "\"policy\":["@)) by {
        reveal_strlit("],\"policy\":[");
        reveal_strlit("\"policy\":[");
        assert("],\"policy\":["@.skip("],\"policy\":["@.len() - "\"policy\":["@.len()) =~= "\"policy\":["@);
    }
}

/// In the document of a scope each field holds what it is named after.
pub proof fn scope_tells_its_fields(s: ScopeView)
    ensures
        tells(scope_json(s), "\"include\":["@, json_list(s.include_keys)),
        tells(scope_json(s), "\"exclude\":["@, json_list(s.exclude_keys)),
        tells(scope_json(s), "\"includeValues\":["@, json_list(s.include_values)),
        tells(scope_json(s), "\"excludeValues\":["@, json_list(s.exclude_values)),
{
    broadcast use {told_on, told_here, told_first};

    assert(ends("\"include\":["@, "\"include\":["@)) by {
        assert("\"include\":["@.skip(0) =~= "\"include\":["@);
    }
    assert(ends("],\"exclude\":["@, "\"exclude\":["@)) by {
        reveal_strlit("],\"exclude\":[");
        reveal_strlit("\"exclude\":[");
        assert("],\"exclude\":["@.skip("],\"exclude\":["@.len() - "\"exclude\":["@.len()) =~= "\"exclude\":["@);
    }
    assert(ends("],\"includeValues\":["@, "\"includeValues\":["@)) by {
        reveal_strlit("],\"includeValues\":[");
        reveal_strlit("\"includeValues\":[");
        assert("],\"includeValues\":["@.skip("],\"includeValues\":["@.len() - "\"includeValues\":["@.len()) =~= "\"includeValues\":["@);
    }
    assert(ends("],\"excludeValues\":["@, "\"excludeValues\":["@)) by {
        reveal_strlit("],\"excludeValues\":[");
        reveal_strlit("\"excludeValues\":[");
        assert("],\"excludeValues\":["@.skip("],\"excludeValues\":["@.len() - "\"excludeValues\":["@.len()) =~= "\"excludeValues\":["@);
    }
}

/// In the document of a view plan each field holds what it is named after.
pub proof fn view_plan_tells_its_fields(p: ViewPlan, redact: bool)
    ensures
        tells(view_plan(p, redact), "\"view\": "@, json_string(p.label@)),
        tells(view_plan(p, redact), "\"blocked\": "@, json_bool(p.denied@.len() != 0 || p.failures@.len() != 0)),
        tells(view_plan(p, redact), "\"denied\": [\n"@, joined(pairs_json("      "@, "path"@, "rule"@, p.denied@), ",\n"@)),
        tells(view_plan(p, redact), "\"path\": "@, json_string(p.rollback_path@)),
        tells(view_plan(p, redact), "\"complete\": "@, json_bool(p.rollback.unreadable@.len() == 0)),
        tells(view_plan(p, redact), "\"restoredValues\": "@, dec_of(p.rollback.restored_values as nat)),
        tells(view_plan(p, redact), "\"newKeys\": "@, dec_of(p.rollback.new_keys@.len())),
        tells(view_plan(p, redact), "\"unreadable\": "@, dec_of(p.rollback.unreadable@.len())),
        tells(view_plan(p, redact), "\"changes\": [\n"@, joined(plan_changes_json("      "@, p.changes@, redact), ",\n"@)),
        tells(view_plan(p, redact), "\"failures\": [\n"@, joined(pairs_json("      "@, "target"@, "problem"@, p.failures@), ",\n"@)),
{
    broadcast use {told_on, told_here, told_first};

    reveal(view_plan);
    assert(ends("    {\"view\": "@, "\"view\": "@)) by {
        reveal_strlit("    {\"view\": ");
        reveal_strlit("\"view\": ");
        assert("    {\"view\": "@.skip("    {\"view\": "@.len() - "\"view\": "@.len()) =~= "\"view\": "@);
    }
    assert(ends(", \"blocked\": "@, "\"blocked\": "@)) by {
        reveal_strlit(", \"blocked\": ");
        reveal_strlit("\"blocked\": ");
        assert(", \"blocked\": "@.skip(", \"blocked\": "@.len() - "\"blocked\": "@.len()) =~= "\"blocked\": "@);
    }
    assert(ends(", \"denied\": [\n"@, "\"denied\": [\n"@)) by {
        reveal_strlit(", \"denied\": [\n");
        reveal_strlit("\"denied\": [\n");
        assert(", \"denied\": [\n"@.skip(", \"denied\": [\n"@.len() - "\"denied\": [\n"@.len()) =~= "\"denied\": [\n"@);
    }
    assert(ends("\n    ], \"rollback\": {\"path\": "@, "\"path\": "@)) by {
        reveal_strlit("\n    ], \"rollback\": {\"path\": ");
        reveal_strlit("\"path\": ");
        assert("\n    ], \"rollback\": {\"path\": "@.skip("\n    ], \"rollback\": {\"path\": "@.len() - "\"path\": "@.len()) =~= "\"path\": "@);
    }
    assert(ends(", \"complete\": "@, "\"complete\": "@)) by {
        reveal_strlit(", \"complete\": ");
        reveal_strlit("\"complete\": ");
        assert(", \"complete\": "@.skip(", \"complete\": "@.len() - "\"complete\": "@.len()) =~= "\"complete\": "@);
    }
    assert(ends(", \"restoredValues\": "@, "\"restoredValues\": "@)) by {
        reveal_strlit(", \"restoredValues\": ");
        reveal_strlit("\"restoredValues\": ");
        assert(", \"restoredValues\": "@.skip(", \"restoredValues\": "@.len() - "\"restoredValues\": "@.len()) =~= "\"restoredValues\": "@);
    }
    assert(ends(", \"newKeys\": "@, "\"newKeys\": "@)) by {
        reveal_strlit(", \"newKeys\": ");
        reveal_strlit("\"newKeys\": ");
        assert(", \"newKeys\": "@.skip(", \"newKeys\": "@.len() - "\"newKeys\": "@.len()) =~= "\"newKeys\": "@);
    }
    assert(ends(", \"unreadable\": "@, "\"unreadable\": "@)) by {
        reveal_strlit(", \"unreadable\": ");
        reveal_strlit("\"unreadable\": ");
        assert(", \"unreadable\": "@.skip(", \"unreadable\": "@.len() - "\"unreadable\": "@.len()) =~= "\"unreadable\": "@);
    }
    assert(ends("}, \"changes\": [\n"@, "\"changes\": [\n"@)) by {
        reveal_strlit("}, \"changes\": [\n");
        reveal_strlit("\"changes\": [\n");
        assert("}, \"changes\": [\n"@.skip("}, \"changes\": [\n"@.len() - "\"changes\": [\n"@.len()) =~= "\"changes\": [\n"@);
    }
    assert(ends("\n    ], \"failures\": [\n"@, "\"failures\": [\n"@)) by {
        reveal_strlit("\n    ], \"failures\": [\n");
        reveal_strlit("\"failures\": [\n");
        assert("\n    ], \"failures\": [\n"@.skip("\n    ], \"failures\": [\n"@.len() - "\"failures\": [\n"@.len()) =~= "\"failures\": [\n"@);
    }
}

/// In the document of a query value each field holds what it is named after.
pub proof fn query_value_tells_its_fields(v: EntryView)
    ensures
        tells(query_value(v), "\"name\": "@, json_string(name_text(v.name))),
        tells(query_value(v), "\"type\": "@, json_string(type_name_of(type_id_of(v.data)))),
        tells(query_value(v), "\"data\": "@, json_string(preview_of(v.data))),
        tells(query_value(v), "\"exact\": "@, value_json(v)),
{
    broadcast use {told_on, told_here, told_first};

    assert(ends("{\"name\": "@, "\"name\": "@)) by {
        reveal_strlit("{\"name\": ");
        reveal_strlit("\"name\": ");
        assert("{\"name\": "@.skip("{\"name\": "@.len() - "\"name\": "@.len()) =~= "\"name\": "@);
    }
    assert(ends(", \"type\": "@, "\"type\": "@)) by {
        reveal_strlit(", \"type\": ");
        reveal_strlit("\"type\": ");
        assert(", \"type\": "@.skip(", \"type\": "@.len() - "\"type\": "@.len()) =~= "\"type\": "@);
    }
    assert(ends(", \"data\": "@, "\"data\": "@)) by {
        reveal_strlit(", \"data\": ");
        reveal_strlit("\"data\": ");
        assert(", \"data\": "@.skip(", \"data\": "@.len() - "\"data\": "@.len()) =~= "\"data\": "@);
    }
    assert(ends(", \"exact\": "@, "\"exact\": "@)) by {
        reveal_strlit(", \"exact\": ");
        reveal_strlit("\"exact\": ");
        assert(", \"exact\": "@.skip(", \"exact\": "@.len() - "\"exact\": "@.len()) =~= "\"exact\": "@);
    }
}

/// In the document of a query key each field holds what it is named after.
pub proof fn query_key_tells_its_fields(root: Option<Seq<char>>, b: BlockView)
    ensures
        tells(query_key(root, b), "\"key\": "@, json_string(label_below(root, b.path))),
        tells(query_key(root, b), "\"values\": ["@, joined(b.values.map_values(|v: EntryView| query_value(v)), ", "@)),
{
    broadcast use {told_on, told_here, told_first};

    assert(ends("  {\"key\": "@, "\"key\": "@)) by {
        reveal_strlit("  {\"key\": ");
        reveal_strlit("\"key\": ");
        assert("  {\"key\": "@.skip("  {\"key\": "@.len() - "\"key\": "@.len()) =~= "\"key\": "@);
    }
    assert(ends(", \"values\": ["@, "\"values\": ["@)) by {
        reveal_strlit(", \"values\": [");
        reveal_strlit("\"values\": [");
        assert(", \"values\": ["@.skip(", \"values\": ["@.len() - "\"values\": ["@.len()) =~= "\"values\": ["@);
    }
}

/// In the document of a stats text each field holds what it is named after.
pub proof fn stats_text_tells_its_fields(s: RegistryStats, types: Seq<TypeCount>)
    ensures
        tells(stats_text(s, types), "\"keys\":"@, dec_of(s.keys as nat)),
        tells(stats_text(s, types), "\"values\":"@, dec_of(s.values as nat)),
        tells(stats_text(s, types), "\"keyDeletes\":"@, dec_of(s.key_deletes as nat)),
        tells(stats_text(s, types), "\"valueDeletes\":"@, dec_of(s.value_deletes as nat)),
        tells(stats_text(s, types), "\"maxDepth\":"@, dec_of(s.max_depth as nat)),
        tells(stats_text(s, types), "\"payloadBytes\":"@, dec_of(s.payload_bytes as nat)),
{
    broadcast use {told_on, told_here, told_first};

    assert(ends("\"keys\":"@, "\"keys\":"@)) by {
        assert("\"keys\":"@.skip(0) =~= "\"keys\":"@);
    }
    assert(ends(",\"values\":"@, "\"values\":"@)) by {
        reveal_strlit(",\"values\":");
        reveal_strlit("\"values\":");
        assert(",\"values\":"@.skip(",\"values\":"@.len() - "\"values\":"@.len()) =~= "\"values\":"@);
    }
    assert(ends(",\"keyDeletes\":"@, "\"keyDeletes\":"@)) by {
        reveal_strlit(",\"keyDeletes\":");
        reveal_strlit("\"keyDeletes\":");
        assert(",\"keyDeletes\":"@.skip(",\"keyDeletes\":"@.len() - "\"keyDeletes\":"@.len()) =~= "\"keyDeletes\":"@);
    }
    assert(ends(",\"valueDeletes\":"@, "\"valueDeletes\":"@)) by {
        reveal_strlit(",\"valueDeletes\":");
        reveal_strlit("\"valueDeletes\":");
        assert(",\"valueDeletes\":"@.skip(",\"valueDeletes\":"@.len() - "\"valueDeletes\":"@.len()) =~= "\"valueDeletes\":"@);
    }
    assert(ends(",\"maxDepth\":"@, "\"maxDepth\":"@)) by {
        reveal_strlit(",\"maxDepth\":");
        reveal_strlit("\"maxDepth\":");
        assert(",\"maxDepth\":"@.skip(",\"maxDepth\":"@.len() - "\"maxDepth\":"@.len()) =~= "\"maxDepth\":"@);
    }
    assert(ends(",\"payloadBytes\":"@, "\"payloadBytes\":"@)) by {
        reveal_strlit(",\"payloadBytes\":");
        reveal_strlit("\"payloadBytes\":");
        assert(",\"payloadBytes\":"@.skip(",\"payloadBytes\":"@.len() - "\"payloadBytes\":"@.len()) =~= "\"payloadBytes\":"@);
    }
}

/// In the document of a permission each field holds what it is named after.
pub proof fn permission_tells_its_fields(p: PermissionView)
    ensures
        tells(permission_json(p), "\"view\":"@, json_string(p.label@)),
        tells(permission_json(p), "\"ownerSid\":"@, json_string(p.owner_sid@)),
        tells(permission_json(p), "\"inheritanceEnabled\":"@, json_bool(p.inheritance_enabled)),
        tells(permission_json(p), "\"sddl\":"@, json_string(p.sddl@)),
        tells(permission_json(p), "\"queryValue\":"@, json_bool(p.query)),
        tells(permission_json(p), "\"enumerateSubkeys\":"@, json_bool(p.enumerate)),
        tells(permission_json(p), "\"notify\":"@, json_bool(p.notify)),
        tells(permission_json(p), "\"setValue\":"@, json_bool(p.set_value)),
        tells(permission_json(p), "\"createSubkey\":"@, json_bool(p.create_subkey)),
        tells(permission_json(p), "\"delete\":"@, json_bool(p.delete)),
{
    broadcast use {told_on, told_here, told_first};

    assert(ends("{\"view\":"@, "\"view\":"@)) by {
        reveal_strlit("{\"view\":");
        reveal_strlit("\"view\":");
        assert("{\"view\":"@.skip("{\"view\":"@.len() - "\"view\":"@.len()) =~= "\"view\":"@);
    }
    assert(ends(",\"ownerSid\":"@, "\"ownerSid\":"@)) by {
        reveal_strlit(",\"ownerSid\":");
        reveal_strlit("\"ownerSid\":");
        assert(",\"ownerSid\":"@.skip(",\"ownerSid\":"@.len() - "\"ownerSid\":"@.len()) =~= "\"ownerSid\":"@);
    }
    assert(ends(",\"inheritanceEnabled\":"@, "\"inheritanceEnabled\":"@)) by {
        reveal_strlit(",\"inheritanceEnabled\":");
        reveal_strlit("\"inheritanceEnabled\":");
        assert(",\"inheritanceEnabled\":"@.skip(",\"inheritanceEnabled\":"@.len() - "\"inheritanceEnabled\":"@.len()) =~= "\"inheritanceEnabled\":"@);
    }
    assert(ends(",\"sddl\":"@, "\"sddl\":"@)) by {
        reveal_strlit(",\"sddl\":");
        reveal_strlit("\"sddl\":");
        assert(",\"sddl\":"@.skip(",\"sddl\":"@.len() - "\"sddl\":"@.len()) =~= "\"sddl\":"@);
    }
    assert(ends(",\"effective\":{\"queryValue\":"@, "\"queryValue\":"@)) by {
        reveal_strlit(",\"effective\":{\"queryValue\":");
        reveal_strlit("\"queryValue\":");
        assert(",\"effective\":{\"queryValue\":"@.skip(",\"effective\":{\"queryValue\":"@.len() - "\"queryValue\":"@.len()) =~= "\"queryValue\":"@);
    }
    assert(ends(",\"enumerateSubkeys\":"@, "\"enumerateSubkeys\":"@)) by {
        reveal_strlit(",\"enumerateSubkeys\":");
        reveal_strlit("\"enumerateSubkeys\":");
        assert(",\"enumerateSubkeys\":"@.skip(",\"enumerateSubkeys\":"@.len() - "\"enumerateSubkeys\":"@.len()) =~= "\"enumerateSubkeys\":"@);
    }
    assert(ends(",\"notify\":"@, "\"notify\":"@)) by {
        reveal_strlit(",\"notify\":");
        reveal_strlit("\"notify\":");
        assert(",\"notify\":"@.skip(",\"notify\":"@.len() - "\"notify\":"@.len()) =~= "\"notify\":"@);
    }
    assert(ends(",\"setValue\":"@, "\"setValue\":"@)) by {
        reveal_strlit(",\"setValue\":");
        reveal_strlit("\"setValue\":");
        assert(",\"setValue\":"@.skip(",\"setValue\":"@.len() - "\"setValue\":"@.len()) =~= "\"setValue\":"@);
    }
    assert(ends(",\"createSubkey\":"@, "\"createSubkey\":"@)) by {
        reveal_strlit(",\"createSubkey\":");
        reveal_strlit("\"createSubkey\":");
        assert(",\"createSubkey\":"@.skip(",\"createSubkey\":"@.len() - "\"createSubkey\":"@.len()) =~= "\"createSubkey\":"@);
    }
    assert(ends(",\"delete\":"@, "\"delete\":"@)) by {
        reveal_strlit(",\"delete\":");
        reveal_strlit("\"delete\":");
        assert(",\"delete\":"@.skip(",\"delete\":"@.len() - "\"delete\":"@.len()) =~= "\"delete\":"@);
    }
}

/// In the document of a link each field holds what it is named after.
pub proof fn link_tells_its_fields(action: Seq<char>, l: LinkView, dry_run: bool, replaced: bool, sha256: Option<Seq<char>>)
    ensures
        tells(link_json(action, l, dry_run, replaced, sha256), "\"action\":"@, json_string(action)),
        tells(link_json(action, l, dry_run, replaced, sha256), "\"dryRun\":"@, json_bool(dry_run)),
        tells(link_json(action, l, dry_run, replaced, sha256), "\"replaced\":"@, json_bool(replaced)),
        tells(link_json(action, l, dry_run, replaced, sha256), "\"file\":"@, json_string(l.file)),
        tells(link_json(action, l, dry_run, replaced, sha256), "\"target\":"@, json_string(l.target)),
        tells(link_json(action, l, dry_run, replaced, sha256), "\"arguments\":"@, json_string(l.arguments)),
        tells(link_json(action, l, dry_run, replaced, sha256), "\"workingDirectory\":"@, json_opt(l.working_directory)),
        tells(link_json(action, l, dry_run, replaced, sha256), "\"description\":"@, json_string(l.description)),
        tells(link_json(action, l, dry_run, replaced, sha256), "\"iconPath\":"@, json_opt(l.icon_path)),
        tells(link_json(action, l, dry_run, replaced, sha256), "\"iconIndex\":"@, dec_of_int(l.icon_index as int)),
        tells(link_json(action, l, dry_run, replaced, sha256), "\"style\":"@, json_string(style_name(l.style))),
        tells(link_json(action, l, dry_run, replaced, sha256), "\"sha256\":"@, json_opt(sha256)),
{
    broadcast use {told_on, told_here, told_first};

    assert(ends("{\"schemaVersion\":1,\"command\":\"lnk\",\"action\":"@, "\"action\":"@)) by {
        reveal_strlit("{\"schemaVersion\":1,\"command\":\"lnk\",\"action\":");
        reveal_strlit("\"action\":");
        assert("{\"schemaVersion\":1,\"command\":\"lnk\",\"action\":"@.skip("{\"schemaVersion\":1,\"command\":\"lnk\",\"action\":"@.len() - "\"action\":"@.len()) =~= "\"action\":"@);
    }
    assert(ends(",\"dryRun\":"@, "\"dryRun\":"@)) by {
        reveal_strlit(",\"dryRun\":");
        reveal_strlit("\"dryRun\":");
        assert(",\"dryRun\":"@.skip(",\"dryRun\":"@.len() - "\"dryRun\":"@.len()) =~= "\"dryRun\":"@);
    }
    assert(ends(",\"replaced\":"@, "\"replaced\":"@)) by {
        reveal_strlit(",\"replaced\":");
        reveal_strlit("\"replaced\":");
        assert(",\"replaced\":"@.skip(",\"replaced\":"@.len() - "\"replaced\":"@.len()) =~= "\"replaced\":"@);
    }
    assert(ends(",\"file\":"@, "\"file\":"@)) by {
        reveal_strlit(",\"file\":");
        reveal_strlit("\"file\":");
        assert(",\"file\":"@.skip(",\"file\":"@.len() - "\"file\":"@.len()) =~= "\"file\":"@);
    }
    assert(ends(",\"target\":"@, "\"target\":"@)) by {
        reveal_strlit(",\"target\":");
        reveal_strlit("\"target\":");
        assert(",\"target\":"@.skip(",\"target\":"@.len() - "\"target\":"@.len()) =~= "\"target\":"@);
    }
    assert(ends(",\"arguments\":"@, "\"arguments\":"@)) by {
        reveal_strlit(",\"arguments\":");
        reveal_strlit("\"arguments\":");
        assert(",\"arguments\":"@.skip(",\"arguments\":"@.len() - "\"arguments\":"@.len()) =~= "\"arguments\":"@);
    }
    assert(ends(",\"workingDirectory\":"@, "\"workingDirectory\":"@)) by {
        reveal_strlit(",\"workingDirectory\":");
        reveal_strlit("\"workingDirectory\":");
        assert(",\"workingDirectory\":"@.skip(",\"workingDirectory\":"@.len() - "\"workingDirectory\":"@.len()) =~= "\"workingDirectory\":"@);
    }
    assert(ends(",\"description\":"@, "\"description\":"@)) by {
        reveal_strlit(",\"description\":");
        reveal_strlit("\"description\":");
        assert(",\"description\":"@.skip(",\"description\":"@.len() - "\"description\":"@.len()) =~= "\"description\":"@);
    }
    assert(ends(",\"iconPath\":"@, "\"iconPath\":"@)) by {
        reveal_strlit(",\"iconPath\":");
        reveal_strlit("\"iconPath\":");
        assert(",\"iconPath\":"@.skip(",\"iconPath\":"@.len() - "\"iconPath\":"@.len()) =~= "\"iconPath\":"@);
    }
    assert(ends(",\"iconIndex\":"@, "\"iconIndex\":"@)) by {
        reveal_strlit(",\"iconIndex\":");
        reveal_strlit("\"iconIndex\":");
        assert(",\"iconIndex\":"@.skip(",\"iconIndex\":"@.len() - "\"iconIndex\":"@.len()) =~= "\"iconIndex\":"@);
    }
    assert(ends(",\"style\":"@, "\"style\":"@)) by {
        reveal_strlit(",\"style\":");
        reveal_strlit("\"style\":");
        assert(",\"style\":"@.skip(",\"style\":"@.len() - "\"style\":"@.len()) =~= "\"style\":"@);
    }
    assert(ends(",\"sha256\":"@, "\"sha256\":"@)) by {
        reveal_strlit(",\"sha256\":");
        reveal_strlit("\"sha256\":");
        assert(",\"sha256\":"@.skip(",\"sha256\":"@.len() - "\"sha256\":"@.len()) =~= "\"sha256\":"@);
    }
}

/// In the document of a diagnostic each field holds what it is named after.
pub proof fn diagnostic_tells_its_fields(d: DiagView)
    ensures
        tells(diagnostic_json(d), "\"line\":"@, dec_of(d.line as nat)),
        tells(diagnostic_json(d), "\"severity\":"@, json_string(if d.severity == Severity::Warning { "warning"@ } else { "error"@ })),
        tells(diagnostic_json(d), "\"message\":"@, json_string(d.message)),
{
    broadcast use {told_on, told_here, told_first};

    assert(ends("{\"line\":"@, "\"line\":"@)) by {
        reveal_strlit("{\"line\":");
        reveal_strlit("\"line\":");
        assert("{\"line\":"@.skip("{\"line\":"@.len() - "\"line\":"@.len()) =~= "\"line\":"@);
    }
    assert(ends(",\"severity\":"@, "\"severity\":"@)) by {
        reveal_strlit(",\"severity\":");
        reveal_strlit("\"severity\":");
        assert(",\"severity\":"@.skip(",\"severity\":"@.len() - "\"severity\":"@.len()) =~= "\"severity\":"@);
    }
    assert(ends(",\"message\":"@, "\"message\":"@)) by {
        reveal_strlit(",\"message\":");
        reveal_strlit("\"message\":");
        assert(",\"message\":"@.skip(",\"message\":"@.len() - "\"message\":"@.len()) =~= "\"message\":"@);
    }
}

/// In the document of a repair each field holds what it is named after.
pub proof fn repair_tells_its_fields(r: Repair)
    ensures
        tells(repair_json(r), "\"line\":"@, dec_of(r.line as nat)),
        tells(repair_json(r), "\"class\":"@, json_string(if r.lossy { "lossy"@ } else { "safe"@ })),
        tells(repair_json(r), "\"message\":"@, json_string(r.what@)),
{
    broadcast use {told_on, told_here, told_first};

    assert(ends("{\"line\":"@, "\"line\":"@)) by {
        reveal_strlit("{\"line\":");
        reveal_strlit("\"line\":");
        assert("{\"line\":"@.skip("{\"line\":"@.len() - "\"line\":"@.len()) =~= "\"line\":"@);
    }
    assert(ends(",\"class\":"@, "\"class\":"@)) by {
        reveal_strlit(",\"class\":");
        reveal_strlit("\"class\":");
        assert(",\"class\":"@.skip(",\"class\":"@.len() - "\"class\":"@.len()) =~= "\"class\":"@);
    }
    assert(ends(",\"message\":"@, "\"message\":"@)) by {
        reveal_strlit(",\"message\":");
        reveal_strlit("\"message\":");
        assert(",\"message\":"@.skip(",\"message\":"@.len() - "\"message\":"@.len()) =~= "\"message\":"@);
    }
}

/// In the document of a defect each field holds what it is named after.
pub proof fn defect_tells_its_fields(d: Defect)
    ensures
        tells(defect_json(d), "\"line\":"@, dec_of(d.line as nat)),
        tells(defect_json(d), "\"message\":"@, json_string(d.why@)),
{
    broadcast use {told_on, told_here, told_first};

    assert(ends("{\"line\":"@, "\"line\":"@)) by {
        reveal_strlit("{\"line\":");
        reveal_strlit("\"line\":");
        assert("{\"line\":"@.skip("{\"line\":"@.len() - "\"line\":"@.len()) =~= "\"line\":"@);
    }
    assert(ends(",\"message\":"@, "\"message\":"@)) by {
        reveal_strlit(",\"message\":");
        reveal_strlit("\"message\":");
        assert(",\"message\":"@.skip(",\"message\":"@.len() - "\"message\":"@.len()) =~= "\"message\":"@);
    }
}

/// In the document of a validation each field holds what it is named after.
pub proof fn validation_tells_its_fields(label: Seq<char>, outcome: OutcomeView, written: bool, dry_run: bool, fixes: Seq<Repair>, unfixable: Seq<Defect>, repaired: Seq<char>, artifact: Option<WrittenFile>, backup: Option<WrittenFile>)
    ensures
        tells(validation(label, outcome, written, dry_run, fixes, unfixable, repaired, artifact, backup), "\"file\":"@, json_string(label)),
        tells(validation(label, outcome, written, dry_run, fixes, unfixable, repaired, artifact, backup), "\"valid\":"@, json_bool(!any_error(outcome.diagnostics))),
        tells(validation(label, outcome, written, dry_run, fixes, unfixable, repaired, artifact, backup), "\"written\":"@, json_bool(written)),
        tells(validation(label, outcome, written, dry_run, fixes, unfixable, repaired, artifact, backup), "\"dryRun\":"@, json_bool(dry_run)),
        tells(validation(label, outcome, written, dry_run, fixes, unfixable, repaired, artifact, backup), "\"keys\":"@, dec_of(outcome.file.keys.len())),
        tells(validation(label, outcome, written, dry_run, fixes, unfixable, repaired, artifact, backup), "\"values\":"@, dec_of(capped(total_values(outcome.file.keys)) as nat)),
        tells(validation(label, outcome, written, dry_run, fixes, unfixable, repaired, artifact, backup), "\"diagnostics\":["@, joined(outcome.diagnostics.map_values(|d: DiagView| diagnostic_json(d)), ","@)),
        tells(validation(label, outcome, written, dry_run, fixes, unfixable, repaired, artifact, backup), "\"fixes\":["@, joined(fixes.map_values(|r: Repair| repair_json(r)), ","@)),
        tells(validation(label, outcome, written, dry_run, fixes, unfixable, repaired, artifact, backup), "\"unfixable\":["@, joined(unfixable.map_values(|d: Defect| defect_json(d)), ","@)),
        tells(validation(label, outcome, written, dry_run, fixes, unfixable, repaired, artifact, backup), "\"repairedData\":"@, repaired),
{
    broadcast use {told_on, told_here, told_first};

    assert(ends("{\"file\":"@, "\"file\":"@)) by {
        reveal_strlit("{\"file\":");
        reveal_strlit("\"file\":");
        assert("{\"file\":"@.skip("{\"file\":"@.len() - "\"file\":"@.len()) =~= "\"file\":"@);
    }
    assert(ends(",\"valid\":"@, "\"valid\":"@)) by {
        reveal_strlit(",\"valid\":");
        reveal_strlit("\"valid\":");
        assert(",\"valid\":"@.skip(",\"valid\":"@.len() - "\"valid\":"@.len()) =~= "\"valid\":"@);
    }
    assert(ends(",\"written\":"@, "\"written\":"@)) by {
        reveal_strlit(",\"written\":");
        reveal_strlit("\"written\":");
        assert(",\"written\":"@.skip(",\"written\":"@.len() - "\"written\":"@.len()) =~= "\"written\":"@);
    }
    assert(ends(",\"dryRun\":"@, "\"dryRun\":"@)) by {
        reveal_strlit(",\"dryRun\":");
        reveal_strlit("\"dryRun\":");
        assert(",\"dryRun\":"@.skip(",\"dryRun\":"@.len() - "\"dryRun\":"@.len()) =~= "\"dryRun\":"@);
    }
    assert(ends(",\"keys\":"@, "\"keys\":"@)) by {
        reveal_strlit(",\"keys\":");
        reveal_strlit("\"keys\":");
        assert(",\"keys\":"@.skip(",\"keys\":"@.len() - "\"keys\":"@.len()) =~= "\"keys\":"@);
    }
    assert(ends(",\"values\":"@, "\"values\":"@)) by {
        reveal_strlit(",\"values\":");
        reveal_strlit("\"values\":");
        assert(",\"values\":"@.skip(",\"values\":"@.len() - "\"values\":"@.len()) =~= "\"values\":"@);
    }
    assert(ends(",\"diagnostics\":["@, "\"diagnostics\":["@)) by {
        reveal_strlit(",\"diagnostics\":[");
        reveal_strlit("\"diagnostics\":[");
        assert(",\"diagnostics\":["@.skip(",\"diagnostics\":["@.len() - "\"diagnostics\":["@.len()) =~= "\"diagnostics\":["@);
    }
    assert(ends("],\"fixes\":["@, "\"fixes\":["@)) by {
        reveal_strlit("],\"fixes\":[");
        reveal_strlit("\"fixes\":[");
        assert("],\"fixes\":["@.skip("],\"fixes\":["@.len() - "\"fixes\":["@.len()) =~= "\"fixes\":["@);
    }
    assert(ends("],\"unfixable\":["@, "\"unfixable\":["@)) by {
        reveal_strlit("],\"unfixable\":[");
        reveal_strlit("\"unfixable\":[");
        assert("],\"unfixable\":["@.skip("],\"unfixable\":["@.len() - "\"unfixable\":["@.len()) =~= "\"unfixable\":["@);
    }
    assert(ends("],\"repairedData\":"@, "\"repairedData\":"@)) by {
        reveal_strlit("],\"repairedData\":");
        reveal_strlit("\"repairedData\":");
        assert("],\"repairedData\":"@.skip("],\"repairedData\":"@.len() - "\"repairedData\":"@.len()) =~= "\"repairedData\":"@);
    }
}

} // verus!
