//! What the documents on reading and comparing tell, field by field.
use vstd::prelude::*;

use crate::diff::{KeyDiffView, ValueDiffView, change_name, changes_json, diff_lines, exact_json, key_diff_json, key_diff_line, preview_json, value_diff_json, value_diff_line, value_watch_json, watch_json};
use crate::find_report::{DiffReport, DiffViews, Found, FoundView, FoundViews, SideProblem, ViewDiff, WatchBothEvent, WatchBothTimeout, WatchEvent, WatchTimeout, WatchView, diff_report_json, diff_views_json, found_json, found_view_items, found_view_json, found_views_json, side_problem_items, side_problem_json, view_diff_items, view_diff_json, watch_both_event_json, watch_both_timeout_json, watch_event_json, watch_timeout_json, watch_view_items, watch_view_json};
use crate::hive_report::{met};
use crate::input::{format_name};
use crate::json::{json_bool, json_list, json_opt, json_string};
use crate::model::{name_text, path_text};
use crate::number::{dec_of};
use crate::parts::{json_opt_bool, match_items, opt_path_json, pair_items, permission_items};
use crate::read_report::{ExportFile, ExportView, ExportViews, FingerprintFile, FingerprintView, FingerprintViews, ListView, ListViews, PermissionComparison, PermissionComparisons, PermissionViews, Probe, ProbeView, ProbeViews, QueryView, QueryViews, SideError, StatsFile, StatsView, StatsViews, difference_items, equal_permissions, export_file_json, export_view_items, export_view_json, export_views_json, fingerprint_file_json, fingerprint_view_items, fingerprint_view_json, fingerprint_views_json, list_view_items, list_view_json, list_views_json, opt_data_json, permission_comparison_items, permission_comparison_json, permission_comparisons_json, permission_views_json, probe_json, probe_view_items, probe_view_json, probe_views_json, query_view_items, query_view_json, query_views_json, side_error_items, side_error_json, stats_file_json, stats_view_items, stats_view_json, stats_views_json};
use crate::report::{mode_name, permission_json, query_json};
use crate::telling::{tells, told_first, told_here, told_on};
use crate::text::{ends, joined, opt_text, views};

verus! {

/// In the document of a key diff each field holds what it is named after.
pub proof fn key_diff_tells_its_fields(k: KeyDiffView)
    ensures
        tells(key_diff_json(k), "\"change\":"@, json_string(change_name(k.change))),
        tells(key_diff_json(k), "\"path\":"@, json_string(path_text(k.path))),
{
    broadcast use {told_on, told_here, told_first};

    assert(ends("{\"kind\":\"key\",\"change\":"@, "\"change\":"@)) by {
        reveal_strlit("{\"kind\":\"key\",\"change\":");
        reveal_strlit("\"change\":");
        assert("{\"kind\":\"key\",\"change\":"@.skip("{\"kind\":\"key\",\"change\":"@.len() - "\"change\":"@.len()) =~= "\"change\":"@);
    }
    assert(ends(",\"path\":"@, "\"path\":"@)) by {
        reveal_strlit(",\"path\":");
        reveal_strlit("\"path\":");
        assert(",\"path\":"@.skip(",\"path\":"@.len() - "\"path\":"@.len()) =~= "\"path\":"@);
    }
}

/// In the document of a value diff each field holds what it is named after.
pub proof fn value_diff_tells_its_fields(v: ValueDiffView)
    ensures
        tells(value_diff_json(v), "\"change\":"@, json_string(change_name(v.change))),
        tells(value_diff_json(v), "\"path\":"@, json_string(path_text(v.path))),
        tells(value_diff_json(v), "\"name\":"@, json_string(name_text(v.name))),
        tells(value_diff_json(v), "\"left\":"@, preview_json(v.left)),
        tells(value_diff_json(v), "\"right\":"@, preview_json(v.right)),
        tells(value_diff_json(v), "\"leftExact\":"@, exact_json(v.name, v.left)),
        tells(value_diff_json(v), "\"rightExact\":"@, exact_json(v.name, v.right)),
{
    broadcast use {told_on, told_here, told_first};

    assert(ends("{\"kind\":\"value\",\"change\":"@, "\"change\":"@)) by {
        reveal_strlit("{\"kind\":\"value\",\"change\":");
        reveal_strlit("\"change\":");
        assert("{\"kind\":\"value\",\"change\":"@.skip("{\"kind\":\"value\",\"change\":"@.len() - "\"change\":"@.len()) =~= "\"change\":"@);
    }
    assert(ends(",\"path\":"@, "\"path\":"@)) by {
        reveal_strlit(",\"path\":");
        reveal_strlit("\"path\":");
        assert(",\"path\":"@.skip(",\"path\":"@.len() - "\"path\":"@.len()) =~= "\"path\":"@);
    }
    assert(ends(",\"name\":"@, "\"name\":"@)) by {
        reveal_strlit(",\"name\":");
        reveal_strlit("\"name\":");
        assert(",\"name\":"@.skip(",\"name\":"@.len() - "\"name\":"@.len()) =~= "\"name\":"@);
    }
    assert(ends(",\"left\":"@, "\"left\":"@)) by {
        reveal_strlit(",\"left\":");
        reveal_strlit("\"left\":");
        assert(",\"left\":"@.skip(",\"left\":"@.len() - "\"left\":"@.len()) =~= "\"left\":"@);
    }
    assert(ends(",\"right\":"@, "\"right\":"@)) by {
        reveal_strlit(",\"right\":");
        reveal_strlit("\"right\":");
        assert(",\"right\":"@.skip(",\"right\":"@.len() - "\"right\":"@.len()) =~= "\"right\":"@);
    }
    assert(ends(",\"leftExact\":"@, "\"leftExact\":"@)) by {
        reveal_strlit(",\"leftExact\":");
        reveal_strlit("\"leftExact\":");
        assert(",\"leftExact\":"@.skip(",\"leftExact\":"@.len() - "\"leftExact\":"@.len()) =~= "\"leftExact\":"@);
    }
    assert(ends(",\"rightExact\":"@, "\"rightExact\":"@)) by {
        reveal_strlit(",\"rightExact\":");
        reveal_strlit("\"rightExact\":");
        assert(",\"rightExact\":"@.skip(",\"rightExact\":"@.len() - "\"rightExact\":"@.len()) =~= "\"rightExact\":"@);
    }
}

/// In the document of a value watch each field holds what it is named after.
pub proof fn value_watch_tells_its_fields(v: ValueDiffView)
    ensures
        tells(value_watch_json(v), "\"change\":"@, json_string(change_name(v.change))),
        tells(value_watch_json(v), "\"path\":"@, json_string(path_text(v.path))),
        tells(value_watch_json(v), "\"name\":"@, json_string(name_text(v.name))),
        tells(value_watch_json(v), "\"leftExact\":"@, exact_json(v.name, v.left)),
        tells(value_watch_json(v), "\"rightExact\":"@, exact_json(v.name, v.right)),
{
    broadcast use {told_on, told_here, told_first};

    assert(ends("{\"kind\":\"value\",\"change\":"@, "\"change\":"@)) by {
        reveal_strlit("{\"kind\":\"value\",\"change\":");
        reveal_strlit("\"change\":");
        assert("{\"kind\":\"value\",\"change\":"@.skip("{\"kind\":\"value\",\"change\":"@.len() - "\"change\":"@.len()) =~= "\"change\":"@);
    }
    assert(ends(",\"path\":"@, "\"path\":"@)) by {
        reveal_strlit(",\"path\":");
        reveal_strlit("\"path\":");
        assert(",\"path\":"@.skip(",\"path\":"@.len() - "\"path\":"@.len()) =~= "\"path\":"@);
    }
    assert(ends(",\"name\":"@, "\"name\":"@)) by {
        reveal_strlit(",\"name\":");
        reveal_strlit("\"name\":");
        assert(",\"name\":"@.skip(",\"name\":"@.len() - "\"name\":"@.len()) =~= "\"name\":"@);
    }
    assert(ends(",\"leftExact\":"@, "\"leftExact\":"@)) by {
        reveal_strlit(",\"leftExact\":");
        reveal_strlit("\"leftExact\":");
        assert(",\"leftExact\":"@.skip(",\"leftExact\":"@.len() - "\"leftExact\":"@.len()) =~= "\"leftExact\":"@);
    }
    assert(ends(",\"rightExact\":"@, "\"rightExact\":"@)) by {
        reveal_strlit(",\"rightExact\":");
        reveal_strlit("\"rightExact\":");
        assert(",\"rightExact\":"@.skip(",\"rightExact\":"@.len() - "\"rightExact\":"@.len()) =~= "\"rightExact\":"@);
    }
}

/// In the document of a key diff line each field holds what it is named after.
pub proof fn key_diff_line_tells_its_fields(k: KeyDiffView)
    ensures
        tells(key_diff_line(k), "\"change\": "@, json_string(change_name(k.change))),
        tells(key_diff_line(k), "\"path\": "@, json_string(path_text(k.path))),
{
    broadcast use {told_on, told_here, told_first};

    assert(ends("    {\"kind\": \"key\", \"change\": "@, "\"change\": "@)) by {
        reveal_strlit("    {\"kind\": \"key\", \"change\": ");
        reveal_strlit("\"change\": ");
        assert("    {\"kind\": \"key\", \"change\": "@.skip("    {\"kind\": \"key\", \"change\": "@.len() - "\"change\": "@.len()) =~= "\"change\": "@);
    }
    assert(ends(", \"path\": "@, "\"path\": "@)) by {
        reveal_strlit(", \"path\": ");
        reveal_strlit("\"path\": ");
        assert(", \"path\": "@.skip(", \"path\": "@.len() - "\"path\": "@.len()) =~= "\"path\": "@);
    }
}

/// In the document of a value diff line each field holds what it is named after.
pub proof fn value_diff_line_tells_its_fields(v: ValueDiffView)
    ensures
        tells(value_diff_line(v), "\"change\": "@, json_string(change_name(v.change))),
        tells(value_diff_line(v), "\"path\": "@, json_string(path_text(v.path))),
        tells(value_diff_line(v), "\"name\": "@, json_string(name_text(v.name))),
        tells(value_diff_line(v), "\"left\": "@, preview_json(v.left)),
        tells(value_diff_line(v), "\"right\": "@, preview_json(v.right)),
        tells(value_diff_line(v), "\"leftExact\": "@, exact_json(v.name, v.left)),
        tells(value_diff_line(v), "\"rightExact\": "@, exact_json(v.name, v.right)),
{
    broadcast use {told_on, told_here, told_first};

    assert(ends("    {\"kind\": \"value\", \"change\": "@, "\"change\": "@)) by {
        reveal_strlit("    {\"kind\": \"value\", \"change\": ");
        reveal_strlit("\"change\": ");
        assert("    {\"kind\": \"value\", \"change\": "@.skip("    {\"kind\": \"value\", \"change\": "@.len() - "\"change\": "@.len()) =~= "\"change\": "@);
    }
    assert(ends(", \"path\": "@, "\"path\": "@)) by {
        reveal_strlit(", \"path\": ");
        reveal_strlit("\"path\": ");
        assert(", \"path\": "@.skip(", \"path\": "@.len() - "\"path\": "@.len()) =~= "\"path\": "@);
    }
    assert(ends(", \"name\": "@, "\"name\": "@)) by {
        reveal_strlit(", \"name\": ");
        reveal_strlit("\"name\": ");
        assert(", \"name\": "@.skip(", \"name\": "@.len() - "\"name\": "@.len()) =~= "\"name\": "@);
    }
    assert(ends(", \"left\": "@, "\"left\": "@)) by {
        reveal_strlit(", \"left\": ");
        reveal_strlit("\"left\": ");
        assert(", \"left\": "@.skip(", \"left\": "@.len() - "\"left\": "@.len()) =~= "\"left\": "@);
    }
    assert(ends(", \"right\": "@, "\"right\": "@)) by {
        reveal_strlit(", \"right\": ");
        reveal_strlit("\"right\": ");
        assert(", \"right\": "@.skip(", \"right\": "@.len() - "\"right\": "@.len()) =~= "\"right\": "@);
    }
    assert(ends(", \"leftExact\": "@, "\"leftExact\": "@)) by {
        reveal_strlit(", \"leftExact\": ");
        reveal_strlit("\"leftExact\": ");
        assert(", \"leftExact\": "@.skip(", \"leftExact\": "@.len() - "\"leftExact\": "@.len()) =~= "\"leftExact\": "@);
    }
    assert(ends(", \"rightExact\": "@, "\"rightExact\": "@)) by {
        reveal_strlit(", \"rightExact\": ");
        reveal_strlit("\"rightExact\": ");
        assert(", \"rightExact\": "@.skip(", \"rightExact\": "@.len() - "\"rightExact\": "@.len()) =~= "\"rightExact\": "@);
    }
}

/// In the document of a diff report each field holds what it is named after.
pub proof fn diff_report_tells_its_fields(d: DiffReport)
    ensures
        tells(diff_report_json(d), "\"a\": "@, json_string(d.a@)),
        tells(diff_report_json(d), "\"computerA\": "@, json_opt(opt_text(d.computer_a))),
        tells(diff_report_json(d), "\"b\": "@, json_string(d.b@)),
        tells(diff_report_json(d), "\"computerB\": "@, json_opt(opt_text(d.computer_b))),
        tells(diff_report_json(d), "\"mapA\": "@, json_opt(opt_text(d.map_a))),
        tells(diff_report_json(d), "\"mapB\": "@, json_opt(opt_text(d.map_b))),
        tells(diff_report_json(d), "\"incomplete\": "@, json_bool(d.incomplete)),
        tells(diff_report_json(d), "\"summaryOnly\": "@, json_bool(d.summary_only)),
        tells(diff_report_json(d), "\"include\": ["@, json_list(d.scope@.include_keys)),
        tells(diff_report_json(d), "\"exclude\": ["@, json_list(d.scope@.exclude_keys)),
        tells(diff_report_json(d), "\"includeValues\": ["@, json_list(d.scope@.include_values)),
        tells(diff_report_json(d), "\"excludeValues\": ["@, json_list(d.scope@.exclude_values)),
        tells(diff_report_json(d), "\"added\": "@, dec_of(d.counts.added as nat)),
        tells(diff_report_json(d), "\"modified\": "@, dec_of(d.counts.modified as nat)),
        tells(diff_report_json(d), "\"removed\": "@, dec_of(d.counts.removed as nat)),
        tells(diff_report_json(d), "\"patch\": "@, json_opt(opt_text(d.patch))),
        tells(diff_report_json(d), "\"patchFormat\": "@, json_string(format_name(d.patch_format))),
        tells(diff_report_json(d), "\"patchWritten\": "@, json_bool(d.patch_written)),
        tells(diff_report_json(d), "\"dryRun\": "@, json_bool(d.dry_run)),
        tells(diff_report_json(d), "\"changes\": [\n"@, joined(diff_lines(d.difference@, d.summary_only), ",\n"@)),
{
    broadcast use {told_on, told_here, told_first};

    assert(ends("{\n  \"a\": "@, "\"a\": "@)) by {
        reveal_strlit("{\n  \"a\": ");
        reveal_strlit("\"a\": ");
        assert("{\n  \"a\": "@.skip("{\n  \"a\": "@.len() - "\"a\": "@.len()) =~= "\"a\": "@);
    }
    assert(ends(",\n  \"computerA\": "@, "\"computerA\": "@)) by {
        reveal_strlit(",\n  \"computerA\": ");
        reveal_strlit("\"computerA\": ");
        assert(",\n  \"computerA\": "@.skip(",\n  \"computerA\": "@.len() - "\"computerA\": "@.len()) =~= "\"computerA\": "@);
    }
    assert(ends(",\n  \"b\": "@, "\"b\": "@)) by {
        reveal_strlit(",\n  \"b\": ");
        reveal_strlit("\"b\": ");
        assert(",\n  \"b\": "@.skip(",\n  \"b\": "@.len() - "\"b\": "@.len()) =~= "\"b\": "@);
    }
    assert(ends(",\n  \"computerB\": "@, "\"computerB\": "@)) by {
        reveal_strlit(",\n  \"computerB\": ");
        reveal_strlit("\"computerB\": ");
        assert(",\n  \"computerB\": "@.skip(",\n  \"computerB\": "@.len() - "\"computerB\": "@.len()) =~= "\"computerB\": "@);
    }
    assert(ends(",\n  \"mapA\": "@, "\"mapA\": "@)) by {
        reveal_strlit(",\n  \"mapA\": ");
        reveal_strlit("\"mapA\": ");
        assert(",\n  \"mapA\": "@.skip(",\n  \"mapA\": "@.len() - "\"mapA\": "@.len()) =~= "\"mapA\": "@);
    }
    assert(ends(",\n  \"mapB\": "@, "\"mapB\": "@)) by {
        reveal_strlit(",\n  \"mapB\": ");
        reveal_strlit("\"mapB\": ");
        assert(",\n  \"mapB\": "@.skip(",\n  \"mapB\": "@.len() - "\"mapB\": "@.len()) =~= "\"mapB\": "@);
    }
    assert(ends(",\n  \"incomplete\": "@, "\"incomplete\": "@)) by {
        reveal_strlit(",\n  \"incomplete\": ");
        reveal_strlit("\"incomplete\": ");
        assert(",\n  \"incomplete\": "@.skip(",\n  \"incomplete\": "@.len() - "\"incomplete\": "@.len()) =~= "\"incomplete\": "@);
    }
    assert(ends(",\n  \"summaryOnly\": "@, "\"summaryOnly\": "@)) by {
        reveal_strlit(",\n  \"summaryOnly\": ");
        reveal_strlit("\"summaryOnly\": ");
        assert(",\n  \"summaryOnly\": "@.skip(",\n  \"summaryOnly\": "@.len() - "\"summaryOnly\": "@.len()) =~= "\"summaryOnly\": "@);
    }
    assert(ends(",\n  \"include\": ["@, "\"include\": ["@)) by {
        reveal_strlit(",\n  \"include\": [");
        reveal_strlit("\"include\": [");
        assert(",\n  \"include\": ["@.skip(",\n  \"include\": ["@.len() - "\"include\": ["@.len()) =~= "\"include\": ["@);
    }
    assert(ends("],\n  \"exclude\": ["@, "\"exclude\": ["@)) by {
        reveal_strlit("],\n  \"exclude\": [");
        reveal_strlit("\"exclude\": [");
        assert("],\n  \"exclude\": ["@.skip("],\n  \"exclude\": ["@.len() - "\"exclude\": ["@.len()) =~= "\"exclude\": ["@);
    }
    assert(ends("],\n  \"includeValues\": ["@, "\"includeValues\": ["@)) by {
        reveal_strlit("],\n  \"includeValues\": [");
        reveal_strlit("\"includeValues\": [");
        assert("],\n  \"includeValues\": ["@.skip("],\n  \"includeValues\": ["@.len() - "\"includeValues\": ["@.len()) =~= "\"includeValues\": ["@);
    }
    assert(ends("],\n  \"excludeValues\": ["@, "\"excludeValues\": ["@)) by {
        reveal_strlit("],\n  \"excludeValues\": [");
        reveal_strlit("\"excludeValues\": [");
        assert("],\n  \"excludeValues\": ["@.skip("],\n  \"excludeValues\": ["@.len() - "\"excludeValues\": ["@.len()) =~= "\"excludeValues\": ["@);
    }
    assert(ends("],\n  \"added\": "@, "\"added\": "@)) by {
        reveal_strlit("],\n  \"added\": ");
        reveal_strlit("\"added\": ");
        assert("],\n  \"added\": "@.skip("],\n  \"added\": "@.len() - "\"added\": "@.len()) =~= "\"added\": "@);
    }
    assert(ends(", \"modified\": "@, "\"modified\": "@)) by {
        reveal_strlit(", \"modified\": ");
        reveal_strlit("\"modified\": ");
        assert(", \"modified\": "@.skip(", \"modified\": "@.len() - "\"modified\": "@.len()) =~= "\"modified\": "@);
    }
    assert(ends(", \"removed\": "@, "\"removed\": "@)) by {
        reveal_strlit(", \"removed\": ");
        reveal_strlit("\"removed\": ");
        assert(", \"removed\": "@.skip(", \"removed\": "@.len() - "\"removed\": "@.len()) =~= "\"removed\": "@);
    }
    assert(ends(",\n  \"patch\": "@, "\"patch\": "@)) by {
        reveal_strlit(",\n  \"patch\": ");
        reveal_strlit("\"patch\": ");
        assert(",\n  \"patch\": "@.skip(",\n  \"patch\": "@.len() - "\"patch\": "@.len()) =~= "\"patch\": "@);
    }
    assert(ends(", \"patchFormat\": "@, "\"patchFormat\": "@)) by {
        reveal_strlit(", \"patchFormat\": ");
        reveal_strlit("\"patchFormat\": ");
        assert(", \"patchFormat\": "@.skip(", \"patchFormat\": "@.len() - "\"patchFormat\": "@.len()) =~= "\"patchFormat\": "@);
    }
    assert(ends(", \"patchWritten\": "@, "\"patchWritten\": "@)) by {
        reveal_strlit(", \"patchWritten\": ");
        reveal_strlit("\"patchWritten\": ");
        assert(", \"patchWritten\": "@.skip(", \"patchWritten\": "@.len() - "\"patchWritten\": "@.len()) =~= "\"patchWritten\": "@);
    }
    assert(ends(", \"dryRun\": "@, "\"dryRun\": "@)) by {
        reveal_strlit(", \"dryRun\": ");
        reveal_strlit("\"dryRun\": ");
        assert(", \"dryRun\": "@.skip(", \"dryRun\": "@.len() - "\"dryRun\": "@.len()) =~= "\"dryRun\": "@);
    }
    assert(ends(",\n  \"changes\": [\n"@, "\"changes\": [\n"@)) by {
        reveal_strlit(",\n  \"changes\": [\n");
        reveal_strlit("\"changes\": [\n");
        assert(",\n  \"changes\": [\n"@.skip(",\n  \"changes\": [\n"@.len() - "\"changes\": [\n"@.len()) =~= "\"changes\": [\n"@);
    }
}

/// In the document of a view diff each field holds what it is named after.
pub proof fn view_diff_tells_its_fields(d: ViewDiff)
    ensures
        tells(view_diff_json(d), "\"view\":"@, json_string(d.view@)),
        tells(view_diff_json(d), "\"incomplete\":"@, json_bool(d.incomplete)),
        tells(view_diff_json(d), "\"added\":"@, dec_of(d.counts.added as nat)),
        tells(view_diff_json(d), "\"modified\":"@, dec_of(d.counts.modified as nat)),
        tells(view_diff_json(d), "\"removed\":"@, dec_of(d.counts.removed as nat)),
        tells(view_diff_json(d), "\"patch\":"@, json_opt(opt_text(d.patch))),
        tells(view_diff_json(d), "\"patchWritten\":"@, json_bool(d.patch_written)),
        tells(view_diff_json(d), "\"dryRun\":"@, json_bool(d.dry_run)),
        tells(view_diff_json(d), "\"changes\":["@, joined(changes_json(d.difference@, d.summary_only), ","@)),
{
    broadcast use {told_on, told_here, told_first};

    assert(ends("{\"view\":"@, "\"view\":"@)) by {
        reveal_strlit("{\"view\":");
        reveal_strlit("\"view\":");
        assert("{\"view\":"@.skip("{\"view\":"@.len() - "\"view\":"@.len()) =~= "\"view\":"@);
    }
    assert(ends(",\"incomplete\":"@, "\"incomplete\":"@)) by {
        reveal_strlit(",\"incomplete\":");
        reveal_strlit("\"incomplete\":");
        assert(",\"incomplete\":"@.skip(",\"incomplete\":"@.len() - "\"incomplete\":"@.len()) =~= "\"incomplete\":"@);
    }
    assert(ends(",\"added\":"@, "\"added\":"@)) by {
        reveal_strlit(",\"added\":");
        reveal_strlit("\"added\":");
        assert(",\"added\":"@.skip(",\"added\":"@.len() - "\"added\":"@.len()) =~= "\"added\":"@);
    }
    assert(ends(",\"modified\":"@, "\"modified\":"@)) by {
        reveal_strlit(",\"modified\":");
        reveal_strlit("\"modified\":");
        assert(",\"modified\":"@.skip(",\"modified\":"@.len() - "\"modified\":"@.len()) =~= "\"modified\":"@);
    }
    assert(ends(",\"removed\":"@, "\"removed\":"@)) by {
        reveal_strlit(",\"removed\":");
        reveal_strlit("\"removed\":");
        assert(",\"removed\":"@.skip(",\"removed\":"@.len() - "\"removed\":"@.len()) =~= "\"removed\":"@);
    }
    assert(ends(",\"patch\":"@, "\"patch\":"@)) by {
        reveal_strlit(",\"patch\":");
        reveal_strlit("\"patch\":");
        assert(",\"patch\":"@.skip(",\"patch\":"@.len() - "\"patch\":"@.len()) =~= "\"patch\":"@);
    }
    assert(ends(",\"patchWritten\":"@, "\"patchWritten\":"@)) by {
        reveal_strlit(",\"patchWritten\":");
        reveal_strlit("\"patchWritten\":");
        assert(",\"patchWritten\":"@.skip(",\"patchWritten\":"@.len() - "\"patchWritten\":"@.len()) =~= "\"patchWritten\":"@);
    }
    assert(ends(",\"dryRun\":"@, "\"dryRun\":"@)) by {
        reveal_strlit(",\"dryRun\":");
        reveal_strlit("\"dryRun\":");
        assert(",\"dryRun\":"@.skip(",\"dryRun\":"@.len() - "\"dryRun\":"@.len()) =~= "\"dryRun\":"@);
    }
    assert(ends(",\"changes\":["@, "\"changes\":["@)) by {
        reveal_strlit(",\"changes\":[");
        reveal_strlit("\"changes\":[");
        assert(",\"changes\":["@.skip(",\"changes\":["@.len() - "\"changes\":["@.len()) =~= "\"changes\":["@);
    }
}

/// In the document of a side problem each field holds what it is named after.
pub proof fn side_problem_tells_its_fields(d: SideProblem)
    ensures
        tells(side_problem_json(d), "\"view\":"@, json_string(d.view@)),
        tells(side_problem_json(d), "\"side\":"@, json_string(d.side@)),
        tells(side_problem_json(d), "\"problem\":"@, json_string(d.problem@)),
{
    broadcast use {told_on, told_here, told_first};

    assert(ends("{\"view\":"@, "\"view\":"@)) by {
        reveal_strlit("{\"view\":");
        reveal_strlit("\"view\":");
        assert("{\"view\":"@.skip("{\"view\":"@.len() - "\"view\":"@.len()) =~= "\"view\":"@);
    }
    assert(ends(",\"side\":"@, "\"side\":"@)) by {
        reveal_strlit(",\"side\":");
        reveal_strlit("\"side\":");
        assert(",\"side\":"@.skip(",\"side\":"@.len() - "\"side\":"@.len()) =~= "\"side\":"@);
    }
    assert(ends(",\"problem\":"@, "\"problem\":"@)) by {
        reveal_strlit(",\"problem\":");
        reveal_strlit("\"problem\":");
        assert(",\"problem\":"@.skip(",\"problem\":"@.len() - "\"problem\":"@.len()) =~= "\"problem\":"@);
    }
}

/// In the document of a diff views each field holds what it is named after.
pub proof fn diff_views_tells_its_fields(d: DiffViews)
    ensures
        tells(diff_views_json(d), "\"a\":"@, json_string(d.a@)),
        tells(diff_views_json(d), "\"computerA\":"@, json_opt(opt_text(d.computer_a))),
        tells(diff_views_json(d), "\"b\":"@, json_string(d.b@)),
        tells(diff_views_json(d), "\"computerB\":"@, json_opt(opt_text(d.computer_b))),
        tells(diff_views_json(d), "\"mapA\":"@, json_opt(opt_text(d.map_a))),
        tells(diff_views_json(d), "\"mapB\":"@, json_opt(opt_text(d.map_b))),
        tells(diff_views_json(d), "\"summaryOnly\":"@, json_bool(d.summary_only)),
        tells(diff_views_json(d), "\"patchFormat\":"@, json_string(format_name(d.patch_format))),
        tells(diff_views_json(d), "\"views\":["@, view_diff_items(d.views@)),
        tells(diff_views_json(d), "\"failures\":["@, side_problem_items(d.failures@)),
{
    broadcast use {told_on, told_here, told_first};

    assert(ends("{\"a\":"@, "\"a\":"@)) by {
        reveal_strlit("{\"a\":");
        reveal_strlit("\"a\":");
        assert("{\"a\":"@.skip("{\"a\":"@.len() - "\"a\":"@.len()) =~= "\"a\":"@);
    }
    assert(ends(",\"computerA\":"@, "\"computerA\":"@)) by {
        reveal_strlit(",\"computerA\":");
        reveal_strlit("\"computerA\":");
        assert(",\"computerA\":"@.skip(",\"computerA\":"@.len() - "\"computerA\":"@.len()) =~= "\"computerA\":"@);
    }
    assert(ends(",\"b\":"@, "\"b\":"@)) by {
        reveal_strlit(",\"b\":");
        reveal_strlit("\"b\":");
        assert(",\"b\":"@.skip(",\"b\":"@.len() - "\"b\":"@.len()) =~= "\"b\":"@);
    }
    assert(ends(",\"computerB\":"@, "\"computerB\":"@)) by {
        reveal_strlit(",\"computerB\":");
        reveal_strlit("\"computerB\":");
        assert(",\"computerB\":"@.skip(",\"computerB\":"@.len() - "\"computerB\":"@.len()) =~= "\"computerB\":"@);
    }
    assert(ends(",\"mapA\":"@, "\"mapA\":"@)) by {
        reveal_strlit(",\"mapA\":");
        reveal_strlit("\"mapA\":");
        assert(",\"mapA\":"@.skip(",\"mapA\":"@.len() - "\"mapA\":"@.len()) =~= "\"mapA\":"@);
    }
    assert(ends(",\"mapB\":"@, "\"mapB\":"@)) by {
        reveal_strlit(",\"mapB\":");
        reveal_strlit("\"mapB\":");
        assert(",\"mapB\":"@.skip(",\"mapB\":"@.len() - "\"mapB\":"@.len()) =~= "\"mapB\":"@);
    }
    assert(ends(",\"summaryOnly\":"@, "\"summaryOnly\":"@)) by {
        reveal_strlit(",\"summaryOnly\":");
        reveal_strlit("\"summaryOnly\":");
        assert(",\"summaryOnly\":"@.skip(",\"summaryOnly\":"@.len() - "\"summaryOnly\":"@.len()) =~= "\"summaryOnly\":"@);
    }
    assert(ends(",\"patchFormat\":"@, "\"patchFormat\":"@)) by {
        reveal_strlit(",\"patchFormat\":");
        reveal_strlit("\"patchFormat\":");
        assert(",\"patchFormat\":"@.skip(",\"patchFormat\":"@.len() - "\"patchFormat\":"@.len()) =~= "\"patchFormat\":"@);
    }
    assert(ends(",\"views\":["@, "\"views\":["@)) by {
        reveal_strlit(",\"views\":[");
        reveal_strlit("\"views\":[");
        assert(",\"views\":["@.skip(",\"views\":["@.len() - "\"views\":["@.len()) =~= "\"views\":["@);
    }
    assert(ends("],\"failures\":["@, "\"failures\":["@)) by {
        reveal_strlit("],\"failures\":[");
        reveal_strlit("\"failures\":[");
        assert("],\"failures\":["@.skip("],\"failures\":["@.len() - "\"failures\":["@.len()) =~= "\"failures\":["@);
    }
}

/// In the document of a found view each field holds what it is named after.
pub proof fn found_view_tells_its_fields(d: FoundView)
    ensures
        tells(found_view_json(d), "\"view\":"@, json_string(d.view@)),
        tells(found_view_json(d), "\"truncated\":"@, json_bool(d.truncated)),
        tells(found_view_json(d), "\"incomplete\":"@, json_bool(d.incomplete)),
        tells(found_view_json(d), "\"matches\":["@, match_items(views(d.matches@), ","@)),
{
    broadcast use {told_on, told_here, told_first};

    assert(ends("{\"view\":"@, "\"view\":"@)) by {
        reveal_strlit("{\"view\":");
        reveal_strlit("\"view\":");
        assert("{\"view\":"@.skip("{\"view\":"@.len() - "\"view\":"@.len()) =~= "\"view\":"@);
    }
    assert(ends(",\"truncated\":"@, "\"truncated\":"@)) by {
        reveal_strlit(",\"truncated\":");
        reveal_strlit("\"truncated\":");
        assert(",\"truncated\":"@.skip(",\"truncated\":"@.len() - "\"truncated\":"@.len()) =~= "\"truncated\":"@);
    }
    assert(ends(",\"incomplete\":"@, "\"incomplete\":"@)) by {
        reveal_strlit(",\"incomplete\":");
        reveal_strlit("\"incomplete\":");
        assert(",\"incomplete\":"@.skip(",\"incomplete\":"@.len() - "\"incomplete\":"@.len()) =~= "\"incomplete\":"@);
    }
    assert(ends(",\"matches\":["@, "\"matches\":["@)) by {
        reveal_strlit(",\"matches\":[");
        reveal_strlit("\"matches\":[");
        assert(",\"matches\":["@.skip(",\"matches\":["@.len() - "\"matches\":["@.len()) =~= "\"matches\":["@);
    }
}

/// In the document of a found views each field holds what it is named after.
pub proof fn found_views_tells_its_fields(d: FoundViews)
    ensures
        tells(found_views_json(d), "\"source\":"@, json_string(d.source@)),
        tells(found_views_json(d), "\"remoteComputer\":"@, json_opt(opt_text(d.remote_computer))),
        tells(found_views_json(d), "\"query\":"@, json_string(d.query@)),
        tells(found_views_json(d), "\"mode\":"@, json_string(mode_name(d.mode))),
        tells(found_views_json(d), "\"caseSensitive\":"@, json_bool(d.case_sensitive)),
        tells(found_views_json(d), "\"limitPerView\":"@, dec_of(d.limit as nat)),
        tells(found_views_json(d), "\"views\":["@, found_view_items(d.views@)),
        tells(found_views_json(d), "\"failures\":["@, pair_items("view"@, "problem"@, d.failures@)),
{
    broadcast use {told_on, told_here, told_first};

    assert(ends("{\"source\":"@, "\"source\":"@)) by {
        reveal_strlit("{\"source\":");
        reveal_strlit("\"source\":");
        assert("{\"source\":"@.skip("{\"source\":"@.len() - "\"source\":"@.len()) =~= "\"source\":"@);
    }
    assert(ends(",\"remoteComputer\":"@, "\"remoteComputer\":"@)) by {
        reveal_strlit(",\"remoteComputer\":");
        reveal_strlit("\"remoteComputer\":");
        assert(",\"remoteComputer\":"@.skip(",\"remoteComputer\":"@.len() - "\"remoteComputer\":"@.len()) =~= "\"remoteComputer\":"@);
    }
    assert(ends(",\"query\":"@, "\"query\":"@)) by {
        reveal_strlit(",\"query\":");
        reveal_strlit("\"query\":");
        assert(",\"query\":"@.skip(",\"query\":"@.len() - "\"query\":"@.len()) =~= "\"query\":"@);
    }
    assert(ends(",\"mode\":"@, "\"mode\":"@)) by {
        reveal_strlit(",\"mode\":");
        reveal_strlit("\"mode\":");
        assert(",\"mode\":"@.skip(",\"mode\":"@.len() - "\"mode\":"@.len()) =~= "\"mode\":"@);
    }
    assert(ends(",\"caseSensitive\":"@, "\"caseSensitive\":"@)) by {
        reveal_strlit(",\"caseSensitive\":");
        reveal_strlit("\"caseSensitive\":");
        assert(",\"caseSensitive\":"@.skip(",\"caseSensitive\":"@.len() - "\"caseSensitive\":"@.len()) =~= "\"caseSensitive\":"@);
    }
    assert(ends(",\"limitPerView\":"@, "\"limitPerView\":"@)) by {
        reveal_strlit(",\"limitPerView\":");
        reveal_strlit("\"limitPerView\":");
        assert(",\"limitPerView\":"@.skip(",\"limitPerView\":"@.len() - "\"limitPerView\":"@.len()) =~= "\"limitPerView\":"@);
    }
    assert(ends(",\"views\":["@, "\"views\":["@)) by {
        reveal_strlit(",\"views\":[");
        reveal_strlit("\"views\":[");
        assert(",\"views\":["@.skip(",\"views\":["@.len() - "\"views\":["@.len()) =~= "\"views\":["@);
    }
    assert(ends("],\"failures\":["@, "\"failures\":["@)) by {
        reveal_strlit("],\"failures\":[");
        reveal_strlit("\"failures\":[");
        assert("],\"failures\":["@.skip("],\"failures\":["@.len() - "\"failures\":["@.len()) =~= "\"failures\":["@);
    }
}

/// In the document of a found each field holds what it is named after.
pub proof fn found_tells_its_fields(d: Found)
    ensures
        tells(found_json(d), "\"source\": "@, json_string(d.source@)),
        tells(found_json(d), "\"remoteComputer\": "@, json_opt(opt_text(d.remote_computer))),
        tells(found_json(d), "\"query\": "@, json_string(d.query@)),
        tells(found_json(d), "\"mode\": "@, json_string(mode_name(d.mode))),
        tells(found_json(d), "\"caseSensitive\": "@, json_bool(d.case_sensitive)),
        tells(found_json(d), "\"include\": ["@, json_list(d.scope@.include_keys)),
        tells(found_json(d), "\"exclude\": ["@, json_list(d.scope@.exclude_keys)),
        tells(found_json(d), "\"includeValues\": ["@, json_list(d.scope@.include_values)),
        tells(found_json(d), "\"excludeValues\": ["@, json_list(d.scope@.exclude_values)),
        tells(found_json(d), "\"limit\": "@, dec_of(d.limit as nat)),
        tells(found_json(d), "\"truncated\": "@, json_bool(d.truncated)),
        tells(found_json(d), "\"incomplete\": "@, json_bool(d.incomplete)),
        tells(found_json(d), "\"matches\": [\n"@, match_items(views(d.matches@), ",\n"@)),
{
    broadcast use {told_on, told_here, told_first};

    assert(ends("{\n  \"source\": "@, "\"source\": "@)) by {
        reveal_strlit("{\n  \"source\": ");
        reveal_strlit("\"source\": ");
        assert("{\n  \"source\": "@.skip("{\n  \"source\": "@.len() - "\"source\": "@.len()) =~= "\"source\": "@);
    }
    assert(ends(",\n  \"remoteComputer\": "@, "\"remoteComputer\": "@)) by {
        reveal_strlit(",\n  \"remoteComputer\": ");
        reveal_strlit("\"remoteComputer\": ");
        assert(",\n  \"remoteComputer\": "@.skip(",\n  \"remoteComputer\": "@.len() - "\"remoteComputer\": "@.len()) =~= "\"remoteComputer\": "@);
    }
    assert(ends(",\n  \"query\": "@, "\"query\": "@)) by {
        reveal_strlit(",\n  \"query\": ");
        reveal_strlit("\"query\": ");
        assert(",\n  \"query\": "@.skip(",\n  \"query\": "@.len() - "\"query\": "@.len()) =~= "\"query\": "@);
    }
    assert(ends(",\n  \"mode\": "@, "\"mode\": "@)) by {
        reveal_strlit(",\n  \"mode\": ");
        reveal_strlit("\"mode\": ");
        assert(",\n  \"mode\": "@.skip(",\n  \"mode\": "@.len() - "\"mode\": "@.len()) =~= "\"mode\": "@);
    }
    assert(ends(",\n  \"caseSensitive\": "@, "\"caseSensitive\": "@)) by {
        reveal_strlit(",\n  \"caseSensitive\": ");
        reveal_strlit("\"caseSensitive\": ");
        assert(",\n  \"caseSensitive\": "@.skip(",\n  \"caseSensitive\": "@.len() - "\"caseSensitive\": "@.len()) =~= "\"caseSensitive\": "@);
    }
    assert(ends(",\n  \"include\": ["@, "\"include\": ["@)) by {
        reveal_strlit(",\n  \"include\": [");
        reveal_strlit("\"include\": [");
        assert(",\n  \"include\": ["@.skip(",\n  \"include\": ["@.len() - "\"include\": ["@.len()) =~= "\"include\": ["@);
    }
    assert(ends("],\n  \"exclude\": ["@, "\"exclude\": ["@)) by {
        reveal_strlit("],\n  \"exclude\": [");
        reveal_strlit("\"exclude\": [");
        assert("],\n  \"exclude\": ["@.skip("],\n  \"exclude\": ["@.len() - "\"exclude\": ["@.len()) =~= "\"exclude\": ["@);
    }
    assert(ends("],\n  \"includeValues\": ["@, "\"includeValues\": ["@)) by {
        reveal_strlit("],\n  \"includeValues\": [");
        reveal_strlit("\"includeValues\": [");
        assert("],\n  \"includeValues\": ["@.skip("],\n  \"includeValues\": ["@.len() - "\"includeValues\": ["@.len()) =~= "\"includeValues\": ["@);
    }
    assert(ends("],\n  \"excludeValues\": ["@, "\"excludeValues\": ["@)) by {
        reveal_strlit("],\n  \"excludeValues\": [");
        reveal_strlit("\"excludeValues\": [");
        assert("],\n  \"excludeValues\": ["@.skip("],\n  \"excludeValues\": ["@.len() - "\"excludeValues\": ["@.len()) =~= "\"excludeValues\": ["@);
    }
    assert(ends("],\n  \"limit\": "@, "\"limit\": "@)) by {
        reveal_strlit("],\n  \"limit\": ");
        reveal_strlit("\"limit\": ");
        assert("],\n  \"limit\": "@.skip("],\n  \"limit\": "@.len() - "\"limit\": "@.len()) =~= "\"limit\": "@);
    }
    assert(ends(",\n  \"truncated\": "@, "\"truncated\": "@)) by {
        reveal_strlit(",\n  \"truncated\": ");
        reveal_strlit("\"truncated\": ");
        assert(",\n  \"truncated\": "@.skip(",\n  \"truncated\": "@.len() - "\"truncated\": "@.len()) =~= "\"truncated\": "@);
    }
    assert(ends(",\n  \"incomplete\": "@, "\"incomplete\": "@)) by {
        reveal_strlit(",\n  \"incomplete\": ");
        reveal_strlit("\"incomplete\": ");
        assert(",\n  \"incomplete\": "@.skip(",\n  \"incomplete\": "@.len() - "\"incomplete\": "@.len()) =~= "\"incomplete\": "@);
    }
    assert(ends(",\n  \"matches\": [\n"@, "\"matches\": [\n"@)) by {
        reveal_strlit(",\n  \"matches\": [\n");
        reveal_strlit("\"matches\": [\n");
        assert(",\n  \"matches\": [\n"@.skip(",\n  \"matches\": [\n"@.len() - "\"matches\": [\n"@.len()) =~= "\"matches\": [\n"@);
    }
}

/// In the document of a watch timeout each field holds what it is named after.
pub proof fn watch_timeout_tells_its_fields(d: WatchTimeout)
    ensures
        tells(watch_timeout_json(d), "\"sequence\": "@, dec_of(d.sequence as nat)),
        tells(watch_timeout_json(d), "\"path\": "@, json_string(path_text(d.path@))),
        tells(watch_timeout_json(d), "\"recursive\": "@, json_bool(d.recursive)),
        tells(watch_timeout_json(d), "\"timeoutSeconds\": "@, dec_of(d.timeout_seconds as nat)),
{
    broadcast use {told_on, told_here, told_first};

    assert(ends("{\"sequence\": "@, "\"sequence\": "@)) by {
        reveal_strlit("{\"sequence\": ");
        reveal_strlit("\"sequence\": ");
        assert("{\"sequence\": "@.skip("{\"sequence\": "@.len() - "\"sequence\": "@.len()) =~= "\"sequence\": "@);
    }
    assert(ends(", \"path\": "@, "\"path\": "@)) by {
        reveal_strlit(", \"path\": ");
        reveal_strlit("\"path\": ");
        assert(", \"path\": "@.skip(", \"path\": "@.len() - "\"path\": "@.len()) =~= "\"path\": "@);
    }
    assert(ends(", \"timedOut\": true, \"recursive\": "@, "\"recursive\": "@)) by {
        reveal_strlit(", \"timedOut\": true, \"recursive\": ");
        reveal_strlit("\"recursive\": ");
        assert(", \"timedOut\": true, \"recursive\": "@.skip(", \"timedOut\": true, \"recursive\": "@.len() - "\"recursive\": "@.len()) =~= "\"recursive\": "@);
    }
    assert(ends(", \"timeoutSeconds\": "@, "\"timeoutSeconds\": "@)) by {
        reveal_strlit(", \"timeoutSeconds\": ");
        reveal_strlit("\"timeoutSeconds\": ");
        assert(", \"timeoutSeconds\": "@.skip(", \"timeoutSeconds\": "@.len() - "\"timeoutSeconds\": "@.len()) =~= "\"timeoutSeconds\": "@);
    }
}

/// In the document of a watch event each field holds what it is named after.
pub proof fn watch_event_tells_its_fields(d: WatchEvent)
    ensures
        tells(watch_event_json(d), "\"sequence\": "@, dec_of(d.sequence as nat)),
        tells(watch_event_json(d), "\"path\": "@, json_string(path_text(d.path@))),
        tells(watch_event_json(d), "\"recursive\": "@, json_bool(d.recursive)),
        tells(watch_event_json(d), "\"keyRemoved\": "@, json_bool(d.key_removed)),
        tells(watch_event_json(d), "\"incomplete\": "@, json_bool(d.incomplete)),
        tells(watch_event_json(d), "\"added\": "@, dec_of(d.counts.added as nat)),
        tells(watch_event_json(d), "\"modified\": "@, dec_of(d.counts.modified as nat)),
        tells(watch_event_json(d), "\"removed\": "@, dec_of(d.counts.removed as nat)),
        tells(watch_event_json(d), "\"changes\": "@, watch_json(d.changes@)),
{
    broadcast use {told_on, told_here, told_first};

    assert(ends("{\"sequence\": "@, "\"sequence\": "@)) by {
        reveal_strlit("{\"sequence\": ");
        reveal_strlit("\"sequence\": ");
        assert("{\"sequence\": "@.skip("{\"sequence\": "@.len() - "\"sequence\": "@.len()) =~= "\"sequence\": "@);
    }
    assert(ends(", \"path\": "@, "\"path\": "@)) by {
        reveal_strlit(", \"path\": ");
        reveal_strlit("\"path\": ");
        assert(", \"path\": "@.skip(", \"path\": "@.len() - "\"path\": "@.len()) =~= "\"path\": "@);
    }
    assert(ends(", \"timedOut\": false, \"recursive\": "@, "\"recursive\": "@)) by {
        reveal_strlit(", \"timedOut\": false, \"recursive\": ");
        reveal_strlit("\"recursive\": ");
        assert(", \"timedOut\": false, \"recursive\": "@.skip(", \"timedOut\": false, \"recursive\": "@.len() - "\"recursive\": "@.len()) =~= "\"recursive\": "@);
    }
    assert(ends(", \"keyRemoved\": "@, "\"keyRemoved\": "@)) by {
        reveal_strlit(", \"keyRemoved\": ");
        reveal_strlit("\"keyRemoved\": ");
        assert(", \"keyRemoved\": "@.skip(", \"keyRemoved\": "@.len() - "\"keyRemoved\": "@.len()) =~= "\"keyRemoved\": "@);
    }
    assert(ends(", \"incomplete\": "@, "\"incomplete\": "@)) by {
        reveal_strlit(", \"incomplete\": ");
        reveal_strlit("\"incomplete\": ");
        assert(", \"incomplete\": "@.skip(", \"incomplete\": "@.len() - "\"incomplete\": "@.len()) =~= "\"incomplete\": "@);
    }
    assert(ends(", \"added\": "@, "\"added\": "@)) by {
        reveal_strlit(", \"added\": ");
        reveal_strlit("\"added\": ");
        assert(", \"added\": "@.skip(", \"added\": "@.len() - "\"added\": "@.len()) =~= "\"added\": "@);
    }
    assert(ends(", \"modified\": "@, "\"modified\": "@)) by {
        reveal_strlit(", \"modified\": ");
        reveal_strlit("\"modified\": ");
        assert(", \"modified\": "@.skip(", \"modified\": "@.len() - "\"modified\": "@.len()) =~= "\"modified\": "@);
    }
    assert(ends(", \"removed\": "@, "\"removed\": "@)) by {
        reveal_strlit(", \"removed\": ");
        reveal_strlit("\"removed\": ");
        assert(", \"removed\": "@.skip(", \"removed\": "@.len() - "\"removed\": "@.len()) =~= "\"removed\": "@);
    }
    assert(ends(", \"changes\": "@, "\"changes\": "@)) by {
        reveal_strlit(", \"changes\": ");
        reveal_strlit("\"changes\": ");
        assert(", \"changes\": "@.skip(", \"changes\": "@.len() - "\"changes\": "@.len()) =~= "\"changes\": "@);
    }
}

/// In the document of a watch both timeout each field holds what it is named after.
pub proof fn watch_both_timeout_tells_its_fields(d: WatchBothTimeout)
    ensures
        tells(watch_both_timeout_json(d), "\"sequence\":"@, dec_of(d.sequence as nat)),
        tells(watch_both_timeout_json(d), "\"path\":"@, json_string(path_text(d.path@))),
        tells(watch_both_timeout_json(d), "\"recursive\":"@, json_bool(d.recursive)),
        tells(watch_both_timeout_json(d), "\"timeoutSeconds\":"@, dec_of(d.timeout_seconds as nat)),
{
    broadcast use {told_on, told_here, told_first};

    assert(ends("{\"sequence\":"@, "\"sequence\":"@)) by {
        reveal_strlit("{\"sequence\":");
        reveal_strlit("\"sequence\":");
        assert("{\"sequence\":"@.skip("{\"sequence\":"@.len() - "\"sequence\":"@.len()) =~= "\"sequence\":"@);
    }
    assert(ends(",\"path\":"@, "\"path\":"@)) by {
        reveal_strlit(",\"path\":");
        reveal_strlit("\"path\":");
        assert(",\"path\":"@.skip(",\"path\":"@.len() - "\"path\":"@.len()) =~= "\"path\":"@);
    }
    assert(ends(",\"timedOut\":true,\"recursive\":"@, "\"recursive\":"@)) by {
        reveal_strlit(",\"timedOut\":true,\"recursive\":");
        reveal_strlit("\"recursive\":");
        assert(",\"timedOut\":true,\"recursive\":"@.skip(",\"timedOut\":true,\"recursive\":"@.len() - "\"recursive\":"@.len()) =~= "\"recursive\":"@);
    }
    assert(ends(",\"timeoutSeconds\":"@, "\"timeoutSeconds\":"@)) by {
        reveal_strlit(",\"timeoutSeconds\":");
        reveal_strlit("\"timeoutSeconds\":");
        assert(",\"timeoutSeconds\":"@.skip(",\"timeoutSeconds\":"@.len() - "\"timeoutSeconds\":"@.len()) =~= "\"timeoutSeconds\":"@);
    }
}

/// In the document of a watch view each field holds what it is named after.
pub proof fn watch_view_tells_its_fields(d: WatchView)
    ensures
        tells(watch_view_json(d), "\"view\":"@, json_string(d.view@)),
        tells(watch_view_json(d), "\"keyRemoved\":"@, json_bool(d.key_removed)),
        tells(watch_view_json(d), "\"incomplete\":"@, json_bool(d.incomplete)),
        tells(watch_view_json(d), "\"added\":"@, dec_of(d.counts.added as nat)),
        tells(watch_view_json(d), "\"modified\":"@, dec_of(d.counts.modified as nat)),
        tells(watch_view_json(d), "\"removed\":"@, dec_of(d.counts.removed as nat)),
        tells(watch_view_json(d), "\"changes\":"@, watch_json(d.changes@)),
{
    broadcast use {told_on, told_here, told_first};

    assert(ends("{\"view\":"@, "\"view\":"@)) by {
        reveal_strlit("{\"view\":");
        reveal_strlit("\"view\":");
        assert("{\"view\":"@.skip("{\"view\":"@.len() - "\"view\":"@.len()) =~= "\"view\":"@);
    }
    assert(ends(",\"keyRemoved\":"@, "\"keyRemoved\":"@)) by {
        reveal_strlit(",\"keyRemoved\":");
        reveal_strlit("\"keyRemoved\":");
        assert(",\"keyRemoved\":"@.skip(",\"keyRemoved\":"@.len() - "\"keyRemoved\":"@.len()) =~= "\"keyRemoved\":"@);
    }
    assert(ends(",\"incomplete\":"@, "\"incomplete\":"@)) by {
        reveal_strlit(",\"incomplete\":");
        reveal_strlit("\"incomplete\":");
        assert(",\"incomplete\":"@.skip(",\"incomplete\":"@.len() - "\"incomplete\":"@.len()) =~= "\"incomplete\":"@);
    }
    assert(ends(",\"added\":"@, "\"added\":"@)) by {
        reveal_strlit(",\"added\":");
        reveal_strlit("\"added\":");
        assert(",\"added\":"@.skip(",\"added\":"@.len() - "\"added\":"@.len()) =~= "\"added\":"@);
    }
    assert(ends(",\"modified\":"@, "\"modified\":"@)) by {
        reveal_strlit(",\"modified\":");
        reveal_strlit("\"modified\":");
        assert(",\"modified\":"@.skip(",\"modified\":"@.len() - "\"modified\":"@.len()) =~= "\"modified\":"@);
    }
    assert(ends(",\"removed\":"@, "\"removed\":"@)) by {
        reveal_strlit(",\"removed\":");
        reveal_strlit("\"removed\":");
        assert(",\"removed\":"@.skip(",\"removed\":"@.len() - "\"removed\":"@.len()) =~= "\"removed\":"@);
    }
    assert(ends(",\"changes\":"@, "\"changes\":"@)) by {
        reveal_strlit(",\"changes\":");
        reveal_strlit("\"changes\":");
        assert(",\"changes\":"@.skip(",\"changes\":"@.len() - "\"changes\":"@.len()) =~= "\"changes\":"@);
    }
}

/// In the document of a watch both event each field holds what it is named after.
pub proof fn watch_both_event_tells_its_fields(d: WatchBothEvent)
    ensures
        tells(watch_both_event_json(d), "\"sequence\":"@, dec_of(d.sequence as nat)),
        tells(watch_both_event_json(d), "\"path\":"@, json_string(path_text(d.path@))),
        tells(watch_both_event_json(d), "\"recursive\":"@, json_bool(d.recursive)),
        tells(watch_both_event_json(d), "\"triggeredView\":"@, json_string(d.triggered_view@)),
        tells(watch_both_event_json(d), "\"views\":["@, watch_view_items(d.views@)),
{
    broadcast use {told_on, told_here, told_first};

    assert(ends("{\"sequence\":"@, "\"sequence\":"@)) by {
        reveal_strlit("{\"sequence\":");
        reveal_strlit("\"sequence\":");
        assert("{\"sequence\":"@.skip("{\"sequence\":"@.len() - "\"sequence\":"@.len()) =~= "\"sequence\":"@);
    }
    assert(ends(",\"path\":"@, "\"path\":"@)) by {
        reveal_strlit(",\"path\":");
        reveal_strlit("\"path\":");
        assert(",\"path\":"@.skip(",\"path\":"@.len() - "\"path\":"@.len()) =~= "\"path\":"@);
    }
    assert(ends(",\"timedOut\":false,\"recursive\":"@, "\"recursive\":"@)) by {
        reveal_strlit(",\"timedOut\":false,\"recursive\":");
        reveal_strlit("\"recursive\":");
        assert(",\"timedOut\":false,\"recursive\":"@.skip(",\"timedOut\":false,\"recursive\":"@.len() - "\"recursive\":"@.len()) =~= "\"recursive\":"@);
    }
    assert(ends(",\"triggeredView\":"@, "\"triggeredView\":"@)) by {
        reveal_strlit(",\"triggeredView\":");
        reveal_strlit("\"triggeredView\":");
        assert(",\"triggeredView\":"@.skip(",\"triggeredView\":"@.len() - "\"triggeredView\":"@.len()) =~= "\"triggeredView\":"@);
    }
    assert(ends(",\"views\":["@, "\"views\":["@)) by {
        reveal_strlit(",\"views\":[");
        reveal_strlit("\"views\":[");
        assert(",\"views\":["@.skip(",\"views\":["@.len() - "\"views\":["@.len()) =~= "\"views\":["@);
    }
}

/// In the document of an export file each field holds what it is named after.
pub proof fn export_file_tells_its_fields(d: ExportFile)
    ensures
        tells(export_file_json(d), "\"source\":"@, json_string(path_text(d.source@))),
        tells(export_file_json(d), "\"computer\":"@, json_opt(opt_text(d.computer))),
        tells(export_file_json(d), "\"rootAs\":"@, opt_path_json(d.root_as)),
        tells(export_file_json(d), "\"format\":"@, json_string(format_name(d.format))),
        tells(export_file_json(d), "\"recursive\":"@, json_bool(d.recursive)),
        tells(export_file_json(d), "\"file\":"@, json_string(d.file@)),
        tells(export_file_json(d), "\"dryRun\":"@, json_bool(d.dry_run)),
        tells(export_file_json(d), "\"keys\":"@, dec_of(d.keys as nat)),
        tells(export_file_json(d), "\"values\":"@, dec_of(d.values as nat)),
        tells(export_file_json(d), "\"skipped\":"@, dec_of(d.skipped as nat)),
{
    broadcast use {told_on, told_here, told_first};

    assert(ends("{\"source\":"@, "\"source\":"@)) by {
        reveal_strlit("{\"source\":");
        reveal_strlit("\"source\":");
        assert("{\"source\":"@.skip("{\"source\":"@.len() - "\"source\":"@.len()) =~= "\"source\":"@);
    }
    assert(ends(",\"computer\":"@, "\"computer\":"@)) by {
        reveal_strlit(",\"computer\":");
        reveal_strlit("\"computer\":");
        assert(",\"computer\":"@.skip(",\"computer\":"@.len() - "\"computer\":"@.len()) =~= "\"computer\":"@);
    }
    assert(ends(",\"rootAs\":"@, "\"rootAs\":"@)) by {
        reveal_strlit(",\"rootAs\":");
        reveal_strlit("\"rootAs\":");
        assert(",\"rootAs\":"@.skip(",\"rootAs\":"@.len() - "\"rootAs\":"@.len()) =~= "\"rootAs\":"@);
    }
    assert(ends(",\"format\":"@, "\"format\":"@)) by {
        reveal_strlit(",\"format\":");
        reveal_strlit("\"format\":");
        assert(",\"format\":"@.skip(",\"format\":"@.len() - "\"format\":"@.len()) =~= "\"format\":"@);
    }
    assert(ends(",\"recursive\":"@, "\"recursive\":"@)) by {
        reveal_strlit(",\"recursive\":");
        reveal_strlit("\"recursive\":");
        assert(",\"recursive\":"@.skip(",\"recursive\":"@.len() - "\"recursive\":"@.len()) =~= "\"recursive\":"@);
    }
    assert(ends(",\"file\":"@, "\"file\":"@)) by {
        reveal_strlit(",\"file\":");
        reveal_strlit("\"file\":");
        assert(",\"file\":"@.skip(",\"file\":"@.len() - "\"file\":"@.len()) =~= "\"file\":"@);
    }
    assert(ends(",\"dryRun\":"@, "\"dryRun\":"@)) by {
        reveal_strlit(",\"dryRun\":");
        reveal_strlit("\"dryRun\":");
        assert(",\"dryRun\":"@.skip(",\"dryRun\":"@.len() - "\"dryRun\":"@.len()) =~= "\"dryRun\":"@);
    }
    assert(ends(",\"keys\":"@, "\"keys\":"@)) by {
        reveal_strlit(",\"keys\":");
        reveal_strlit("\"keys\":");
        assert(",\"keys\":"@.skip(",\"keys\":"@.len() - "\"keys\":"@.len()) =~= "\"keys\":"@);
    }
    assert(ends(",\"values\":"@, "\"values\":"@)) by {
        reveal_strlit(",\"values\":");
        reveal_strlit("\"values\":");
        assert(",\"values\":"@.skip(",\"values\":"@.len() - "\"values\":"@.len()) =~= "\"values\":"@);
    }
    assert(ends(",\"skipped\":"@, "\"skipped\":"@)) by {
        reveal_strlit(",\"skipped\":");
        reveal_strlit("\"skipped\":");
        assert(",\"skipped\":"@.skip(",\"skipped\":"@.len() - "\"skipped\":"@.len()) =~= "\"skipped\":"@);
    }
}

/// In the document of an export view each field holds what it is named after.
pub proof fn export_view_tells_its_fields(d: ExportView)
    ensures
        tells(export_view_json(d), "\"view\":"@, json_string(d.view@)),
        tells(export_view_json(d), "\"file\":"@, json_opt(opt_text(d.file))),
        tells(export_view_json(d), "\"dryRun\":"@, json_bool(d.dry_run)),
        tells(export_view_json(d), "\"keys\":"@, dec_of(d.keys as nat)),
        tells(export_view_json(d), "\"values\":"@, dec_of(d.values as nat)),
        tells(export_view_json(d), "\"skipped\":"@, dec_of(d.skipped as nat)),
        tells(export_view_json(d), "\"data\":"@, opt_data_json(d.data)),
{
    broadcast use {told_on, told_here, told_first};

    assert(ends("{\"view\":"@, "\"view\":"@)) by {
        reveal_strlit("{\"view\":");
        reveal_strlit("\"view\":");
        assert("{\"view\":"@.skip("{\"view\":"@.len() - "\"view\":"@.len()) =~= "\"view\":"@);
    }
    assert(ends(",\"file\":"@, "\"file\":"@)) by {
        reveal_strlit(",\"file\":");
        reveal_strlit("\"file\":");
        assert(",\"file\":"@.skip(",\"file\":"@.len() - "\"file\":"@.len()) =~= "\"file\":"@);
    }
    assert(ends(",\"dryRun\":"@, "\"dryRun\":"@)) by {
        reveal_strlit(",\"dryRun\":");
        reveal_strlit("\"dryRun\":");
        assert(",\"dryRun\":"@.skip(",\"dryRun\":"@.len() - "\"dryRun\":"@.len()) =~= "\"dryRun\":"@);
    }
    assert(ends(",\"keys\":"@, "\"keys\":"@)) by {
        reveal_strlit(",\"keys\":");
        reveal_strlit("\"keys\":");
        assert(",\"keys\":"@.skip(",\"keys\":"@.len() - "\"keys\":"@.len()) =~= "\"keys\":"@);
    }
    assert(ends(",\"values\":"@, "\"values\":"@)) by {
        reveal_strlit(",\"values\":");
        reveal_strlit("\"values\":");
        assert(",\"values\":"@.skip(",\"values\":"@.len() - "\"values\":"@.len()) =~= "\"values\":"@);
    }
    assert(ends(",\"skipped\":"@, "\"skipped\":"@)) by {
        reveal_strlit(",\"skipped\":");
        reveal_strlit("\"skipped\":");
        assert(",\"skipped\":"@.skip(",\"skipped\":"@.len() - "\"skipped\":"@.len()) =~= "\"skipped\":"@);
    }
    assert(ends(",\"data\":"@, "\"data\":"@)) by {
        reveal_strlit(",\"data\":");
        reveal_strlit("\"data\":");
        assert(",\"data\":"@.skip(",\"data\":"@.len() - "\"data\":"@.len()) =~= "\"data\":"@);
    }
}

/// In the document of an export views each field holds what it is named after.
pub proof fn export_views_tells_its_fields(d: ExportViews)
    ensures
        tells(export_views_json(d), "\"source\":"@, json_string(path_text(d.source@))),
        tells(export_views_json(d), "\"computer\":"@, json_opt(opt_text(d.computer))),
        tells(export_views_json(d), "\"rootAs\":"@, opt_path_json(d.root_as)),
        tells(export_views_json(d), "\"format\":"@, json_string(format_name(d.format))),
        tells(export_views_json(d), "\"recursive\":"@, json_bool(d.recursive)),
        tells(export_views_json(d), "\"views\":["@, export_view_items(d.views@)),
        tells(export_views_json(d), "\"failures\":["@, pair_items("view"@, "problem"@, d.failures@)),
{
    broadcast use {told_on, told_here, told_first};

    assert(ends("{\"source\":"@, "\"source\":"@)) by {
        reveal_strlit("{\"source\":");
        reveal_strlit("\"source\":");
        assert("{\"source\":"@.skip("{\"source\":"@.len() - "\"source\":"@.len()) =~= "\"source\":"@);
    }
    assert(ends(",\"computer\":"@, "\"computer\":"@)) by {
        reveal_strlit(",\"computer\":");
        reveal_strlit("\"computer\":");
        assert(",\"computer\":"@.skip(",\"computer\":"@.len() - "\"computer\":"@.len()) =~= "\"computer\":"@);
    }
    assert(ends(",\"rootAs\":"@, "\"rootAs\":"@)) by {
        reveal_strlit(",\"rootAs\":");
        reveal_strlit("\"rootAs\":");
        assert(",\"rootAs\":"@.skip(",\"rootAs\":"@.len() - "\"rootAs\":"@.len()) =~= "\"rootAs\":"@);
    }
    assert(ends(",\"format\":"@, "\"format\":"@)) by {
        reveal_strlit(",\"format\":");
        reveal_strlit("\"format\":");
        assert(",\"format\":"@.skip(",\"format\":"@.len() - "\"format\":"@.len()) =~= "\"format\":"@);
    }
    assert(ends(",\"recursive\":"@, "\"recursive\":"@)) by {
        reveal_strlit(",\"recursive\":");
        reveal_strlit("\"recursive\":");
        assert(",\"recursive\":"@.skip(",\"recursive\":"@.len() - "\"recursive\":"@.len()) =~= "\"recursive\":"@);
    }
    assert(ends(",\"views\":["@, "\"views\":["@)) by {
        reveal_strlit(",\"views\":[");
        reveal_strlit("\"views\":[");
        assert(",\"views\":["@.skip(",\"views\":["@.len() - "\"views\":["@.len()) =~= "\"views\":["@);
    }
    assert(ends("],\"failures\":["@, "\"failures\":["@)) by {
        reveal_strlit("],\"failures\":[");
        reveal_strlit("\"failures\":[");
        assert("],\"failures\":["@.skip("],\"failures\":["@.len() - "\"failures\":["@.len()) =~= "\"failures\":["@);
    }
}

/// In the document of a query view each field holds what it is named after.
pub proof fn query_view_tells_its_fields(d: QueryView)
    ensures
        tells(query_view_json(d), "\"view\":"@, json_string(d.view@)),
        tells(query_view_json(d), "\"keys\":"@, query_json(opt_text(d.root), views(d.keys@))),
        tells(query_view_json(d), "\"incomplete\":"@, json_bool(d.incomplete)),
{
    broadcast use {told_on, told_here, told_first};

    assert(ends("{\"view\":"@, "\"view\":"@)) by {
        reveal_strlit("{\"view\":");
        reveal_strlit("\"view\":");
        assert("{\"view\":"@.skip("{\"view\":"@.len() - "\"view\":"@.len()) =~= "\"view\":"@);
    }
    assert(ends(",\"keys\":"@, "\"keys\":"@)) by {
        reveal_strlit(",\"keys\":");
        reveal_strlit("\"keys\":");
        assert(",\"keys\":"@.skip(",\"keys\":"@.len() - "\"keys\":"@.len()) =~= "\"keys\":"@);
    }
    assert(ends(",\"incomplete\":"@, "\"incomplete\":"@)) by {
        reveal_strlit(",\"incomplete\":");
        reveal_strlit("\"incomplete\":");
        assert(",\"incomplete\":"@.skip(",\"incomplete\":"@.len() - "\"incomplete\":"@.len()) =~= "\"incomplete\":"@);
    }
}

/// In the document of a query views each field holds what it is named after.
pub proof fn query_views_tells_its_fields(d: QueryViews)
    ensures
        tells(query_views_json(d), "\"path\":"@, json_string(d.path@)),
        tells(query_views_json(d), "\"views\":["@, query_view_items(d.views@)),
        tells(query_views_json(d), "\"failures\":["@, pair_items("view"@, "error"@, d.failures@)),
{
    broadcast use {told_on, told_here, told_first};

    assert(ends("{\"path\":"@, "\"path\":"@)) by {
        reveal_strlit("{\"path\":");
        reveal_strlit("\"path\":");
        assert("{\"path\":"@.skip("{\"path\":"@.len() - "\"path\":"@.len()) =~= "\"path\":"@);
    }
    assert(ends(",\"views\":["@, "\"views\":["@)) by {
        reveal_strlit(",\"views\":[");
        reveal_strlit("\"views\":[");
        assert(",\"views\":["@.skip(",\"views\":["@.len() - "\"views\":["@.len()) =~= "\"views\":["@);
    }
    assert(ends("],\"failures\":["@, "\"failures\":["@)) by {
        reveal_strlit("],\"failures\":[");
        reveal_strlit("\"failures\":[");
        assert("],\"failures\":["@.skip("],\"failures\":["@.len() - "\"failures\":["@.len()) =~= "\"failures\":["@);
    }
}

/// In the document of a list view each field holds what it is named after.
pub proof fn list_view_tells_its_fields(d: ListView)
    ensures
        tells(list_view_json(d), "\"view\":"@, json_string(d.view@)),
        tells(list_view_json(d), "\"keys\":["@, json_list(views(d.keys@))),
        tells(list_view_json(d), "\"skipped\":["@, pair_items("path"@, "problem"@, d.skipped@)),
        tells(list_view_json(d), "\"truncated\":"@, json_bool(d.truncated)),
{
    broadcast use {told_on, told_here, told_first};

    assert(ends("{\"view\":"@, "\"view\":"@)) by {
        reveal_strlit("{\"view\":");
        reveal_strlit("\"view\":");
        assert("{\"view\":"@.skip("{\"view\":"@.len() - "\"view\":"@.len()) =~= "\"view\":"@);
    }
    assert(ends(",\"keys\":["@, "\"keys\":["@)) by {
        reveal_strlit(",\"keys\":[");
        reveal_strlit("\"keys\":[");
        assert(",\"keys\":["@.skip(",\"keys\":["@.len() - "\"keys\":["@.len()) =~= "\"keys\":["@);
    }
    assert(ends("],\"skipped\":["@, "\"skipped\":["@)) by {
        reveal_strlit("],\"skipped\":[");
        reveal_strlit("\"skipped\":[");
        assert("],\"skipped\":["@.skip("],\"skipped\":["@.len() - "\"skipped\":["@.len()) =~= "\"skipped\":["@);
    }
    assert(ends("],\"truncated\":"@, "\"truncated\":"@)) by {
        reveal_strlit("],\"truncated\":");
        reveal_strlit("\"truncated\":");
        assert("],\"truncated\":"@.skip("],\"truncated\":"@.len() - "\"truncated\":"@.len()) =~= "\"truncated\":"@);
    }
}

/// In the document of a list views each field holds what it is named after.
pub proof fn list_views_tells_its_fields(d: ListViews)
    ensures
        tells(list_views_json(d), "\"path\":"@, json_string(d.path@)),
        tells(list_views_json(d), "\"computer\":"@, json_opt(opt_text(d.computer))),
        tells(list_views_json(d), "\"recursive\":"@, json_bool(d.recursive)),
        tells(list_views_json(d), "\"include\":["@, json_list(views(d.include_keys@))),
        tells(list_views_json(d), "\"exclude\":["@, json_list(views(d.exclude_keys@))),
        tells(list_views_json(d), "\"limit\":"@, dec_of(d.limit as nat)),
        tells(list_views_json(d), "\"views\":["@, list_view_items(d.views@)),
        tells(list_views_json(d), "\"failures\":["@, pair_items("view"@, "error"@, d.failures@)),
{
    broadcast use {told_on, told_here, told_first};

    assert(ends("{\"path\":"@, "\"path\":"@)) by {
        reveal_strlit("{\"path\":");
        reveal_strlit("\"path\":");
        assert("{\"path\":"@.skip("{\"path\":"@.len() - "\"path\":"@.len()) =~= "\"path\":"@);
    }
    assert(ends(",\"computer\":"@, "\"computer\":"@)) by {
        reveal_strlit(",\"computer\":");
        reveal_strlit("\"computer\":");
        assert(",\"computer\":"@.skip(",\"computer\":"@.len() - "\"computer\":"@.len()) =~= "\"computer\":"@);
    }
    assert(ends(",\"recursive\":"@, "\"recursive\":"@)) by {
        reveal_strlit(",\"recursive\":");
        reveal_strlit("\"recursive\":");
        assert(",\"recursive\":"@.skip(",\"recursive\":"@.len() - "\"recursive\":"@.len()) =~= "\"recursive\":"@);
    }
    assert(ends(",\"include\":["@, "\"include\":["@)) by {
        reveal_strlit(",\"include\":[");
        reveal_strlit("\"include\":[");
        assert(",\"include\":["@.skip(",\"include\":["@.len() - "\"include\":["@.len()) =~= "\"include\":["@);
    }
    assert(ends("],\"exclude\":["@, "\"exclude\":["@)) by {
        reveal_strlit("],\"exclude\":[");
        reveal_strlit("\"exclude\":[");
        assert("],\"exclude\":["@.skip("],\"exclude\":["@.len() - "\"exclude\":["@.len()) =~= "\"exclude\":["@);
    }
    assert(ends("],\"limit\":"@, "\"limit\":"@)) by {
        reveal_strlit("],\"limit\":");
        reveal_strlit("\"limit\":");
        assert("],\"limit\":"@.skip("],\"limit\":"@.len() - "\"limit\":"@.len()) =~= "\"limit\":"@);
    }
    assert(ends(",\"views\":["@, "\"views\":["@)) by {
        reveal_strlit(",\"views\":[");
        reveal_strlit("\"views\":[");
        assert(",\"views\":["@.skip(",\"views\":["@.len() - "\"views\":["@.len()) =~= "\"views\":["@);
    }
    assert(ends("],\"failures\":["@, "\"failures\":["@)) by {
        reveal_strlit("],\"failures\":[");
        reveal_strlit("\"failures\":[");
        assert("],\"failures\":["@.skip("],\"failures\":["@.len() - "\"failures\":["@.len()) =~= "\"failures\":["@);
    }
}

/// In the document of a stats view each field holds what it is named after.
pub proof fn stats_view_tells_its_fields(d: StatsView)
    ensures
        tells(stats_view_json(d), "\"view\":"@, json_string(d.view@)),
        tells(stats_view_json(d), "\"conflicts\":"@, dec_of(d.conflicts as nat)),
        tells(stats_view_json(d), "\"incomplete\":"@, json_bool(d.skipped@.len() != 0)),
        tells(stats_view_json(d), "\"matched\":"@, json_bool(d.matched)),
        tells(stats_view_json(d), "\"skipped\":["@, pair_items("path"@, "problem"@, d.skipped@)),
{
    broadcast use {told_on, told_here, told_first};

    assert(ends("{\"view\":"@, "\"view\":"@)) by {
        reveal_strlit("{\"view\":");
        reveal_strlit("\"view\":");
        assert("{\"view\":"@.skip("{\"view\":"@.len() - "\"view\":"@.len()) =~= "\"view\":"@);
    }
    assert(ends(",\"conflicts\":"@, "\"conflicts\":"@)) by {
        reveal_strlit(",\"conflicts\":");
        reveal_strlit("\"conflicts\":");
        assert(",\"conflicts\":"@.skip(",\"conflicts\":"@.len() - "\"conflicts\":"@.len()) =~= "\"conflicts\":"@);
    }
    assert(ends(",\"incomplete\":"@, "\"incomplete\":"@)) by {
        reveal_strlit(",\"incomplete\":");
        reveal_strlit("\"incomplete\":");
        assert(",\"incomplete\":"@.skip(",\"incomplete\":"@.len() - "\"incomplete\":"@.len()) =~= "\"incomplete\":"@);
    }
    assert(ends(",\"matched\":"@, "\"matched\":"@)) by {
        reveal_strlit(",\"matched\":");
        reveal_strlit("\"matched\":");
        assert(",\"matched\":"@.skip(",\"matched\":"@.len() - "\"matched\":"@.len()) =~= "\"matched\":"@);
    }
    assert(ends(",\"skipped\":["@, "\"skipped\":["@)) by {
        reveal_strlit(",\"skipped\":[");
        reveal_strlit("\"skipped\":[");
        assert(",\"skipped\":["@.skip(",\"skipped\":["@.len() - "\"skipped\":["@.len()) =~= "\"skipped\":["@);
    }
}

/// In the document of a stats views each field holds what it is named after.
pub proof fn stats_views_tells_its_fields(d: StatsViews)
    ensures
        tells(stats_views_json(d), "\"source\":"@, json_string(d.source@)),
        tells(stats_views_json(d), "\"computer\":"@, json_opt(opt_text(d.computer))),
        tells(stats_views_json(d), "\"rootAs\":"@, opt_path_json(d.root_as)),
        tells(stats_views_json(d), "\"views\":["@, stats_view_items(d.views@)),
        tells(stats_views_json(d), "\"failures\":["@, pair_items("view"@, "error"@, d.failures@)),
{
    broadcast use {told_on, told_here, told_first};

    assert(ends("{\"source\":"@, "\"source\":"@)) by {
        reveal_strlit("{\"source\":");
        reveal_strlit("\"source\":");
        assert("{\"source\":"@.skip("{\"source\":"@.len() - "\"source\":"@.len()) =~= "\"source\":"@);
    }
    assert(ends(",\"computer\":"@, "\"computer\":"@)) by {
        reveal_strlit(",\"computer\":");
        reveal_strlit("\"computer\":");
        assert(",\"computer\":"@.skip(",\"computer\":"@.len() - "\"computer\":"@.len()) =~= "\"computer\":"@);
    }
    assert(ends(",\"rootAs\":"@, "\"rootAs\":"@)) by {
        reveal_strlit(",\"rootAs\":");
        reveal_strlit("\"rootAs\":");
        assert(",\"rootAs\":"@.skip(",\"rootAs\":"@.len() - "\"rootAs\":"@.len()) =~= "\"rootAs\":"@);
    }
    assert(ends(",\"views\":["@, "\"views\":["@)) by {
        reveal_strlit(",\"views\":[");
        reveal_strlit("\"views\":[");
        assert(",\"views\":["@.skip(",\"views\":["@.len() - "\"views\":["@.len()) =~= "\"views\":["@);
    }
    assert(ends("],\"failures\":["@, "\"failures\":["@)) by {
        reveal_strlit("],\"failures\":[");
        reveal_strlit("\"failures\":[");
        assert("],\"failures\":["@.skip("],\"failures\":["@.len() - "\"failures\":["@.len()) =~= "\"failures\":["@);
    }
}

/// In the document of a stats file each field holds what it is named after.
pub proof fn stats_file_tells_its_fields(d: StatsFile)
    ensures
        tells(stats_file_json(d), "\"source\":"@, json_string(d.source@)),
        tells(stats_file_json(d), "\"format\":"@, json_string(d.format@)),
        tells(stats_file_json(d), "\"conflicts\":"@, dec_of(d.conflicts as nat)),
        tells(stats_file_json(d), "\"incomplete\":"@, json_bool(d.incomplete)),
        tells(stats_file_json(d), "\"matched\":"@, json_bool(d.matched)),
{
    broadcast use {told_on, told_here, told_first};

    assert(ends("{\"source\":"@, "\"source\":"@)) by {
        reveal_strlit("{\"source\":");
        reveal_strlit("\"source\":");
        assert("{\"source\":"@.skip("{\"source\":"@.len() - "\"source\":"@.len()) =~= "\"source\":"@);
    }
    assert(ends(",\"format\":"@, "\"format\":"@)) by {
        reveal_strlit(",\"format\":");
        reveal_strlit("\"format\":");
        assert(",\"format\":"@.skip(",\"format\":"@.len() - "\"format\":"@.len()) =~= "\"format\":"@);
    }
    assert(ends(",\"conflicts\":"@, "\"conflicts\":"@)) by {
        reveal_strlit(",\"conflicts\":");
        reveal_strlit("\"conflicts\":");
        assert(",\"conflicts\":"@.skip(",\"conflicts\":"@.len() - "\"conflicts\":"@.len()) =~= "\"conflicts\":"@);
    }
    assert(ends(",\"incomplete\":"@, "\"incomplete\":"@)) by {
        reveal_strlit(",\"incomplete\":");
        reveal_strlit("\"incomplete\":");
        assert(",\"incomplete\":"@.skip(",\"incomplete\":"@.len() - "\"incomplete\":"@.len()) =~= "\"incomplete\":"@);
    }
    assert(ends(",\"matched\":"@, "\"matched\":"@)) by {
        reveal_strlit(",\"matched\":");
        reveal_strlit("\"matched\":");
        assert(",\"matched\":"@.skip(",\"matched\":"@.len() - "\"matched\":"@.len()) =~= "\"matched\":"@);
    }
}

/// In the document of a fingerprint view each field holds what it is named after.
pub proof fn fingerprint_view_tells_its_fields(d: FingerprintView)
    ensures
        tells(fingerprint_view_json(d), "\"view\":"@, json_string(d.view@)),
        tells(fingerprint_view_json(d), "\"sha256\":"@, json_string(d.sha256@)),
        tells(fingerprint_view_json(d), "\"conflicts\":"@, dec_of(d.conflicts as nat)),
        tells(fingerprint_view_json(d), "\"incomplete\":"@, json_bool(d.skipped@.len() != 0)),
        tells(fingerprint_view_json(d), "\"expected\":"@, json_opt(opt_text(d.expected))),
        tells(fingerprint_view_json(d), "\"matches\":"@, json_opt_bool(met(opt_text(d.expected), d.matched, d.sha256@))),
        tells(fingerprint_view_json(d), "\"matched\":"@, json_bool(d.matched)),
        tells(fingerprint_view_json(d), "\"keys\":"@, dec_of(d.keys as nat)),
        tells(fingerprint_view_json(d), "\"values\":"@, dec_of(d.values as nat)),
        tells(fingerprint_view_json(d), "\"skipped\":["@, pair_items("path"@, "problem"@, d.skipped@)),
{
    broadcast use {told_on, told_here, told_first};

    assert(ends("{\"view\":"@, "\"view\":"@)) by {
        reveal_strlit("{\"view\":");
        reveal_strlit("\"view\":");
        assert("{\"view\":"@.skip("{\"view\":"@.len() - "\"view\":"@.len()) =~= "\"view\":"@);
    }
    assert(ends(",\"sha256\":"@, "\"sha256\":"@)) by {
        reveal_strlit(",\"sha256\":");
        reveal_strlit("\"sha256\":");
        assert(",\"sha256\":"@.skip(",\"sha256\":"@.len() - "\"sha256\":"@.len()) =~= "\"sha256\":"@);
    }
    assert(ends(",\"conflicts\":"@, "\"conflicts\":"@)) by {
        reveal_strlit(",\"conflicts\":");
        reveal_strlit("\"conflicts\":");
        assert(",\"conflicts\":"@.skip(",\"conflicts\":"@.len() - "\"conflicts\":"@.len()) =~= "\"conflicts\":"@);
    }
    assert(ends(",\"incomplete\":"@, "\"incomplete\":"@)) by {
        reveal_strlit(",\"incomplete\":");
        reveal_strlit("\"incomplete\":");
        assert(",\"incomplete\":"@.skip(",\"incomplete\":"@.len() - "\"incomplete\":"@.len()) =~= "\"incomplete\":"@);
    }
    assert(ends(",\"expected\":"@, "\"expected\":"@)) by {
        reveal_strlit(",\"expected\":");
        reveal_strlit("\"expected\":");
        assert(",\"expected\":"@.skip(",\"expected\":"@.len() - "\"expected\":"@.len()) =~= "\"expected\":"@);
    }
    assert(ends(",\"matches\":"@, "\"matches\":"@)) by {
        reveal_strlit(",\"matches\":");
        reveal_strlit("\"matches\":");
        assert(",\"matches\":"@.skip(",\"matches\":"@.len() - "\"matches\":"@.len()) =~= "\"matches\":"@);
    }
    assert(ends(",\"matched\":"@, "\"matched\":"@)) by {
        reveal_strlit(",\"matched\":");
        reveal_strlit("\"matched\":");
        assert(",\"matched\":"@.skip(",\"matched\":"@.len() - "\"matched\":"@.len()) =~= "\"matched\":"@);
    }
    assert(ends(",\"keys\":"@, "\"keys\":"@)) by {
        reveal_strlit(",\"keys\":");
        reveal_strlit("\"keys\":");
        assert(",\"keys\":"@.skip(",\"keys\":"@.len() - "\"keys\":"@.len()) =~= "\"keys\":"@);
    }
    assert(ends(",\"values\":"@, "\"values\":"@)) by {
        reveal_strlit(",\"values\":");
        reveal_strlit("\"values\":");
        assert(",\"values\":"@.skip(",\"values\":"@.len() - "\"values\":"@.len()) =~= "\"values\":"@);
    }
    assert(ends(",\"skipped\":["@, "\"skipped\":["@)) by {
        reveal_strlit(",\"skipped\":[");
        reveal_strlit("\"skipped\":[");
        assert(",\"skipped\":["@.skip(",\"skipped\":["@.len() - "\"skipped\":["@.len()) =~= "\"skipped\":["@);
    }
}

/// In the document of a fingerprint views each field holds what it is named after.
pub proof fn fingerprint_views_tells_its_fields(d: FingerprintViews)
    ensures
        tells(fingerprint_views_json(d), "\"source\":"@, json_string(d.source@)),
        tells(fingerprint_views_json(d), "\"computer\":"@, json_opt(opt_text(d.computer))),
        tells(fingerprint_views_json(d), "\"rootAs\":"@, opt_path_json(d.root_as)),
        tells(fingerprint_views_json(d), "\"canonicalVersion\":"@, dec_of(d.canonical_version as nat)),
        tells(fingerprint_views_json(d), "\"views\":["@, fingerprint_view_items(d.views@)),
        tells(fingerprint_views_json(d), "\"failures\":["@, pair_items("view"@, "error"@, d.failures@)),
{
    broadcast use {told_on, told_here, told_first};

    assert(ends("{\"source\":"@, "\"source\":"@)) by {
        reveal_strlit("{\"source\":");
        reveal_strlit("\"source\":");
        assert("{\"source\":"@.skip("{\"source\":"@.len() - "\"source\":"@.len()) =~= "\"source\":"@);
    }
    assert(ends(",\"computer\":"@, "\"computer\":"@)) by {
        reveal_strlit(",\"computer\":");
        reveal_strlit("\"computer\":");
        assert(",\"computer\":"@.skip(",\"computer\":"@.len() - "\"computer\":"@.len()) =~= "\"computer\":"@);
    }
    assert(ends(",\"rootAs\":"@, "\"rootAs\":"@)) by {
        reveal_strlit(",\"rootAs\":");
        reveal_strlit("\"rootAs\":");
        assert(",\"rootAs\":"@.skip(",\"rootAs\":"@.len() - "\"rootAs\":"@.len()) =~= "\"rootAs\":"@);
    }
    assert(ends(",\"canonicalVersion\":"@, "\"canonicalVersion\":"@)) by {
        reveal_strlit(",\"canonicalVersion\":");
        reveal_strlit("\"canonicalVersion\":");
        assert(",\"canonicalVersion\":"@.skip(",\"canonicalVersion\":"@.len() - "\"canonicalVersion\":"@.len()) =~= "\"canonicalVersion\":"@);
    }
    assert(ends(",\"views\":["@, "\"views\":["@)) by {
        reveal_strlit(",\"views\":[");
        reveal_strlit("\"views\":[");
        assert(",\"views\":["@.skip(",\"views\":["@.len() - "\"views\":["@.len()) =~= "\"views\":["@);
    }
    assert(ends("],\"failures\":["@, "\"failures\":["@)) by {
        reveal_strlit("],\"failures\":[");
        reveal_strlit("\"failures\":[");
        assert("],\"failures\":["@.skip("],\"failures\":["@.len() - "\"failures\":["@.len()) =~= "\"failures\":["@);
    }
}

/// In the document of a fingerprint file each field holds what it is named after.
pub proof fn fingerprint_file_tells_its_fields(d: FingerprintFile)
    ensures
        tells(fingerprint_file_json(d), "\"source\":"@, json_string(d.source@)),
        tells(fingerprint_file_json(d), "\"format\":"@, json_string(d.format@)),
        tells(fingerprint_file_json(d), "\"canonicalVersion\":"@, dec_of(d.canonical_version as nat)),
        tells(fingerprint_file_json(d), "\"sha256\":"@, json_string(d.sha256@)),
        tells(fingerprint_file_json(d), "\"conflicts\":"@, dec_of(d.conflicts as nat)),
        tells(fingerprint_file_json(d), "\"incomplete\":"@, json_bool(d.incomplete)),
        tells(fingerprint_file_json(d), "\"expected\":"@, json_opt(opt_text(d.expected))),
        tells(fingerprint_file_json(d), "\"matches\":"@, json_opt_bool(met(opt_text(d.expected), d.matched, d.sha256@))),
        tells(fingerprint_file_json(d), "\"matched\":"@, json_bool(d.matched)),
        tells(fingerprint_file_json(d), "\"keys\":"@, dec_of(d.keys as nat)),
        tells(fingerprint_file_json(d), "\"values\":"@, dec_of(d.values as nat)),
{
    broadcast use {told_on, told_here, told_first};

    assert(ends("{\"source\":"@, "\"source\":"@)) by {
        reveal_strlit("{\"source\":");
        reveal_strlit("\"source\":");
        assert("{\"source\":"@.skip("{\"source\":"@.len() - "\"source\":"@.len()) =~= "\"source\":"@);
    }
    assert(ends(",\"format\":"@, "\"format\":"@)) by {
        reveal_strlit(",\"format\":");
        reveal_strlit("\"format\":");
        assert(",\"format\":"@.skip(",\"format\":"@.len() - "\"format\":"@.len()) =~= "\"format\":"@);
    }
    assert(ends(",\"rootAs\":null,\"canonicalVersion\":"@, "\"canonicalVersion\":"@)) by {
        reveal_strlit(",\"rootAs\":null,\"canonicalVersion\":");
        reveal_strlit("\"canonicalVersion\":");
        assert(",\"rootAs\":null,\"canonicalVersion\":"@.skip(",\"rootAs\":null,\"canonicalVersion\":"@.len() - "\"canonicalVersion\":"@.len()) =~= "\"canonicalVersion\":"@);
    }
    assert(ends(",\"algorithm\":\"sha256\",\"sha256\":"@, "\"sha256\":"@)) by {
        reveal_strlit(",\"algorithm\":\"sha256\",\"sha256\":");
        reveal_strlit("\"sha256\":");
        assert(",\"algorithm\":\"sha256\",\"sha256\":"@.skip(",\"algorithm\":\"sha256\",\"sha256\":"@.len() - "\"sha256\":"@.len()) =~= "\"sha256\":"@);
    }
    assert(ends(",\"conflicts\":"@, "\"conflicts\":"@)) by {
        reveal_strlit(",\"conflicts\":");
        reveal_strlit("\"conflicts\":");
        assert(",\"conflicts\":"@.skip(",\"conflicts\":"@.len() - "\"conflicts\":"@.len()) =~= "\"conflicts\":"@);
    }
    assert(ends(",\"incomplete\":"@, "\"incomplete\":"@)) by {
        reveal_strlit(",\"incomplete\":");
        reveal_strlit("\"incomplete\":");
        assert(",\"incomplete\":"@.skip(",\"incomplete\":"@.len() - "\"incomplete\":"@.len()) =~= "\"incomplete\":"@);
    }
    assert(ends(",\"expected\":"@, "\"expected\":"@)) by {
        reveal_strlit(",\"expected\":");
        reveal_strlit("\"expected\":");
        assert(",\"expected\":"@.skip(",\"expected\":"@.len() - "\"expected\":"@.len()) =~= "\"expected\":"@);
    }
    assert(ends(",\"matches\":"@, "\"matches\":"@)) by {
        reveal_strlit(",\"matches\":");
        reveal_strlit("\"matches\":");
        assert(",\"matches\":"@.skip(",\"matches\":"@.len() - "\"matches\":"@.len()) =~= "\"matches\":"@);
    }
    assert(ends(",\"matched\":"@, "\"matched\":"@)) by {
        reveal_strlit(",\"matched\":");
        reveal_strlit("\"matched\":");
        assert(",\"matched\":"@.skip(",\"matched\":"@.len() - "\"matched\":"@.len()) =~= "\"matched\":"@);
    }
    assert(ends(",\"keys\":"@, "\"keys\":"@)) by {
        reveal_strlit(",\"keys\":");
        reveal_strlit("\"keys\":");
        assert(",\"keys\":"@.skip(",\"keys\":"@.len() - "\"keys\":"@.len()) =~= "\"keys\":"@);
    }
    assert(ends(",\"values\":"@, "\"values\":"@)) by {
        reveal_strlit(",\"values\":");
        reveal_strlit("\"values\":");
        assert(",\"values\":"@.skip(",\"values\":"@.len() - "\"values\":"@.len()) =~= "\"values\":"@);
    }
}

/// In the document of a probe view each field holds what it is named after.
pub proof fn probe_view_tells_its_fields(d: ProbeView)
    ensures
        tells(probe_view_json(d), "\"view\":"@, json_string(d.view@)),
        tells(probe_view_json(d), "\"exists\":"@, json_bool(d.exists)),
        tells(probe_view_json(d), "\"readable\":"@, json_bool(d.readable)),
        tells(probe_view_json(d), "\"writable\":"@, json_bool(d.writable)),
        tells(probe_view_json(d), "\"creatable\":"@, json_bool(d.creatable)),
        tells(probe_view_json(d), "\"detail\":"@, json_string(d.detail@)),
{
    broadcast use {told_on, told_here, told_first};

    assert(ends("{\"view\":"@, "\"view\":"@)) by {
        reveal_strlit("{\"view\":");
        reveal_strlit("\"view\":");
        assert("{\"view\":"@.skip("{\"view\":"@.len() - "\"view\":"@.len()) =~= "\"view\":"@);
    }
    assert(ends(",\"exists\":"@, "\"exists\":"@)) by {
        reveal_strlit(",\"exists\":");
        reveal_strlit("\"exists\":");
        assert(",\"exists\":"@.skip(",\"exists\":"@.len() - "\"exists\":"@.len()) =~= "\"exists\":"@);
    }
    assert(ends(",\"readable\":"@, "\"readable\":"@)) by {
        reveal_strlit(",\"readable\":");
        reveal_strlit("\"readable\":");
        assert(",\"readable\":"@.skip(",\"readable\":"@.len() - "\"readable\":"@.len()) =~= "\"readable\":"@);
    }
    assert(ends(",\"writable\":"@, "\"writable\":"@)) by {
        reveal_strlit(",\"writable\":");
        reveal_strlit("\"writable\":");
        assert(",\"writable\":"@.skip(",\"writable\":"@.len() - "\"writable\":"@.len()) =~= "\"writable\":"@);
    }
    assert(ends(",\"creatable\":"@, "\"creatable\":"@)) by {
        reveal_strlit(",\"creatable\":");
        reveal_strlit("\"creatable\":");
        assert(",\"creatable\":"@.skip(",\"creatable\":"@.len() - "\"creatable\":"@.len()) =~= "\"creatable\":"@);
    }
    assert(ends(",\"detail\":"@, "\"detail\":"@)) by {
        reveal_strlit(",\"detail\":");
        reveal_strlit("\"detail\":");
        assert(",\"detail\":"@.skip(",\"detail\":"@.len() - "\"detail\":"@.len()) =~= "\"detail\":"@);
    }
}

/// In the document of a probe views each field holds what it is named after.
pub proof fn probe_views_tells_its_fields(d: ProbeViews)
    ensures
        tells(probe_views_json(d), "\"path\":"@, json_string(path_text(d.path@))),
        tells(probe_views_json(d), "\"computer\":"@, json_opt(opt_text(d.computer))),
        tells(probe_views_json(d), "\"views\":["@, probe_view_items(d.views@)),
{
    broadcast use {told_on, told_here, told_first};

    assert(ends("{\"path\":"@, "\"path\":"@)) by {
        reveal_strlit("{\"path\":");
        reveal_strlit("\"path\":");
        assert("{\"path\":"@.skip("{\"path\":"@.len() - "\"path\":"@.len()) =~= "\"path\":"@);
    }
    assert(ends(",\"computer\":"@, "\"computer\":"@)) by {
        reveal_strlit(",\"computer\":");
        reveal_strlit("\"computer\":");
        assert(",\"computer\":"@.skip(",\"computer\":"@.len() - "\"computer\":"@.len()) =~= "\"computer\":"@);
    }
    assert(ends(",\"views\":["@, "\"views\":["@)) by {
        reveal_strlit(",\"views\":[");
        reveal_strlit("\"views\":[");
        assert(",\"views\":["@.skip(",\"views\":["@.len() - "\"views\":["@.len()) =~= "\"views\":["@);
    }
}

/// In the document of a probe each field holds what it is named after.
pub proof fn probe_tells_its_fields(d: Probe)
    ensures
        tells(probe_json(d), "\"path\": "@, json_string(d.path@)),
        tells(probe_json(d), "\"computer\": "@, json_opt(opt_text(d.computer))),
        tells(probe_json(d), "\"exists\": "@, json_bool(d.exists)),
        tells(probe_json(d), "\"readable\": "@, json_bool(d.readable)),
        tells(probe_json(d), "\"writable\": "@, json_bool(d.writable)),
        tells(probe_json(d), "\"creatable\": "@, json_bool(d.creatable)),
        tells(probe_json(d), "\"detail\": "@, json_string(d.detail@)),
{
    broadcast use {told_on, told_here, told_first};

    assert(ends("{\"path\": "@, "\"path\": "@)) by {
        reveal_strlit("{\"path\": ");
        reveal_strlit("\"path\": ");
        assert("{\"path\": "@.skip("{\"path\": "@.len() - "\"path\": "@.len()) =~= "\"path\": "@);
    }
    assert(ends(", \"computer\": "@, "\"computer\": "@)) by {
        reveal_strlit(", \"computer\": ");
        reveal_strlit("\"computer\": ");
        assert(", \"computer\": "@.skip(", \"computer\": "@.len() - "\"computer\": "@.len()) =~= "\"computer\": "@);
    }
    assert(ends(", \"exists\": "@, "\"exists\": "@)) by {
        reveal_strlit(", \"exists\": ");
        reveal_strlit("\"exists\": ");
        assert(", \"exists\": "@.skip(", \"exists\": "@.len() - "\"exists\": "@.len()) =~= "\"exists\": "@);
    }
    assert(ends(", \"readable\": "@, "\"readable\": "@)) by {
        reveal_strlit(", \"readable\": ");
        reveal_strlit("\"readable\": ");
        assert(", \"readable\": "@.skip(", \"readable\": "@.len() - "\"readable\": "@.len()) =~= "\"readable\": "@);
    }
    assert(ends(", \"writable\": "@, "\"writable\": "@)) by {
        reveal_strlit(", \"writable\": ");
        reveal_strlit("\"writable\": ");
        assert(", \"writable\": "@.skip(", \"writable\": "@.len() - "\"writable\": "@.len()) =~= "\"writable\": "@);
    }
    assert(ends(", \"creatable\": "@, "\"creatable\": "@)) by {
        reveal_strlit(", \"creatable\": ");
        reveal_strlit("\"creatable\": ");
        assert(", \"creatable\": "@.skip(", \"creatable\": "@.len() - "\"creatable\": "@.len()) =~= "\"creatable\": "@);
    }
    assert(ends(", \"detail\": "@, "\"detail\": "@)) by {
        reveal_strlit(", \"detail\": ");
        reveal_strlit("\"detail\": ");
        assert(", \"detail\": "@.skip(", \"detail\": "@.len() - "\"detail\": "@.len()) =~= "\"detail\": "@);
    }
}

/// In the document of a permission views each field holds what it is named after.
pub proof fn permission_views_tells_its_fields(d: PermissionViews)
    ensures
        tells(permission_views_json(d), "\"path\":"@, json_string(path_text(d.path@))),
        tells(permission_views_json(d), "\"computer\":"@, json_opt(opt_text(d.computer))),
        tells(permission_views_json(d), "\"views\":["@, permission_items(d.views@)),
        tells(permission_views_json(d), "\"failures\":["@, pair_items("view"@, "error"@, d.failures@)),
{
    broadcast use {told_on, told_here, told_first};

    assert(ends("{\"path\":"@, "\"path\":"@)) by {
        reveal_strlit("{\"path\":");
        reveal_strlit("\"path\":");
        assert("{\"path\":"@.skip("{\"path\":"@.len() - "\"path\":"@.len()) =~= "\"path\":"@);
    }
    assert(ends(",\"computer\":"@, "\"computer\":"@)) by {
        reveal_strlit(",\"computer\":");
        reveal_strlit("\"computer\":");
        assert(",\"computer\":"@.skip(",\"computer\":"@.len() - "\"computer\":"@.len()) =~= "\"computer\":"@);
    }
    assert(ends(",\"views\":["@, "\"views\":["@)) by {
        reveal_strlit(",\"views\":[");
        reveal_strlit("\"views\":[");
        assert(",\"views\":["@.skip(",\"views\":["@.len() - "\"views\":["@.len()) =~= "\"views\":["@);
    }
    assert(ends("],\"failures\":["@, "\"failures\":["@)) by {
        reveal_strlit("],\"failures\":[");
        reveal_strlit("\"failures\":[");
        assert("],\"failures\":["@.skip("],\"failures\":["@.len() - "\"failures\":["@.len()) =~= "\"failures\":["@);
    }
}

/// In the document of a permission comparison each field holds what it is named after.
pub proof fn permission_comparison_tells_its_fields(d: PermissionComparison)
    ensures
        tells(permission_comparison_json(d), "\"view\":"@, json_string(d.view@)),
        tells(permission_comparison_json(d), "\"equal\":"@, json_bool(equal_permissions(d.source, d.target))),
        tells(permission_comparison_json(d), "\"differences\":["@, difference_items(d.source, d.target)),
        tells(permission_comparison_json(d), "\"source\":"@, permission_json(d.source)),
        tells(permission_comparison_json(d), "\"target\":"@, permission_json(d.target)),
{
    broadcast use {told_on, told_here, told_first};

    assert(ends("{\"view\":"@, "\"view\":"@)) by {
        reveal_strlit("{\"view\":");
        reveal_strlit("\"view\":");
        assert("{\"view\":"@.skip("{\"view\":"@.len() - "\"view\":"@.len()) =~= "\"view\":"@);
    }
    assert(ends(",\"equal\":"@, "\"equal\":"@)) by {
        reveal_strlit(",\"equal\":");
        reveal_strlit("\"equal\":");
        assert(",\"equal\":"@.skip(",\"equal\":"@.len() - "\"equal\":"@.len()) =~= "\"equal\":"@);
    }
    assert(ends(",\"differences\":["@, "\"differences\":["@)) by {
        reveal_strlit(",\"differences\":[");
        reveal_strlit("\"differences\":[");
        assert(",\"differences\":["@.skip(",\"differences\":["@.len() - "\"differences\":["@.len()) =~= "\"differences\":["@);
    }
    assert(ends("],\"source\":"@, "\"source\":"@)) by {
        reveal_strlit("],\"source\":");
        reveal_strlit("\"source\":");
        assert("],\"source\":"@.skip("],\"source\":"@.len() - "\"source\":"@.len()) =~= "\"source\":"@);
    }
    assert(ends(",\"target\":"@, "\"target\":"@)) by {
        reveal_strlit(",\"target\":");
        reveal_strlit("\"target\":");
        assert(",\"target\":"@.skip(",\"target\":"@.len() - "\"target\":"@.len()) =~= "\"target\":"@);
    }
}

/// In the document of a side error each field holds what it is named after.
pub proof fn side_error_tells_its_fields(d: SideError)
    ensures
        tells(side_error_json(d), "\"side\":"@, json_string(d.side@)),
        tells(side_error_json(d), "\"view\":"@, json_string(d.view@)),
        tells(side_error_json(d), "\"error\":"@, json_string(d.error@)),
{
    broadcast use {told_on, told_here, told_first};

    assert(ends("{\"side\":"@, "\"side\":"@)) by {
        reveal_strlit("{\"side\":");
        reveal_strlit("\"side\":");
        assert("{\"side\":"@.skip("{\"side\":"@.len() - "\"side\":"@.len()) =~= "\"side\":"@);
    }
    assert(ends(",\"view\":"@, "\"view\":"@)) by {
        reveal_strlit(",\"view\":");
        reveal_strlit("\"view\":");
        assert(",\"view\":"@.skip(",\"view\":"@.len() - "\"view\":"@.len()) =~= "\"view\":"@);
    }
    assert(ends(",\"error\":"@, "\"error\":"@)) by {
        reveal_strlit(",\"error\":");
        reveal_strlit("\"error\":");
        assert(",\"error\":"@.skip(",\"error\":"@.len() - "\"error\":"@.len()) =~= "\"error\":"@);
    }
}

/// In the document of a permission comparisons each field holds what it is named after.
pub proof fn permission_comparisons_tells_its_fields(d: PermissionComparisons)
    ensures
        tells(permission_comparisons_json(d), "\"sourcePath\":"@, json_string(path_text(d.source_path@))),
        tells(permission_comparisons_json(d), "\"sourceComputer\":"@, json_opt(opt_text(d.source_computer))),
        tells(permission_comparisons_json(d), "\"targetPath\":"@, json_string(path_text(d.target_path@))),
        tells(permission_comparisons_json(d), "\"targetComputer\":"@, json_opt(opt_text(d.target_computer))),
        tells(permission_comparisons_json(d), "\"equal\":"@, json_bool(d.equal)),
        tells(permission_comparisons_json(d), "\"views\":["@, permission_comparison_items(d.views@)),
        tells(permission_comparisons_json(d), "\"failures\":["@, side_error_items(d.failures@)),
{
    broadcast use {told_on, told_here, told_first};

    assert(ends("{\"sourcePath\":"@, "\"sourcePath\":"@)) by {
        reveal_strlit("{\"sourcePath\":");
        reveal_strlit("\"sourcePath\":");
        assert("{\"sourcePath\":"@.skip("{\"sourcePath\":"@.len() - "\"sourcePath\":"@.len()) =~= "\"sourcePath\":"@);
    }
    assert(ends(",\"sourceComputer\":"@, "\"sourceComputer\":"@)) by {
        reveal_strlit(",\"sourceComputer\":");
        reveal_strlit("\"sourceComputer\":");
        assert(",\"sourceComputer\":"@.skip(",\"sourceComputer\":"@.len() - "\"sourceComputer\":"@.len()) =~= "\"sourceComputer\":"@);
    }
    assert(ends(",\"targetPath\":"@, "\"targetPath\":"@)) by {
        reveal_strlit(",\"targetPath\":");
        reveal_strlit("\"targetPath\":");
        assert(",\"targetPath\":"@.skip(",\"targetPath\":"@.len() - "\"targetPath\":"@.len()) =~= "\"targetPath\":"@);
    }
    assert(ends(",\"targetComputer\":"@, "\"targetComputer\":"@)) by {
        reveal_strlit(",\"targetComputer\":");
        reveal_strlit("\"targetComputer\":");
        assert(",\"targetComputer\":"@.skip(",\"targetComputer\":"@.len() - "\"targetComputer\":"@.len()) =~= "\"targetComputer\":"@);
    }
    assert(ends(",\"equal\":"@, "\"equal\":"@)) by {
        reveal_strlit(",\"equal\":");
        reveal_strlit("\"equal\":");
        assert(",\"equal\":"@.skip(",\"equal\":"@.len() - "\"equal\":"@.len()) =~= "\"equal\":"@);
    }
    assert(ends(",\"views\":["@, "\"views\":["@)) by {
        reveal_strlit(",\"views\":[");
        reveal_strlit("\"views\":[");
        assert(",\"views\":["@.skip(",\"views\":["@.len() - "\"views\":["@.len()) =~= "\"views\":["@);
    }
    assert(ends("],\"failures\":["@, "\"failures\":["@)) by {
        reveal_strlit("],\"failures\":[");
        reveal_strlit("\"failures\":[");
        assert("],\"failures\":["@.skip("],\"failures\":["@.len() - "\"failures\":["@.len()) =~= "\"failures\":["@);
    }
}

} // verus!
