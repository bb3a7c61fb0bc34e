//! What the documents on changes tell, field by field.
use vstd::prelude::*;

use crate::apply::{ApplyReport, failure_json, opt_report_json, report_json};
use crate::audit::{Anchor, AnchorCheck, AnchorPlan, Break, ChainReport, LogReport, Rotation, RotationPlan, anchor_check_json, anchor_json, anchor_plan_json, chain_report_json, line_items, line_json, log_report_json, rotation_json, rotation_plan_json, segment_items, segment_json};
use crate::change_report::{AppliedCopyPlan, AppliedCopyPlans, AppliedPlanView, Backup, BackupView, BackupViews, BatchOperation, BatchReport, ChangeReport, CopyReport, CopyValueReport, CopyView, CopyViewsReport, ImportReport, Restore, RestoreView, RestoreViews, ResultReport, SavedCopyPlan, SavedSubtreePlan, SavedSubtreePlans, SavedValuePlans, SavedViewPlan, UndoFile, UndoReport, ViewApplied, ViewChange, ViewRedo, ViewResult, applied_copy_plan_json, applied_copy_plans_json, applied_plan_view_items, applied_plan_view_json, backup_json, backup_view_items, backup_view_json, backup_views_json, batch_operation_items, batch_operation_json, batch_report_json, change_report_json, copy_report_json, copy_value_report_json, copy_view_items, copy_view_json, copy_views_report_json, import_report_json, restore_json, restore_view_items, restore_view_json, restore_views_json, result_report_json, saved_copy_plan_items, saved_copy_plan_json, saved_subtree_plan_json, saved_subtree_plans_json, saved_value_plans_json, saved_view_plan_items, saved_view_plan_json, scope_name, undo_file_items, undo_file_json, undo_report_json, view_applied_items, view_applied_json, view_change_items, view_change_json, view_redo_items, view_redo_json, view_result_items, view_result_json};
use crate::json::{json_bool, json_list, json_opt, json_string};
use crate::model::{api_name, path_text};
use crate::number::{dec_of};
use crate::parts::{json_spaced, opt_api_json};
use crate::planning::{PlanReport, PlanViews, plan_report_json, plan_views_json, view_plan_items};
use crate::report::{pairs_json, plan_changes_json};
use crate::shortcut_changes::{action_json, destination, manifest_json, operation_name};
use crate::shortcut_manifest::{ActionView};
use crate::telling::{tells, told_first, told_here, told_on};
use crate::text::{ends, joined, opt_text, views};

verus! {

/// In the document of a failure each field holds what it is named after.
pub proof fn failure_tells_its_fields(f: (String, String))
    ensures
        tells(failure_json(f), "\"target\": "@, json_string(f.0@)),
        tells(failure_json(f), "\"problem\": "@, json_string(f.1@)),
{
    broadcast use {told_on, told_here, told_first};

    assert(ends("{\"target\": "@, "\"target\": "@)) by {
        reveal_strlit("{\"target\": ");
        reveal_strlit("\"target\": ");
        assert("{\"target\": "@.skip("{\"target\": "@.len() - "\"target\": "@.len()) =~= "\"target\": "@);
    }
    assert(ends(", \"problem\": "@, "\"problem\": "@)) by {
        reveal_strlit(", \"problem\": ");
        reveal_strlit("\"problem\": ");
        assert(", \"problem\": "@.skip(", \"problem\": "@.len() - "\"problem\": "@.len()) =~= "\"problem\": "@);
    }
}

/// In the document of a report each field holds what it is named after.
pub proof fn report_tells_its_fields(r: ApplyReport)
    ensures
        tells(report_json(r), "\"keysCreated\": "@, dec_of(r.keys_created as nat)),
        tells(report_json(r), "\"keysDeleted\": "@, dec_of(r.keys_deleted as nat)),
        tells(report_json(r), "\"valuesSet\": "@, dec_of(r.values_set as nat)),
        tells(report_json(r), "\"valuesDeleted\": "@, dec_of(r.values_deleted as nat)),
        tells(report_json(r), "\"failures\": ["@, joined(r.failures@.map_values(|f: (String, String)| failure_json(f)), ", "@)),
{
    broadcast use {told_on, told_here, told_first};

    assert(ends("{\"keysCreated\": "@, "\"keysCreated\": "@)) by {
        reveal_strlit("{\"keysCreated\": ");
        reveal_strlit("\"keysCreated\": ");
        assert("{\"keysCreated\": "@.skip("{\"keysCreated\": "@.len() - "\"keysCreated\": "@.len()) =~= "\"keysCreated\": "@);
    }
    assert(ends(", \"keysDeleted\": "@, "\"keysDeleted\": "@)) by {
        reveal_strlit(", \"keysDeleted\": ");
        reveal_strlit("\"keysDeleted\": ");
        assert(", \"keysDeleted\": "@.skip(", \"keysDeleted\": "@.len() - "\"keysDeleted\": "@.len()) =~= "\"keysDeleted\": "@);
    }
    assert(ends(", \"valuesSet\": "@, "\"valuesSet\": "@)) by {
        reveal_strlit(", \"valuesSet\": ");
        reveal_strlit("\"valuesSet\": ");
        assert(", \"valuesSet\": "@.skip(", \"valuesSet\": "@.len() - "\"valuesSet\": "@.len()) =~= "\"valuesSet\": "@);
    }
    assert(ends(", \"valuesDeleted\": "@, "\"valuesDeleted\": "@)) by {
        reveal_strlit(", \"valuesDeleted\": ");
        reveal_strlit("\"valuesDeleted\": ");
        assert(", \"valuesDeleted\": "@.skip(", \"valuesDeleted\": "@.len() - "\"valuesDeleted\": "@.len()) =~= "\"valuesDeleted\": "@);
    }
    assert(ends(", \"failures\": ["@, "\"failures\": ["@)) by {
        reveal_strlit(", \"failures\": [");
        reveal_strlit("\"failures\": [");
        assert(", \"failures\": ["@.skip(", \"failures\": ["@.len() - "\"failures\": ["@.len()) =~= "\"failures\": ["@);
    }
}

/// In the document of a segment each field holds what it is named after.
pub proof fn segment_tells_its_fields(b: Break)
    ensures
        tells(segment_json(b), "\"segment\":"@, dec_of(b.place as nat)),
        tells(segment_json(b), "\"problem\":"@, json_string(b.problem@)),
{
    broadcast use {told_on, told_here, told_first};

    assert(ends("{\"segment\":"@, "\"segment\":"@)) by {
        reveal_strlit("{\"segment\":");
        reveal_strlit("\"segment\":");
        assert("{\"segment\":"@.skip("{\"segment\":"@.len() - "\"segment\":"@.len()) =~= "\"segment\":"@);
    }
    assert(ends(",\"problem\":"@, "\"problem\":"@)) by {
        reveal_strlit(",\"problem\":");
        reveal_strlit("\"problem\":");
        assert(",\"problem\":"@.skip(",\"problem\":"@.len() - "\"problem\":"@.len()) =~= "\"problem\":"@);
    }
}

/// In the document of a line each field holds what it is named after.
pub proof fn line_tells_its_fields(b: Break)
    ensures
        tells(line_json(b), "\"line\": "@, dec_of(b.place as nat)),
        tells(line_json(b), "\"problem\": "@, json_string(b.problem@)),
{
    broadcast use {told_on, told_here, told_first};

    assert(ends("    {\"line\": "@, "\"line\": "@)) by {
        reveal_strlit("    {\"line\": ");
        reveal_strlit("\"line\": ");
        assert("    {\"line\": "@.skip("    {\"line\": "@.len() - "\"line\": "@.len()) =~= "\"line\": "@);
    }
    assert(ends(", \"problem\": "@, "\"problem\": "@)) by {
        reveal_strlit(", \"problem\": ");
        reveal_strlit("\"problem\": ");
        assert(", \"problem\": "@.skip(", \"problem\": "@.len() - "\"problem\": "@.len()) =~= "\"problem\": "@);
    }
}

/// In the document of a rotation plan each field holds what it is named after.
pub proof fn rotation_plan_tells_its_fields(d: RotationPlan)
    ensures
        tells(rotation_plan_json(d), "\"file\":"@, json_string(d.file@)),
        tells(rotation_plan_json(d), "\"archive\":"@, json_string(d.archive@)),
        tells(rotation_plan_json(d), "\"records\":"@, dec_of(d.records as nat)),
{
    broadcast use {told_on, told_here, told_first};

    assert(ends("{\"file\":"@, "\"file\":"@)) by {
        reveal_strlit("{\"file\":");
        reveal_strlit("\"file\":");
        assert("{\"file\":"@.skip("{\"file\":"@.len() - "\"file\":"@.len()) =~= "\"file\":"@);
    }
    assert(ends(",\"archive\":"@, "\"archive\":"@)) by {
        reveal_strlit(",\"archive\":");
        reveal_strlit("\"archive\":");
        assert(",\"archive\":"@.skip(",\"archive\":"@.len() - "\"archive\":"@.len()) =~= "\"archive\":"@);
    }
    assert(ends(",\"dryRun\":true,\"records\":"@, "\"records\":"@)) by {
        reveal_strlit(",\"dryRun\":true,\"records\":");
        reveal_strlit("\"records\":");
        assert(",\"dryRun\":true,\"records\":"@.skip(",\"dryRun\":true,\"records\":"@.len() - "\"records\":"@.len()) =~= "\"records\":"@);
    }
}

/// In the document of a rotation each field holds what it is named after.
pub proof fn rotation_tells_its_fields(d: Rotation)
    ensures
        tells(rotation_json(d), "\"file\":"@, json_string(d.file@)),
        tells(rotation_json(d), "\"archive\":"@, json_string(d.archive@)),
        tells(rotation_json(d), "\"records\":"@, dec_of(d.records as nat)),
        tells(rotation_json(d), "\"previousHash\":"@, json_string(d.previous_hash@)),
        tells(rotation_json(d), "\"archiveBytes\":"@, dec_of(d.archive_bytes as nat)),
        tells(rotation_json(d), "\"archiveSha256\":"@, json_string(d.archive_sha256@)),
{
    broadcast use {told_on, told_here, told_first};

    assert(ends("{\"file\":"@, "\"file\":"@)) by {
        reveal_strlit("{\"file\":");
        reveal_strlit("\"file\":");
        assert("{\"file\":"@.skip("{\"file\":"@.len() - "\"file\":"@.len()) =~= "\"file\":"@);
    }
    assert(ends(",\"archive\":"@, "\"archive\":"@)) by {
        reveal_strlit(",\"archive\":");
        reveal_strlit("\"archive\":");
        assert(",\"archive\":"@.skip(",\"archive\":"@.len() - "\"archive\":"@.len()) =~= "\"archive\":"@);
    }
    assert(ends(",\"dryRun\":false,\"records\":"@, "\"records\":"@)) by {
        reveal_strlit(",\"dryRun\":false,\"records\":");
        reveal_strlit("\"records\":");
        assert(",\"dryRun\":false,\"records\":"@.skip(",\"dryRun\":false,\"records\":"@.len() - "\"records\":"@.len()) =~= "\"records\":"@);
    }
    assert(ends(",\"previousHash\":"@, "\"previousHash\":"@)) by {
        reveal_strlit(",\"previousHash\":");
        reveal_strlit("\"previousHash\":");
        assert(",\"previousHash\":"@.skip(",\"previousHash\":"@.len() - "\"previousHash\":"@.len()) =~= "\"previousHash\":"@);
    }
    assert(ends(",\"archiveBytes\":"@, "\"archiveBytes\":"@)) by {
        reveal_strlit(",\"archiveBytes\":");
        reveal_strlit("\"archiveBytes\":");
        assert(",\"archiveBytes\":"@.skip(",\"archiveBytes\":"@.len() - "\"archiveBytes\":"@.len()) =~= "\"archiveBytes\":"@);
    }
    assert(ends(",\"archiveSha256\":"@, "\"archiveSha256\":"@)) by {
        reveal_strlit(",\"archiveSha256\":");
        reveal_strlit("\"archiveSha256\":");
        assert(",\"archiveSha256\":"@.skip(",\"archiveSha256\":"@.len() - "\"archiveSha256\":"@.len()) =~= "\"archiveSha256\":"@);
    }
}

/// In the document of a chain report each field holds what it is named after.
pub proof fn chain_report_tells_its_fields(d: ChainReport)
    ensures
        tells(chain_report_json(d), "\"files\":["@, json_list(views(d.files@))),
        tells(chain_report_json(d), "\"records\":"@, dec_of(d.verification.records as nat)),
        tells(chain_report_json(d), "\"sessions\":"@, dec_of(d.verification.sessions as nat)),
        tells(chain_report_json(d), "\"intact\":"@, json_bool(d.verification.broken@.len() == 0)),
        tells(chain_report_json(d), "\"broken\":["@, segment_items(d.verification.broken@)),
{
    broadcast use {told_on, told_here, told_first};

    assert(ends("{\"files\":["@, "\"files\":["@)) by {
        reveal_strlit("{\"files\":[");
        reveal_strlit("\"files\":[");
        assert("{\"files\":["@.skip("{\"files\":["@.len() - "\"files\":["@.len()) =~= "\"files\":["@);
    }
    assert(ends("],\"records\":"@, "\"records\":"@)) by {
        reveal_strlit("],\"records\":");
        reveal_strlit("\"records\":");
        assert("],\"records\":"@.skip("],\"records\":"@.len() - "\"records\":"@.len()) =~= "\"records\":"@);
    }
    assert(ends(",\"sessions\":"@, "\"sessions\":"@)) by {
        reveal_strlit(",\"sessions\":");
        reveal_strlit("\"sessions\":");
        assert(",\"sessions\":"@.skip(",\"sessions\":"@.len() - "\"sessions\":"@.len()) =~= "\"sessions\":"@);
    }
    assert(ends(",\"intact\":"@, "\"intact\":"@)) by {
        reveal_strlit(",\"intact\":");
        reveal_strlit("\"intact\":");
        assert(",\"intact\":"@.skip(",\"intact\":"@.len() - "\"intact\":"@.len()) =~= "\"intact\":"@);
    }
    assert(ends(",\"broken\":["@, "\"broken\":["@)) by {
        reveal_strlit(",\"broken\":[");
        reveal_strlit("\"broken\":[");
        assert(",\"broken\":["@.skip(",\"broken\":["@.len() - "\"broken\":["@.len()) =~= "\"broken\":["@);
    }
}

/// In the document of an anchor plan each field holds what it is named after.
pub proof fn anchor_plan_tells_its_fields(d: AnchorPlan)
    ensures
        tells(anchor_plan_json(d), "\"file\":"@, json_string(d.file@)),
        tells(anchor_plan_json(d), "\"anchor\":"@, json_string(d.anchor@)),
        tells(anchor_plan_json(d), "\"records\":"@, dec_of(d.records as nat)),
        tells(anchor_plan_json(d), "\"signed\":"@, json_bool(d.signed)),
{
    broadcast use {told_on, told_here, told_first};

    assert(ends("{\"file\":"@, "\"file\":"@)) by {
        reveal_strlit("{\"file\":");
        reveal_strlit("\"file\":");
        assert("{\"file\":"@.skip("{\"file\":"@.len() - "\"file\":"@.len()) =~= "\"file\":"@);
    }
    assert(ends(",\"anchor\":"@, "\"anchor\":"@)) by {
        reveal_strlit(",\"anchor\":");
        reveal_strlit("\"anchor\":");
        assert(",\"anchor\":"@.skip(",\"anchor\":"@.len() - "\"anchor\":"@.len()) =~= "\"anchor\":"@);
    }
    assert(ends(",\"dryRun\":true,\"records\":"@, "\"records\":"@)) by {
        reveal_strlit(",\"dryRun\":true,\"records\":");
        reveal_strlit("\"records\":");
        assert(",\"dryRun\":true,\"records\":"@.skip(",\"dryRun\":true,\"records\":"@.len() - "\"records\":"@.len()) =~= "\"records\":"@);
    }
    assert(ends(",\"signed\":"@, "\"signed\":"@)) by {
        reveal_strlit(",\"signed\":");
        reveal_strlit("\"signed\":");
        assert(",\"signed\":"@.skip(",\"signed\":"@.len() - "\"signed\":"@.len()) =~= "\"signed\":"@);
    }
}

/// In the document of an anchor each field holds what it is named after.
pub proof fn anchor_tells_its_fields(d: Anchor)
    ensures
        tells(anchor_json(d), "\"file\":"@, json_string(d.file@)),
        tells(anchor_json(d), "\"anchor\":"@, json_string(d.anchor@)),
        tells(anchor_json(d), "\"records\":"@, dec_of(d.records as nat)),
        tells(anchor_json(d), "\"sha256\":"@, json_string(d.sha256@)),
        tells(anchor_json(d), "\"tailHash\":"@, json_string(d.tail_hash@)),
        tells(anchor_json(d), "\"signed\":"@, json_bool(d.signed)),
        tells(anchor_json(d), "\"anchorBytes\":"@, dec_of(d.anchor_bytes as nat)),
        tells(anchor_json(d), "\"anchorSha256\":"@, json_string(d.anchor_sha256@)),
{
    broadcast use {told_on, told_here, told_first};

    assert(ends("{\"file\":"@, "\"file\":"@)) by {
        reveal_strlit("{\"file\":");
        reveal_strlit("\"file\":");
        assert("{\"file\":"@.skip("{\"file\":"@.len() - "\"file\":"@.len()) =~= "\"file\":"@);
    }
    assert(ends(",\"anchor\":"@, "\"anchor\":"@)) by {
        reveal_strlit(",\"anchor\":");
        reveal_strlit("\"anchor\":");
        assert(",\"anchor\":"@.skip(",\"anchor\":"@.len() - "\"anchor\":"@.len()) =~= "\"anchor\":"@);
    }
    assert(ends(",\"dryRun\":false,\"records\":"@, "\"records\":"@)) by {
        reveal_strlit(",\"dryRun\":false,\"records\":");
        reveal_strlit("\"records\":");
        assert(",\"dryRun\":false,\"records\":"@.skip(",\"dryRun\":false,\"records\":"@.len() - "\"records\":"@.len()) =~= "\"records\":"@);
    }
    assert(ends(",\"sha256\":"@, "\"sha256\":"@)) by {
        reveal_strlit(",\"sha256\":");
        reveal_strlit("\"sha256\":");
        assert(",\"sha256\":"@.skip(",\"sha256\":"@.len() - "\"sha256\":"@.len()) =~= "\"sha256\":"@);
    }
    assert(ends(",\"tailHash\":"@, "\"tailHash\":"@)) by {
        reveal_strlit(",\"tailHash\":");
        reveal_strlit("\"tailHash\":");
        assert(",\"tailHash\":"@.skip(",\"tailHash\":"@.len() - "\"tailHash\":"@.len()) =~= "\"tailHash\":"@);
    }
    assert(ends(",\"signed\":"@, "\"signed\":"@)) by {
        reveal_strlit(",\"signed\":");
        reveal_strlit("\"signed\":");
        assert(",\"signed\":"@.skip(",\"signed\":"@.len() - "\"signed\":"@.len()) =~= "\"signed\":"@);
    }
    assert(ends(",\"anchorBytes\":"@, "\"anchorBytes\":"@)) by {
        reveal_strlit(",\"anchorBytes\":");
        reveal_strlit("\"anchorBytes\":");
        assert(",\"anchorBytes\":"@.skip(",\"anchorBytes\":"@.len() - "\"anchorBytes\":"@.len()) =~= "\"anchorBytes\":"@);
    }
    assert(ends(",\"anchorSha256\":"@, "\"anchorSha256\":"@)) by {
        reveal_strlit(",\"anchorSha256\":");
        reveal_strlit("\"anchorSha256\":");
        assert(",\"anchorSha256\":"@.skip(",\"anchorSha256\":"@.len() - "\"anchorSha256\":"@.len()) =~= "\"anchorSha256\":"@);
    }
}

/// In the document of an anchor check each field holds what it is named after.
pub proof fn anchor_check_tells_its_fields(d: AnchorCheck)
    ensures
        tells(anchor_check_json(d), "\"file\":"@, json_string(d.file@)),
        tells(anchor_check_json(d), "\"anchor\":"@, json_string(d.anchor@)),
        tells(anchor_check_json(d), "\"records\":"@, dec_of(d.records as nat)),
        tells(anchor_check_json(d), "\"chainIntact\":"@, json_bool(d.chain_intact)),
        tells(anchor_check_json(d), "\"anchorMatches\":"@, json_bool(d.anchor_matches)),
        tells(anchor_check_json(d), "\"intact\":"@, json_bool(d.chain_intact && d.anchor_matches)),
        tells(anchor_check_json(d), "\"expectedSha256\":"@, json_string(d.expected_sha256@)),
        tells(anchor_check_json(d), "\"actualSha256\":"@, json_string(d.actual_sha256@)),
        tells(anchor_check_json(d), "\"expectedTailHash\":"@, json_string(d.expected_tail@)),
        tells(anchor_check_json(d), "\"actualTailHash\":"@, json_string(d.actual_tail@)),
        tells(anchor_check_json(d), "\"signed\":"@, json_bool(d.signed)),
        tells(anchor_check_json(d), "\"signatureValid\":"@, json_bool(d.signed)),
{
    broadcast use {told_on, told_here, told_first};

    assert(ends("{\"file\":"@, "\"file\":"@)) by {
        reveal_strlit("{\"file\":");
        reveal_strlit("\"file\":");
        assert("{\"file\":"@.skip("{\"file\":"@.len() - "\"file\":"@.len()) =~= "\"file\":"@);
    }
    assert(ends(",\"anchor\":"@, "\"anchor\":"@)) by {
        reveal_strlit(",\"anchor\":");
        reveal_strlit("\"anchor\":");
        assert(",\"anchor\":"@.skip(",\"anchor\":"@.len() - "\"anchor\":"@.len()) =~= "\"anchor\":"@);
    }
    assert(ends(",\"records\":"@, "\"records\":"@)) by {
        reveal_strlit(",\"records\":");
        reveal_strlit("\"records\":");
        assert(",\"records\":"@.skip(",\"records\":"@.len() - "\"records\":"@.len()) =~= "\"records\":"@);
    }
    assert(ends(",\"chainIntact\":"@, "\"chainIntact\":"@)) by {
        reveal_strlit(",\"chainIntact\":");
        reveal_strlit("\"chainIntact\":");
        assert(",\"chainIntact\":"@.skip(",\"chainIntact\":"@.len() - "\"chainIntact\":"@.len()) =~= "\"chainIntact\":"@);
    }
    assert(ends(",\"anchorMatches\":"@, "\"anchorMatches\":"@)) by {
        reveal_strlit(",\"anchorMatches\":");
        reveal_strlit("\"anchorMatches\":");
        assert(",\"anchorMatches\":"@.skip(",\"anchorMatches\":"@.len() - "\"anchorMatches\":"@.len()) =~= "\"anchorMatches\":"@);
    }
    assert(ends(",\"intact\":"@, "\"intact\":"@)) by {
        reveal_strlit(",\"intact\":");
        reveal_strlit("\"intact\":");
        assert(",\"intact\":"@.skip(",\"intact\":"@.len() - "\"intact\":"@.len()) =~= "\"intact\":"@);
    }
    assert(ends(",\"expectedSha256\":"@, "\"expectedSha256\":"@)) by {
        reveal_strlit(",\"expectedSha256\":");
        reveal_strlit("\"expectedSha256\":");
        assert(",\"expectedSha256\":"@.skip(",\"expectedSha256\":"@.len() - "\"expectedSha256\":"@.len()) =~= "\"expectedSha256\":"@);
    }
    assert(ends(",\"actualSha256\":"@, "\"actualSha256\":"@)) by {
        reveal_strlit(",\"actualSha256\":");
        reveal_strlit("\"actualSha256\":");
        assert(",\"actualSha256\":"@.skip(",\"actualSha256\":"@.len() - "\"actualSha256\":"@.len()) =~= "\"actualSha256\":"@);
    }
    assert(ends(",\"expectedTailHash\":"@, "\"expectedTailHash\":"@)) by {
        reveal_strlit(",\"expectedTailHash\":");
        reveal_strlit("\"expectedTailHash\":");
        assert(",\"expectedTailHash\":"@.skip(",\"expectedTailHash\":"@.len() - "\"expectedTailHash\":"@.len()) =~= "\"expectedTailHash\":"@);
    }
    assert(ends(",\"actualTailHash\":"@, "\"actualTailHash\":"@)) by {
        reveal_strlit(",\"actualTailHash\":");
        reveal_strlit("\"actualTailHash\":");
        assert(",\"actualTailHash\":"@.skip(",\"actualTailHash\":"@.len() - "\"actualTailHash\":"@.len()) =~= "\"actualTailHash\":"@);
    }
    assert(ends(",\"signed\":"@, "\"signed\":"@)) by {
        reveal_strlit(",\"signed\":");
        reveal_strlit("\"signed\":");
        assert(",\"signed\":"@.skip(",\"signed\":"@.len() - "\"signed\":"@.len()) =~= "\"signed\":"@);
    }
    assert(ends(",\"signatureValid\":"@, "\"signatureValid\":"@)) by {
        reveal_strlit(",\"signatureValid\":");
        reveal_strlit("\"signatureValid\":");
        assert(",\"signatureValid\":"@.skip(",\"signatureValid\":"@.len() - "\"signatureValid\":"@.len()) =~= "\"signatureValid\":"@);
    }
}

/// In the document of a log report each field holds what it is named after.
pub proof fn log_report_tells_its_fields(d: LogReport)
    ensures
        tells(log_report_json(d), "\"file\": "@, json_string(d.file@)),
        tells(log_report_json(d), "\"records\": "@, dec_of(d.verification.records as nat)),
        tells(log_report_json(d), "\"sessions\": "@, dec_of(d.verification.sessions as nat)),
        tells(log_report_json(d), "\"intact\": "@, json_bool(d.verification.broken@.len() == 0)),
        tells(log_report_json(d), "\"broken\": [\n"@, line_items(d.verification.broken@)),
{
    broadcast use {told_on, told_here, told_first};

    assert(ends("{\n  \"file\": "@, "\"file\": "@)) by {
        reveal_strlit("{\n  \"file\": ");
        reveal_strlit("\"file\": ");
        assert("{\n  \"file\": "@.skip("{\n  \"file\": "@.len() - "\"file\": "@.len()) =~= "\"file\": "@);
    }
    assert(ends(",\n  \"records\": "@, "\"records\": "@)) by {
        reveal_strlit(",\n  \"records\": ");
        reveal_strlit("\"records\": ");
        assert(",\n  \"records\": "@.skip(",\n  \"records\": "@.len() - "\"records\": "@.len()) =~= "\"records\": "@);
    }
    assert(ends(",\n  \"sessions\": "@, "\"sessions\": "@)) by {
        reveal_strlit(",\n  \"sessions\": ");
        reveal_strlit("\"sessions\": ");
        assert(",\n  \"sessions\": "@.skip(",\n  \"sessions\": "@.len() - "\"sessions\": "@.len()) =~= "\"sessions\": "@);
    }
    assert(ends(",\n  \"intact\": "@, "\"intact\": "@)) by {
        reveal_strlit(",\n  \"intact\": ");
        reveal_strlit("\"intact\": ");
        assert(",\n  \"intact\": "@.skip(",\n  \"intact\": "@.len() - "\"intact\": "@.len()) =~= "\"intact\": "@);
    }
    assert(ends(",\n  \"broken\": [\n"@, "\"broken\": [\n"@)) by {
        reveal_strlit(",\n  \"broken\": [\n");
        reveal_strlit("\"broken\": [\n");
        assert(",\n  \"broken\": [\n"@.skip(",\n  \"broken\": [\n"@.len() - "\"broken\": [\n"@.len()) =~= "\"broken\": [\n"@);
    }
}

/// In the document of a view change each field holds what it is named after.
pub proof fn view_change_tells_its_fields(d: ViewChange)
    ensures
        tells(view_change_json(d), "\"view\":"@, json_string(d.view@)),
        tells(view_change_json(d), "\"undo\":"@, json_opt(opt_text(d.undo))),
        tells(view_change_json(d), "\"apply\":"@, opt_report_json(d.applied)),
        tells(view_change_json(d), "\"rolledBack\":"@, json_bool(d.rollback is Some)),
        tells(view_change_json(d), "\"rollback\":"@, opt_report_json(d.rollback)),
{
    broadcast use {told_on, told_here, told_first};

    assert(ends("{\"view\":"@, "\"view\":"@)) by {
        reveal_strlit("{\"view\":");
        reveal_strlit("\"view\":");
        assert("{\"view\":"@.skip("{\"view\":"@.len() - "\"view\":"@.len()) =~= "\"view\":"@);
    }
    assert(ends(",\"undo\":"@, "\"undo\":"@)) by {
        reveal_strlit(",\"undo\":");
        reveal_strlit("\"undo\":");
        assert(",\"undo\":"@.skip(",\"undo\":"@.len() - "\"undo\":"@.len()) =~= "\"undo\":"@);
    }
    assert(ends(",\"apply\":"@, "\"apply\":"@)) by {
        reveal_strlit(",\"apply\":");
        reveal_strlit("\"apply\":");
        assert(",\"apply\":"@.skip(",\"apply\":"@.len() - "\"apply\":"@.len()) =~= "\"apply\":"@);
    }
    assert(ends(",\"rolledBack\":"@, "\"rolledBack\":"@)) by {
        reveal_strlit(",\"rolledBack\":");
        reveal_strlit("\"rolledBack\":");
        assert(",\"rolledBack\":"@.skip(",\"rolledBack\":"@.len() - "\"rolledBack\":"@.len()) =~= "\"rolledBack\":"@);
    }
    assert(ends(",\"rollback\":"@, "\"rollback\":"@)) by {
        reveal_strlit(",\"rollback\":");
        reveal_strlit("\"rollback\":");
        assert(",\"rollback\":"@.skip(",\"rollback\":"@.len() - "\"rollback\":"@.len()) =~= "\"rollback\":"@);
    }
}

/// In the document of an import report each field holds what it is named after.
pub proof fn import_report_tells_its_fields(d: ImportReport)
    ensures
        tells(import_report_json(d), "\"atomic\":"@, json_bool(d.atomic)),
        tells(import_report_json(d), "\"views\":["@, view_change_items(d.views@)),
{
    broadcast use {told_on, told_here, told_first};

    assert(ends("{\"atomic\":"@, "\"atomic\":"@)) by {
        reveal_strlit("{\"atomic\":");
        reveal_strlit("\"atomic\":");
        assert("{\"atomic\":"@.skip("{\"atomic\":"@.len() - "\"atomic\":"@.len()) =~= "\"atomic\":"@);
    }
    assert(ends(",\"views\":["@, "\"views\":["@)) by {
        reveal_strlit(",\"views\":[");
        reveal_strlit("\"views\":[");
        assert(",\"views\":["@.skip(",\"views\":["@.len() - "\"views\":["@.len()) =~= "\"views\":["@);
    }
}

/// In the document of a change report each field holds what it is named after.
pub proof fn change_report_tells_its_fields(d: ChangeReport)
    ensures
        tells(change_report_json(d), "\"views\":["@, view_change_items(d.views@)),
{
    broadcast use {told_on, told_here, told_first};

    assert(ends("{\"views\":["@, "\"views\":["@)) by {
        reveal_strlit("{\"views\":[");
        reveal_strlit("\"views\":[");
        assert("{\"views\":["@.skip("{\"views\":["@.len() - "\"views\":["@.len()) =~= "\"views\":["@);
    }
}

/// In the document of a view result each field holds what it is named after.
pub proof fn view_result_tells_its_fields(d: ViewResult)
    ensures
        tells(view_result_json(d), "\"view\":"@, json_string(d.view@)),
        tells(view_result_json(d), "\"apply\":"@, opt_report_json(d.applied)),
        tells(view_result_json(d), "\"rolledBack\":"@, json_bool(d.rollback is Some)),
        tells(view_result_json(d), "\"rollback\":"@, opt_report_json(d.rollback)),
{
    broadcast use {told_on, told_here, told_first};

    assert(ends("{\"view\":"@, "\"view\":"@)) by {
        reveal_strlit("{\"view\":");
        reveal_strlit("\"view\":");
        assert("{\"view\":"@.skip("{\"view\":"@.len() - "\"view\":"@.len()) =~= "\"view\":"@);
    }
    assert(ends(",\"undo\":null,\"undoBytes\":null,\"undoSha256\":null,\"apply\":"@, "\"apply\":"@)) by {
        reveal_strlit(",\"undo\":null,\"undoBytes\":null,\"undoSha256\":null,\"apply\":");
        reveal_strlit("\"apply\":");
        assert(",\"undo\":null,\"undoBytes\":null,\"undoSha256\":null,\"apply\":"@.skip(",\"undo\":null,\"undoBytes\":null,\"undoSha256\":null,\"apply\":"@.len() - "\"apply\":"@.len()) =~= "\"apply\":"@);
    }
    assert(ends(",\"rolledBack\":"@, "\"rolledBack\":"@)) by {
        reveal_strlit(",\"rolledBack\":");
        reveal_strlit("\"rolledBack\":");
        assert(",\"rolledBack\":"@.skip(",\"rolledBack\":"@.len() - "\"rolledBack\":"@.len()) =~= "\"rolledBack\":"@);
    }
    assert(ends(",\"rollback\":"@, "\"rollback\":"@)) by {
        reveal_strlit(",\"rollback\":");
        reveal_strlit("\"rollback\":");
        assert(",\"rollback\":"@.skip(",\"rollback\":"@.len() - "\"rollback\":"@.len()) =~= "\"rollback\":"@);
    }
}

/// In the document of a result report each field holds what it is named after.
pub proof fn result_report_tells_its_fields(d: ResultReport)
    ensures
        tells(result_report_json(d), "\"views\":["@, view_result_items(d.views@)),
{
    broadcast use {told_on, told_here, told_first};

    assert(ends("{\"views\":["@, "\"views\":["@)) by {
        reveal_strlit("{\"views\":[");
        reveal_strlit("\"views\":[");
        assert("{\"views\":["@.skip("{\"views\":["@.len() - "\"views\":["@.len()) =~= "\"views\":["@);
    }
}

/// In the document of a view redo each field holds what it is named after.
pub proof fn view_redo_tells_its_fields(d: ViewRedo)
    ensures
        tells(view_redo_json(d), "\"view\":"@, json_string(d.view@)),
        tells(view_redo_json(d), "\"redo\":"@, json_opt(opt_text(d.redo))),
        tells(view_redo_json(d), "\"apply\":"@, opt_report_json(d.applied)),
        tells(view_redo_json(d), "\"rolledBack\":"@, json_bool(d.rollback is Some)),
        tells(view_redo_json(d), "\"rollback\":"@, opt_report_json(d.rollback)),
{
    broadcast use {told_on, told_here, told_first};

    assert(ends("{\"view\":"@, "\"view\":"@)) by {
        reveal_strlit("{\"view\":");
        reveal_strlit("\"view\":");
        assert("{\"view\":"@.skip("{\"view\":"@.len() - "\"view\":"@.len()) =~= "\"view\":"@);
    }
    assert(ends(",\"redo\":"@, "\"redo\":"@)) by {
        reveal_strlit(",\"redo\":");
        reveal_strlit("\"redo\":");
        assert(",\"redo\":"@.skip(",\"redo\":"@.len() - "\"redo\":"@.len()) =~= "\"redo\":"@);
    }
    assert(ends(",\"apply\":"@, "\"apply\":"@)) by {
        reveal_strlit(",\"apply\":");
        reveal_strlit("\"apply\":");
        assert(",\"apply\":"@.skip(",\"apply\":"@.len() - "\"apply\":"@.len()) =~= "\"apply\":"@);
    }
    assert(ends(",\"rolledBack\":"@, "\"rolledBack\":"@)) by {
        reveal_strlit(",\"rolledBack\":");
        reveal_strlit("\"rolledBack\":");
        assert(",\"rolledBack\":"@.skip(",\"rolledBack\":"@.len() - "\"rolledBack\":"@.len()) =~= "\"rolledBack\":"@);
    }
    assert(ends(",\"rollback\":"@, "\"rollback\":"@)) by {
        reveal_strlit(",\"rollback\":");
        reveal_strlit("\"rollback\":");
        assert(",\"rollback\":"@.skip(",\"rollback\":"@.len() - "\"rollback\":"@.len()) =~= "\"rollback\":"@);
    }
}

/// In the document of an undo report each field holds what it is named after.
pub proof fn undo_report_tells_its_fields(d: UndoReport)
    ensures
        tells(undo_report_json(d), "\"views\":["@, view_redo_items(d.views@)),
{
    broadcast use {told_on, told_here, told_first};

    assert(ends("{\"atomic\":true,\"views\":["@, "\"views\":["@)) by {
        reveal_strlit("{\"atomic\":true,\"views\":[");
        reveal_strlit("\"views\":[");
        assert("{\"atomic\":true,\"views\":["@.skip("{\"atomic\":true,\"views\":["@.len() - "\"views\":["@.len()) =~= "\"views\":["@);
    }
}

/// In the document of a view applied each field holds what it is named after.
pub proof fn view_applied_tells_its_fields(d: ViewApplied)
    ensures
        tells(view_applied_json(d), "\"view\":"@, json_string(d.view@)),
        tells(view_applied_json(d), "\"apply\":"@, report_json(d.applied)),
{
    broadcast use {told_on, told_here, told_first};

    assert(ends("{\"view\":"@, "\"view\":"@)) by {
        reveal_strlit("{\"view\":");
        reveal_strlit("\"view\":");
        assert("{\"view\":"@.skip("{\"view\":"@.len() - "\"view\":"@.len()) =~= "\"view\":"@);
    }
    assert(ends(",\"apply\":"@, "\"apply\":"@)) by {
        reveal_strlit(",\"apply\":");
        reveal_strlit("\"apply\":");
        assert(",\"apply\":"@.skip(",\"apply\":"@.len() - "\"apply\":"@.len()) =~= "\"apply\":"@);
    }
}

/// In the document of a batch operation each field holds what it is named after.
pub proof fn batch_operation_tells_its_fields(d: BatchOperation)
    ensures
        tells(batch_operation_json(d), "\"id\":"@, json_string(d.id@)),
        tells(batch_operation_json(d), "\"status\":"@, json_string(d.status@)),
        tells(batch_operation_json(d), "\"views\":["@, view_applied_items(d.views@)),
{
    broadcast use {told_on, told_here, told_first};

    assert(ends("{\"id\":"@, "\"id\":"@)) by {
        reveal_strlit("{\"id\":");
        reveal_strlit("\"id\":");
        assert("{\"id\":"@.skip("{\"id\":"@.len() - "\"id\":"@.len()) =~= "\"id\":"@);
    }
    assert(ends(",\"status\":"@, "\"status\":"@)) by {
        reveal_strlit(",\"status\":");
        reveal_strlit("\"status\":");
        assert(",\"status\":"@.skip(",\"status\":"@.len() - "\"status\":"@.len()) =~= "\"status\":"@);
    }
    assert(ends(",\"views\":["@, "\"views\":["@)) by {
        reveal_strlit(",\"views\":[");
        reveal_strlit("\"views\":[");
        assert(",\"views\":["@.skip(",\"views\":["@.len() - "\"views\":["@.len()) =~= "\"views\":["@);
    }
}

/// In the document of an undo file each field holds what it is named after.
pub proof fn undo_file_tells_its_fields(d: UndoFile)
    ensures
        tells(undo_file_json(d), "\"view\":"@, json_string(d.view@)),
        tells(undo_file_json(d), "\"path\":"@, json_string(d.path@)),
{
    broadcast use {told_on, told_here, told_first};

    assert(ends("{\"view\":"@, "\"view\":"@)) by {
        reveal_strlit("{\"view\":");
        reveal_strlit("\"view\":");
        assert("{\"view\":"@.skip("{\"view\":"@.len() - "\"view\":"@.len()) =~= "\"view\":"@);
    }
    assert(ends(",\"path\":"@, "\"path\":"@)) by {
        reveal_strlit(",\"path\":");
        reveal_strlit("\"path\":");
        assert(",\"path\":"@.skip(",\"path\":"@.len() - "\"path\":"@.len()) =~= "\"path\":"@);
    }
}

/// In the document of a batch report each field holds what it is named after.
pub proof fn batch_report_tells_its_fields(d: BatchReport)
    ensures
        tells(batch_report_json(d), "\"schema\":"@, json_string(d.schema@)),
        tells(batch_report_json(d), "\"manifest\":"@, json_string(d.manifest@)),
        tells(batch_report_json(d), "\"dryRun\":"@, json_bool(d.dry_run)),
        tells(batch_report_json(d), "\"undo\":["@, undo_file_items(d.undo@)),
        tells(batch_report_json(d), "\"operations\":["@, batch_operation_items(d.operations@)),
        tells(batch_report_json(d), "\"rollback\":["@, view_applied_items(d.rollback@)),
{
    broadcast use {told_on, told_here, told_first};

    assert(ends("{\"schema\":"@, "\"schema\":"@)) by {
        reveal_strlit("{\"schema\":");
        reveal_strlit("\"schema\":");
        assert("{\"schema\":"@.skip("{\"schema\":"@.len() - "\"schema\":"@.len()) =~= "\"schema\":"@);
    }
    assert(ends(",\"schemaVersion\":1,\"manifest\":"@, "\"manifest\":"@)) by {
        reveal_strlit(",\"schemaVersion\":1,\"manifest\":");
        reveal_strlit("\"manifest\":");
        assert(",\"schemaVersion\":1,\"manifest\":"@.skip(",\"schemaVersion\":1,\"manifest\":"@.len() - "\"manifest\":"@.len()) =~= "\"manifest\":"@);
    }
    assert(ends(",\"atomic\":true,\"dryRun\":"@, "\"dryRun\":"@)) by {
        reveal_strlit(",\"atomic\":true,\"dryRun\":");
        reveal_strlit("\"dryRun\":");
        assert(",\"atomic\":true,\"dryRun\":"@.skip(",\"atomic\":true,\"dryRun\":"@.len() - "\"dryRun\":"@.len()) =~= "\"dryRun\":"@);
    }
    assert(ends(",\"undo\":["@, "\"undo\":["@)) by {
        reveal_strlit(",\"undo\":[");
        reveal_strlit("\"undo\":[");
        assert(",\"undo\":["@.skip(",\"undo\":["@.len() - "\"undo\":["@.len()) =~= "\"undo\":["@);
    }
    assert(ends("],\"operations\":["@, "\"operations\":["@)) by {
        reveal_strlit("],\"operations\":[");
        reveal_strlit("\"operations\":[");
        assert("],\"operations\":["@.skip("],\"operations\":["@.len() - "\"operations\":["@.len()) =~= "\"operations\":["@);
    }
    assert(ends("],\"rollback\":["@, "\"rollback\":["@)) by {
        reveal_strlit("],\"rollback\":[");
        reveal_strlit("\"rollback\":[");
        assert("],\"rollback\":["@.skip("],\"rollback\":["@.len() - "\"rollback\":["@.len()) =~= "\"rollback\":["@);
    }
}

/// In the document of a saved copy plan each field holds what it is named after.
pub proof fn saved_copy_plan_tells_its_fields(d: SavedCopyPlan)
    ensures
        tells(saved_copy_plan_json(d), "\"view\":"@, json_string(d.view@)),
        tells(saved_copy_plan_json(d), "\"plan\":"@, json_string(d.plan@)),
        tells(saved_copy_plan_json(d), "\"planBytes\":"@, dec_of(d.bytes as nat)),
        tells(saved_copy_plan_json(d), "\"planSha256\":"@, json_string(d.sha256@)),
{
    broadcast use {told_on, told_here, told_first};

    assert(ends("{\"view\":"@, "\"view\":"@)) by {
        reveal_strlit("{\"view\":");
        reveal_strlit("\"view\":");
        assert("{\"view\":"@.skip("{\"view\":"@.len() - "\"view\":"@.len()) =~= "\"view\":"@);
    }
    assert(ends(",\"plan\":"@, "\"plan\":"@)) by {
        reveal_strlit(",\"plan\":");
        reveal_strlit("\"plan\":");
        assert(",\"plan\":"@.skip(",\"plan\":"@.len() - "\"plan\":"@.len()) =~= "\"plan\":"@);
    }
    assert(ends(",\"planBytes\":"@, "\"planBytes\":"@)) by {
        reveal_strlit(",\"planBytes\":");
        reveal_strlit("\"planBytes\":");
        assert(",\"planBytes\":"@.skip(",\"planBytes\":"@.len() - "\"planBytes\":"@.len()) =~= "\"planBytes\":"@);
    }
    assert(ends(",\"planSha256\":"@, "\"planSha256\":"@)) by {
        reveal_strlit(",\"planSha256\":");
        reveal_strlit("\"planSha256\":");
        assert(",\"planSha256\":"@.skip(",\"planSha256\":"@.len() - "\"planSha256\":"@.len()) =~= "\"planSha256\":"@);
    }
}

/// In the document of a saved value plans each field holds what it is named after.
pub proof fn saved_value_plans_tells_its_fields(d: SavedValuePlans)
    ensures
        tells(saved_value_plans_json(d), "\"operation\":"@, json_string(d.operation@)),
        tells(saved_value_plans_json(d), "\"source\":"@, json_string(path_text(d.source@))),
        tells(saved_value_plans_json(d), "\"sourceValue\":"@, json_string(api_name(d.source_value@))),
        tells(saved_value_plans_json(d), "\"destination\":"@, json_string(path_text(d.destination@))),
        tells(saved_value_plans_json(d), "\"destinationValue\":"@, json_string(api_name(d.destination_value@))),
        tells(saved_value_plans_json(d), "\"plans\":["@, saved_copy_plan_items(d.plans@)),
{
    broadcast use {told_on, told_here, told_first};

    assert(ends("{\"operation\":"@, "\"operation\":"@)) by {
        reveal_strlit("{\"operation\":");
        reveal_strlit("\"operation\":");
        assert("{\"operation\":"@.skip("{\"operation\":"@.len() - "\"operation\":"@.len()) =~= "\"operation\":"@);
    }
    assert(ends(",\"source\":"@, "\"source\":"@)) by {
        reveal_strlit(",\"source\":");
        reveal_strlit("\"source\":");
        assert(",\"source\":"@.skip(",\"source\":"@.len() - "\"source\":"@.len()) =~= "\"source\":"@);
    }
    assert(ends(",\"sourceValue\":"@, "\"sourceValue\":"@)) by {
        reveal_strlit(",\"sourceValue\":");
        reveal_strlit("\"sourceValue\":");
        assert(",\"sourceValue\":"@.skip(",\"sourceValue\":"@.len() - "\"sourceValue\":"@.len()) =~= "\"sourceValue\":"@);
    }
    assert(ends(",\"destination\":"@, "\"destination\":"@)) by {
        reveal_strlit(",\"destination\":");
        reveal_strlit("\"destination\":");
        assert(",\"destination\":"@.skip(",\"destination\":"@.len() - "\"destination\":"@.len()) =~= "\"destination\":"@);
    }
    assert(ends(",\"destinationValue\":"@, "\"destinationValue\":"@)) by {
        reveal_strlit(",\"destinationValue\":");
        reveal_strlit("\"destinationValue\":");
        assert(",\"destinationValue\":"@.skip(",\"destinationValue\":"@.len() - "\"destinationValue\":"@.len()) =~= "\"destinationValue\":"@);
    }
    assert(ends(",\"plans\":["@, "\"plans\":["@)) by {
        reveal_strlit(",\"plans\":[");
        reveal_strlit("\"plans\":[");
        assert(",\"plans\":["@.skip(",\"plans\":["@.len() - "\"plans\":["@.len()) =~= "\"plans\":["@);
    }
}

/// In the document of a saved view plan each field holds what it is named after.
pub proof fn saved_view_plan_tells_its_fields(d: SavedViewPlan)
    ensures
        tells(saved_view_plan_json(d), "\"view\":"@, json_string(d.view@)),
        tells(saved_view_plan_json(d), "\"plan\":"@, json_string(d.plan@)),
        tells(saved_view_plan_json(d), "\"planBytes\":"@, dec_of(d.bytes as nat)),
        tells(saved_view_plan_json(d), "\"planSha256\":"@, json_string(d.sha256@)),
{
    broadcast use {told_on, told_here, told_first};

    assert(ends("{\"view\":"@, "\"view\":"@)) by {
        reveal_strlit("{\"view\":");
        reveal_strlit("\"view\":");
        assert("{\"view\":"@.skip("{\"view\":"@.len() - "\"view\":"@.len()) =~= "\"view\":"@);
    }
    assert(ends(",\"plan\":"@, "\"plan\":"@)) by {
        reveal_strlit(",\"plan\":");
        reveal_strlit("\"plan\":");
        assert(",\"plan\":"@.skip(",\"plan\":"@.len() - "\"plan\":"@.len()) =~= "\"plan\":"@);
    }
    assert(ends(",\"planBytes\":"@, "\"planBytes\":"@)) by {
        reveal_strlit(",\"planBytes\":");
        reveal_strlit("\"planBytes\":");
        assert(",\"planBytes\":"@.skip(",\"planBytes\":"@.len() - "\"planBytes\":"@.len()) =~= "\"planBytes\":"@);
    }
    assert(ends(",\"planSha256\":"@, "\"planSha256\":"@)) by {
        reveal_strlit(",\"planSha256\":");
        reveal_strlit("\"planSha256\":");
        assert(",\"planSha256\":"@.skip(",\"planSha256\":"@.len() - "\"planSha256\":"@.len()) =~= "\"planSha256\":"@);
    }
}

/// In the document of a saved subtree plans each field holds what it is named after.
pub proof fn saved_subtree_plans_tells_its_fields(d: SavedSubtreePlans)
    ensures
        tells(saved_subtree_plans_json(d), "\"operation\":"@, json_string(d.operation@)),
        tells(saved_subtree_plans_json(d), "\"source\":"@, json_string(path_text(d.source@))),
        tells(saved_subtree_plans_json(d), "\"destination\":"@, json_string(path_text(d.destination@))),
        tells(saved_subtree_plans_json(d), "\"views\":["@, saved_view_plan_items(d.views@)),
{
    broadcast use {told_on, told_here, told_first};

    assert(ends("{\"operation\":"@, "\"operation\":"@)) by {
        reveal_strlit("{\"operation\":");
        reveal_strlit("\"operation\":");
        assert("{\"operation\":"@.skip("{\"operation\":"@.len() - "\"operation\":"@.len()) =~= "\"operation\":"@);
    }
    assert(ends(",\"source\":"@, "\"source\":"@)) by {
        reveal_strlit(",\"source\":");
        reveal_strlit("\"source\":");
        assert(",\"source\":"@.skip(",\"source\":"@.len() - "\"source\":"@.len()) =~= "\"source\":"@);
    }
    assert(ends(",\"destination\":"@, "\"destination\":"@)) by {
        reveal_strlit(",\"destination\":");
        reveal_strlit("\"destination\":");
        assert(",\"destination\":"@.skip(",\"destination\":"@.len() - "\"destination\":"@.len()) =~= "\"destination\":"@);
    }
    assert(ends(",\"views\":["@, "\"views\":["@)) by {
        reveal_strlit(",\"views\":[");
        reveal_strlit("\"views\":[");
        assert(",\"views\":["@.skip(",\"views\":["@.len() - "\"views\":["@.len()) =~= "\"views\":["@);
    }
}

/// In the document of a saved subtree plan each field holds what it is named after.
pub proof fn saved_subtree_plan_tells_its_fields(d: SavedSubtreePlan)
    ensures
        tells(saved_subtree_plan_json(d), "\"operation\":"@, json_string(d.operation@)),
        tells(saved_subtree_plan_json(d), "\"source\":"@, json_string(path_text(d.source@))),
        tells(saved_subtree_plan_json(d), "\"destination\":"@, json_string(path_text(d.destination@))),
        tells(saved_subtree_plan_json(d), "\"view\":"@, json_string(d.view@)),
        tells(saved_subtree_plan_json(d), "\"sourceComputer\":"@, json_opt(opt_text(d.source_computer))),
        tells(saved_subtree_plan_json(d), "\"plan\":"@, json_string(d.plan@)),
        tells(saved_subtree_plan_json(d), "\"planBytes\":"@, dec_of(d.bytes as nat)),
        tells(saved_subtree_plan_json(d), "\"planSha256\":"@, json_string(d.sha256@)),
        tells(saved_subtree_plan_json(d), "\"sourceDigest\":"@, json_string(d.source_digest@)),
        tells(saved_subtree_plan_json(d), "\"currentDigest\":"@, json_string(d.current_digest@)),
{
    broadcast use {told_on, told_here, told_first};

    assert(ends("{\"operation\":"@, "\"operation\":"@)) by {
        reveal_strlit("{\"operation\":");
        reveal_strlit("\"operation\":");
        assert("{\"operation\":"@.skip("{\"operation\":"@.len() - "\"operation\":"@.len()) =~= "\"operation\":"@);
    }
    assert(ends(",\"source\":"@, "\"source\":"@)) by {
        reveal_strlit(",\"source\":");
        reveal_strlit("\"source\":");
        assert(",\"source\":"@.skip(",\"source\":"@.len() - "\"source\":"@.len()) =~= "\"source\":"@);
    }
    assert(ends(",\"destination\":"@, "\"destination\":"@)) by {
        reveal_strlit(",\"destination\":");
        reveal_strlit("\"destination\":");
        assert(",\"destination\":"@.skip(",\"destination\":"@.len() - "\"destination\":"@.len()) =~= "\"destination\":"@);
    }
    assert(ends(",\"view\":"@, "\"view\":"@)) by {
        reveal_strlit(",\"view\":");
        reveal_strlit("\"view\":");
        assert(",\"view\":"@.skip(",\"view\":"@.len() - "\"view\":"@.len()) =~= "\"view\":"@);
    }
    assert(ends(",\"sourceComputer\":"@, "\"sourceComputer\":"@)) by {
        reveal_strlit(",\"sourceComputer\":");
        reveal_strlit("\"sourceComputer\":");
        assert(",\"sourceComputer\":"@.skip(",\"sourceComputer\":"@.len() - "\"sourceComputer\":"@.len()) =~= "\"sourceComputer\":"@);
    }
    assert(ends(",\"plan\":"@, "\"plan\":"@)) by {
        reveal_strlit(",\"plan\":");
        reveal_strlit("\"plan\":");
        assert(",\"plan\":"@.skip(",\"plan\":"@.len() - "\"plan\":"@.len()) =~= "\"plan\":"@);
    }
    assert(ends(",\"planBytes\":"@, "\"planBytes\":"@)) by {
        reveal_strlit(",\"planBytes\":");
        reveal_strlit("\"planBytes\":");
        assert(",\"planBytes\":"@.skip(",\"planBytes\":"@.len() - "\"planBytes\":"@.len()) =~= "\"planBytes\":"@);
    }
    assert(ends(",\"planSha256\":"@, "\"planSha256\":"@)) by {
        reveal_strlit(",\"planSha256\":");
        reveal_strlit("\"planSha256\":");
        assert(",\"planSha256\":"@.skip(",\"planSha256\":"@.len() - "\"planSha256\":"@.len()) =~= "\"planSha256\":"@);
    }
    assert(ends(",\"sourceDigest\":"@, "\"sourceDigest\":"@)) by {
        reveal_strlit(",\"sourceDigest\":");
        reveal_strlit("\"sourceDigest\":");
        assert(",\"sourceDigest\":"@.skip(",\"sourceDigest\":"@.len() - "\"sourceDigest\":"@.len()) =~= "\"sourceDigest\":"@);
    }
    assert(ends(",\"currentDigest\":"@, "\"currentDigest\":"@)) by {
        reveal_strlit(",\"currentDigest\":");
        reveal_strlit("\"currentDigest\":");
        assert(",\"currentDigest\":"@.skip(",\"currentDigest\":"@.len() - "\"currentDigest\":"@.len()) =~= "\"currentDigest\":"@);
    }
}

/// In the document of a copy view each field holds what it is named after.
pub proof fn copy_view_tells_its_fields(d: CopyView)
    ensures
        tells(copy_view_json(d), "\"view\":"@, json_string(d.view@)),
        tells(copy_view_json(d), "\"backup\":"@, json_opt(opt_text(d.backup))),
        tells(copy_view_json(d), "\"copy\":"@, opt_report_json(d.copied)),
        tells(copy_view_json(d), "\"removeSource\":"@, opt_report_json(d.removed)),
        tells(copy_view_json(d), "\"rolledBack\":"@, json_bool(d.rollback is Some)),
        tells(copy_view_json(d), "\"rollback\":"@, opt_report_json(d.rollback)),
{
    broadcast use {told_on, told_here, told_first};

    assert(ends("{\"view\":"@, "\"view\":"@)) by {
        reveal_strlit("{\"view\":");
        reveal_strlit("\"view\":");
        assert("{\"view\":"@.skip("{\"view\":"@.len() - "\"view\":"@.len()) =~= "\"view\":"@);
    }
    assert(ends(",\"backup\":"@, "\"backup\":"@)) by {
        reveal_strlit(",\"backup\":");
        reveal_strlit("\"backup\":");
        assert(",\"backup\":"@.skip(",\"backup\":"@.len() - "\"backup\":"@.len()) =~= "\"backup\":"@);
    }
    assert(ends(",\"copy\":"@, "\"copy\":"@)) by {
        reveal_strlit(",\"copy\":");
        reveal_strlit("\"copy\":");
        assert(",\"copy\":"@.skip(",\"copy\":"@.len() - "\"copy\":"@.len()) =~= "\"copy\":"@);
    }
    assert(ends(",\"removeSource\":"@, "\"removeSource\":"@)) by {
        reveal_strlit(",\"removeSource\":");
        reveal_strlit("\"removeSource\":");
        assert(",\"removeSource\":"@.skip(",\"removeSource\":"@.len() - "\"removeSource\":"@.len()) =~= "\"removeSource\":"@);
    }
    assert(ends(",\"rolledBack\":"@, "\"rolledBack\":"@)) by {
        reveal_strlit(",\"rolledBack\":");
        reveal_strlit("\"rolledBack\":");
        assert(",\"rolledBack\":"@.skip(",\"rolledBack\":"@.len() - "\"rolledBack\":"@.len()) =~= "\"rolledBack\":"@);
    }
    assert(ends(",\"rollback\":"@, "\"rollback\":"@)) by {
        reveal_strlit(",\"rollback\":");
        reveal_strlit("\"rollback\":");
        assert(",\"rollback\":"@.skip(",\"rollback\":"@.len() - "\"rollback\":"@.len()) =~= "\"rollback\":"@);
    }
}

/// In the document of a copy value report each field holds what it is named after.
pub proof fn copy_value_report_tells_its_fields(d: CopyValueReport)
    ensures
        tells(copy_value_report_json(d), "\"operation\":"@, json_string(d.operation@)),
        tells(copy_value_report_json(d), "\"source\":"@, json_string(path_text(d.source@))),
        tells(copy_value_report_json(d), "\"sourceValue\":"@, json_string(api_name(d.source_value@))),
        tells(copy_value_report_json(d), "\"sourceComputer\":"@, json_opt(opt_text(d.source_computer))),
        tells(copy_value_report_json(d), "\"destination\":"@, json_string(path_text(d.destination@))),
        tells(copy_value_report_json(d), "\"destinationValue\":"@, json_string(api_name(d.destination_value@))),
        tells(copy_value_report_json(d), "\"overwrite\":"@, json_bool(d.overwrite)),
        tells(copy_value_report_json(d), "\"dryRun\":"@, json_bool(d.dry_run)),
        tells(copy_value_report_json(d), "\"views\":["@, copy_view_items(d.views@)),
{
    broadcast use {told_on, told_here, told_first};

    assert(ends("{\"operation\":"@, "\"operation\":"@)) by {
        reveal_strlit("{\"operation\":");
        reveal_strlit("\"operation\":");
        assert("{\"operation\":"@.skip("{\"operation\":"@.len() - "\"operation\":"@.len()) =~= "\"operation\":"@);
    }
    assert(ends(",\"source\":"@, "\"source\":"@)) by {
        reveal_strlit(",\"source\":");
        reveal_strlit("\"source\":");
        assert(",\"source\":"@.skip(",\"source\":"@.len() - "\"source\":"@.len()) =~= "\"source\":"@);
    }
    assert(ends(",\"sourceValue\":"@, "\"sourceValue\":"@)) by {
        reveal_strlit(",\"sourceValue\":");
        reveal_strlit("\"sourceValue\":");
        assert(",\"sourceValue\":"@.skip(",\"sourceValue\":"@.len() - "\"sourceValue\":"@.len()) =~= "\"sourceValue\":"@);
    }
    assert(ends(",\"sourceComputer\":"@, "\"sourceComputer\":"@)) by {
        reveal_strlit(",\"sourceComputer\":");
        reveal_strlit("\"sourceComputer\":");
        assert(",\"sourceComputer\":"@.skip(",\"sourceComputer\":"@.len() - "\"sourceComputer\":"@.len()) =~= "\"sourceComputer\":"@);
    }
    assert(ends(",\"destination\":"@, "\"destination\":"@)) by {
        reveal_strlit(",\"destination\":");
        reveal_strlit("\"destination\":");
        assert(",\"destination\":"@.skip(",\"destination\":"@.len() - "\"destination\":"@.len()) =~= "\"destination\":"@);
    }
    assert(ends(",\"destinationValue\":"@, "\"destinationValue\":"@)) by {
        reveal_strlit(",\"destinationValue\":");
        reveal_strlit("\"destinationValue\":");
        assert(",\"destinationValue\":"@.skip(",\"destinationValue\":"@.len() - "\"destinationValue\":"@.len()) =~= "\"destinationValue\":"@);
    }
    assert(ends(",\"overwrite\":"@, "\"overwrite\":"@)) by {
        reveal_strlit(",\"overwrite\":");
        reveal_strlit("\"overwrite\":");
        assert(",\"overwrite\":"@.skip(",\"overwrite\":"@.len() - "\"overwrite\":"@.len()) =~= "\"overwrite\":"@);
    }
    assert(ends(",\"dryRun\":"@, "\"dryRun\":"@)) by {
        reveal_strlit(",\"dryRun\":");
        reveal_strlit("\"dryRun\":");
        assert(",\"dryRun\":"@.skip(",\"dryRun\":"@.len() - "\"dryRun\":"@.len()) =~= "\"dryRun\":"@);
    }
    assert(ends(",\"views\":["@, "\"views\":["@)) by {
        reveal_strlit(",\"views\":[");
        reveal_strlit("\"views\":[");
        assert(",\"views\":["@.skip(",\"views\":["@.len() - "\"views\":["@.len()) =~= "\"views\":["@);
    }
}

/// In the document of a copy report each field holds what it is named after.
pub proof fn copy_report_tells_its_fields(d: CopyReport)
    ensures
        tells(copy_report_json(d), "\"operation\": "@, json_string(d.operation@)),
        tells(copy_report_json(d), "\"source\": "@, json_string(path_text(d.source@))),
        tells(copy_report_json(d), "\"destination\": "@, json_string(path_text(d.destination@))),
        tells(copy_report_json(d), "\"overwrite\": "@, json_bool(d.overwrite)),
        tells(copy_report_json(d), "\"dryRun\": "@, json_bool(d.dry_run)),
        tells(copy_report_json(d), "\"backup\": "@, json_string(d.backup@)),
        tells(copy_report_json(d), "\"copy\": "@, report_json(d.copied)),
        tells(copy_report_json(d), "\"removeSource\": "@, opt_report_json(d.removed)),
        tells(copy_report_json(d), "\"rolledBack\": "@, json_bool(d.rollback is Some)),
        tells(copy_report_json(d), "\"rollback\": "@, opt_report_json(d.rollback)),
{
    broadcast use {told_on, told_here, told_first};

    assert(ends("{\"operation\": "@, "\"operation\": "@)) by {
        reveal_strlit("{\"operation\": ");
        reveal_strlit("\"operation\": ");
        assert("{\"operation\": "@.skip("{\"operation\": "@.len() - "\"operation\": "@.len()) =~= "\"operation\": "@);
    }
    assert(ends(", \"source\": "@, "\"source\": "@)) by {
        reveal_strlit(", \"source\": ");
        reveal_strlit("\"source\": ");
        assert(", \"source\": "@.skip(", \"source\": "@.len() - "\"source\": "@.len()) =~= "\"source\": "@);
    }
    assert(ends(", \"destination\": "@, "\"destination\": "@)) by {
        reveal_strlit(", \"destination\": ");
        reveal_strlit("\"destination\": ");
        assert(", \"destination\": "@.skip(", \"destination\": "@.len() - "\"destination\": "@.len()) =~= "\"destination\": "@);
    }
    assert(ends(", \"overwrite\": "@, "\"overwrite\": "@)) by {
        reveal_strlit(", \"overwrite\": ");
        reveal_strlit("\"overwrite\": ");
        assert(", \"overwrite\": "@.skip(", \"overwrite\": "@.len() - "\"overwrite\": "@.len()) =~= "\"overwrite\": "@);
    }
    assert(ends(", \"dryRun\": "@, "\"dryRun\": "@)) by {
        reveal_strlit(", \"dryRun\": ");
        reveal_strlit("\"dryRun\": ");
        assert(", \"dryRun\": "@.skip(", \"dryRun\": "@.len() - "\"dryRun\": "@.len()) =~= "\"dryRun\": "@);
    }
    assert(ends(", \"backup\": "@, "\"backup\": "@)) by {
        reveal_strlit(", \"backup\": ");
        reveal_strlit("\"backup\": ");
        assert(", \"backup\": "@.skip(", \"backup\": "@.len() - "\"backup\": "@.len()) =~= "\"backup\": "@);
    }
    assert(ends(", \"copy\": "@, "\"copy\": "@)) by {
        reveal_strlit(", \"copy\": ");
        reveal_strlit("\"copy\": ");
        assert(", \"copy\": "@.skip(", \"copy\": "@.len() - "\"copy\": "@.len()) =~= "\"copy\": "@);
    }
    assert(ends(", \"removeSource\": "@, "\"removeSource\": "@)) by {
        reveal_strlit(", \"removeSource\": ");
        reveal_strlit("\"removeSource\": ");
        assert(", \"removeSource\": "@.skip(", \"removeSource\": "@.len() - "\"removeSource\": "@.len()) =~= "\"removeSource\": "@);
    }
    assert(ends(", \"rolledBack\": "@, "\"rolledBack\": "@)) by {
        reveal_strlit(", \"rolledBack\": ");
        reveal_strlit("\"rolledBack\": ");
        assert(", \"rolledBack\": "@.skip(", \"rolledBack\": "@.len() - "\"rolledBack\": "@.len()) =~= "\"rolledBack\": "@);
    }
    assert(ends(", \"rollback\": "@, "\"rollback\": "@)) by {
        reveal_strlit(", \"rollback\": ");
        reveal_strlit("\"rollback\": ");
        assert(", \"rollback\": "@.skip(", \"rollback\": "@.len() - "\"rollback\": "@.len()) =~= "\"rollback\": "@);
    }
}

/// In the document of a copy views report each field holds what it is named after.
pub proof fn copy_views_report_tells_its_fields(d: CopyViewsReport)
    ensures
        tells(copy_views_report_json(d), "\"operation\":"@, json_string(d.operation@)),
        tells(copy_views_report_json(d), "\"source\":"@, json_string(path_text(d.source@))),
        tells(copy_views_report_json(d), "\"destination\":"@, json_string(path_text(d.destination@))),
        tells(copy_views_report_json(d), "\"overwrite\":"@, json_bool(d.overwrite)),
        tells(copy_views_report_json(d), "\"dryRun\":"@, json_bool(d.dry_run)),
        tells(copy_views_report_json(d), "\"views\":["@, copy_view_items(d.views@)),
{
    broadcast use {told_on, told_here, told_first};

    assert(ends("{\"operation\":"@, "\"operation\":"@)) by {
        reveal_strlit("{\"operation\":");
        reveal_strlit("\"operation\":");
        assert("{\"operation\":"@.skip("{\"operation\":"@.len() - "\"operation\":"@.len()) =~= "\"operation\":"@);
    }
    assert(ends(",\"source\":"@, "\"source\":"@)) by {
        reveal_strlit(",\"source\":");
        reveal_strlit("\"source\":");
        assert(",\"source\":"@.skip(",\"source\":"@.len() - "\"source\":"@.len()) =~= "\"source\":"@);
    }
    assert(ends(",\"destination\":"@, "\"destination\":"@)) by {
        reveal_strlit(",\"destination\":");
        reveal_strlit("\"destination\":");
        assert(",\"destination\":"@.skip(",\"destination\":"@.len() - "\"destination\":"@.len()) =~= "\"destination\":"@);
    }
    assert(ends(",\"overwrite\":"@, "\"overwrite\":"@)) by {
        reveal_strlit(",\"overwrite\":");
        reveal_strlit("\"overwrite\":");
        assert(",\"overwrite\":"@.skip(",\"overwrite\":"@.len() - "\"overwrite\":"@.len()) =~= "\"overwrite\":"@);
    }
    assert(ends(",\"dryRun\":"@, "\"dryRun\":"@)) by {
        reveal_strlit(",\"dryRun\":");
        reveal_strlit("\"dryRun\":");
        assert(",\"dryRun\":"@.skip(",\"dryRun\":"@.len() - "\"dryRun\":"@.len()) =~= "\"dryRun\":"@);
    }
    assert(ends(",\"views\":["@, "\"views\":["@)) by {
        reveal_strlit(",\"views\":[");
        reveal_strlit("\"views\":[");
        assert(",\"views\":["@.skip(",\"views\":["@.len() - "\"views\":["@.len()) =~= "\"views\":["@);
    }
}

/// In the document of an applied copy plan each field holds what it is named after.
pub proof fn applied_copy_plan_tells_its_fields(d: AppliedCopyPlan)
    ensures
        tells(applied_copy_plan_json(d), "\"schema\":"@, json_string(d.schema@)),
        tells(applied_copy_plan_json(d), "\"plan\":"@, json_string(d.plan@)),
        tells(applied_copy_plan_json(d), "\"operation\":"@, json_string(d.operation@)),
        tells(applied_copy_plan_json(d), "\"scope\":"@, json_string(scope_name(d.source_value))),
        tells(applied_copy_plan_json(d), "\"source\":"@, json_string(path_text(d.source@))),
        tells(applied_copy_plan_json(d), "\"sourceValue\":"@, opt_api_json(d.source_value)),
        tells(applied_copy_plan_json(d), "\"sourceComputer\":"@, json_opt(opt_text(d.source_computer))),
        tells(applied_copy_plan_json(d), "\"destination\":"@, json_string(path_text(d.destination@))),
        tells(applied_copy_plan_json(d), "\"destinationValue\":"@, opt_api_json(d.destination_value)),
        tells(applied_copy_plan_json(d), "\"overwrite\":"@, json_bool(d.overwrite)),
        tells(applied_copy_plan_json(d), "\"dryRun\":"@, json_bool(d.dry_run)),
        tells(applied_copy_plan_json(d), "\"backup\":"@, json_opt(opt_text(d.backup))),
        tells(applied_copy_plan_json(d), "\"copy\":"@, report_json(d.copied)),
        tells(applied_copy_plan_json(d), "\"removeSource\":"@, opt_report_json(d.removed)),
        tells(applied_copy_plan_json(d), "\"rolledBack\":"@, json_bool(d.rollback is Some)),
        tells(applied_copy_plan_json(d), "\"rollback\":"@, opt_report_json(d.rollback)),
{
    broadcast use {told_on, told_here, told_first};

    assert(ends("{\"schema\":"@, "\"schema\":"@)) by {
        reveal_strlit("{\"schema\":");
        reveal_strlit("\"schema\":");
        assert("{\"schema\":"@.skip("{\"schema\":"@.len() - "\"schema\":"@.len()) =~= "\"schema\":"@);
    }
    assert(ends(",\"schemaVersion\":2,\"plan\":"@, "\"plan\":"@)) by {
        reveal_strlit(",\"schemaVersion\":2,\"plan\":");
        reveal_strlit("\"plan\":");
        assert(",\"schemaVersion\":2,\"plan\":"@.skip(",\"schemaVersion\":2,\"plan\":"@.len() - "\"plan\":"@.len()) =~= "\"plan\":"@);
    }
    assert(ends(",\"operation\":"@, "\"operation\":"@)) by {
        reveal_strlit(",\"operation\":");
        reveal_strlit("\"operation\":");
        assert(",\"operation\":"@.skip(",\"operation\":"@.len() - "\"operation\":"@.len()) =~= "\"operation\":"@);
    }
    assert(ends(",\"scope\":"@, "\"scope\":"@)) by {
        reveal_strlit(",\"scope\":");
        reveal_strlit("\"scope\":");
        assert(",\"scope\":"@.skip(",\"scope\":"@.len() - "\"scope\":"@.len()) =~= "\"scope\":"@);
    }
    assert(ends(",\"source\":"@, "\"source\":"@)) by {
        reveal_strlit(",\"source\":");
        reveal_strlit("\"source\":");
        assert(",\"source\":"@.skip(",\"source\":"@.len() - "\"source\":"@.len()) =~= "\"source\":"@);
    }
    assert(ends(",\"sourceValue\":"@, "\"sourceValue\":"@)) by {
        reveal_strlit(",\"sourceValue\":");
        reveal_strlit("\"sourceValue\":");
        assert(",\"sourceValue\":"@.skip(",\"sourceValue\":"@.len() - "\"sourceValue\":"@.len()) =~= "\"sourceValue\":"@);
    }
    assert(ends(",\"sourceComputer\":"@, "\"sourceComputer\":"@)) by {
        reveal_strlit(",\"sourceComputer\":");
        reveal_strlit("\"sourceComputer\":");
        assert(",\"sourceComputer\":"@.skip(",\"sourceComputer\":"@.len() - "\"sourceComputer\":"@.len()) =~= "\"sourceComputer\":"@);
    }
    assert(ends(",\"destination\":"@, "\"destination\":"@)) by {
        reveal_strlit(",\"destination\":");
        reveal_strlit("\"destination\":");
        assert(",\"destination\":"@.skip(",\"destination\":"@.len() - "\"destination\":"@.len()) =~= "\"destination\":"@);
    }
    assert(ends(",\"destinationValue\":"@, "\"destinationValue\":"@)) by {
        reveal_strlit(",\"destinationValue\":");
        reveal_strlit("\"destinationValue\":");
        assert(",\"destinationValue\":"@.skip(",\"destinationValue\":"@.len() - "\"destinationValue\":"@.len()) =~= "\"destinationValue\":"@);
    }
    assert(ends(",\"overwrite\":"@, "\"overwrite\":"@)) by {
        reveal_strlit(",\"overwrite\":");
        reveal_strlit("\"overwrite\":");
        assert(",\"overwrite\":"@.skip(",\"overwrite\":"@.len() - "\"overwrite\":"@.len()) =~= "\"overwrite\":"@);
    }
    assert(ends(",\"dryRun\":"@, "\"dryRun\":"@)) by {
        reveal_strlit(",\"dryRun\":");
        reveal_strlit("\"dryRun\":");
        assert(",\"dryRun\":"@.skip(",\"dryRun\":"@.len() - "\"dryRun\":"@.len()) =~= "\"dryRun\":"@);
    }
    assert(ends(",\"backup\":"@, "\"backup\":"@)) by {
        reveal_strlit(",\"backup\":");
        reveal_strlit("\"backup\":");
        assert(",\"backup\":"@.skip(",\"backup\":"@.len() - "\"backup\":"@.len()) =~= "\"backup\":"@);
    }
    assert(ends(",\"copy\":"@, "\"copy\":"@)) by {
        reveal_strlit(",\"copy\":");
        reveal_strlit("\"copy\":");
        assert(",\"copy\":"@.skip(",\"copy\":"@.len() - "\"copy\":"@.len()) =~= "\"copy\":"@);
    }
    assert(ends(",\"removeSource\":"@, "\"removeSource\":"@)) by {
        reveal_strlit(",\"removeSource\":");
        reveal_strlit("\"removeSource\":");
        assert(",\"removeSource\":"@.skip(",\"removeSource\":"@.len() - "\"removeSource\":"@.len()) =~= "\"removeSource\":"@);
    }
    assert(ends(",\"rolledBack\":"@, "\"rolledBack\":"@)) by {
        reveal_strlit(",\"rolledBack\":");
        reveal_strlit("\"rolledBack\":");
        assert(",\"rolledBack\":"@.skip(",\"rolledBack\":"@.len() - "\"rolledBack\":"@.len()) =~= "\"rolledBack\":"@);
    }
    assert(ends(",\"rollback\":"@, "\"rollback\":"@)) by {
        reveal_strlit(",\"rollback\":");
        reveal_strlit("\"rollback\":");
        assert(",\"rollback\":"@.skip(",\"rollback\":"@.len() - "\"rollback\":"@.len()) =~= "\"rollback\":"@);
    }
}

/// In the document of an applied plan view each field holds what it is named after.
pub proof fn applied_plan_view_tells_its_fields(d: AppliedPlanView)
    ensures
        tells(applied_plan_view_json(d), "\"view\":"@, json_string(d.view@)),
        tells(applied_plan_view_json(d), "\"plan\":"@, json_string(d.plan@)),
        tells(applied_plan_view_json(d), "\"backup\":"@, json_opt(opt_text(d.backup))),
        tells(applied_plan_view_json(d), "\"copy\":"@, opt_report_json(d.copied)),
        tells(applied_plan_view_json(d), "\"removeSource\":"@, opt_report_json(d.removed)),
        tells(applied_plan_view_json(d), "\"rolledBack\":"@, json_bool(d.rollback is Some)),
        tells(applied_plan_view_json(d), "\"rollback\":"@, opt_report_json(d.rollback)),
{
    broadcast use {told_on, told_here, told_first};

    assert(ends("{\"view\":"@, "\"view\":"@)) by {
        reveal_strlit("{\"view\":");
        reveal_strlit("\"view\":");
        assert("{\"view\":"@.skip("{\"view\":"@.len() - "\"view\":"@.len()) =~= "\"view\":"@);
    }
    assert(ends(",\"plan\":"@, "\"plan\":"@)) by {
        reveal_strlit(",\"plan\":");
        reveal_strlit("\"plan\":");
        assert(",\"plan\":"@.skip(",\"plan\":"@.len() - "\"plan\":"@.len()) =~= "\"plan\":"@);
    }
    assert(ends(",\"backup\":"@, "\"backup\":"@)) by {
        reveal_strlit(",\"backup\":");
        reveal_strlit("\"backup\":");
        assert(",\"backup\":"@.skip(",\"backup\":"@.len() - "\"backup\":"@.len()) =~= "\"backup\":"@);
    }
    assert(ends(",\"copy\":"@, "\"copy\":"@)) by {
        reveal_strlit(",\"copy\":");
        reveal_strlit("\"copy\":");
        assert(",\"copy\":"@.skip(",\"copy\":"@.len() - "\"copy\":"@.len()) =~= "\"copy\":"@);
    }
    assert(ends(",\"removeSource\":"@, "\"removeSource\":"@)) by {
        reveal_strlit(",\"removeSource\":");
        reveal_strlit("\"removeSource\":");
        assert(",\"removeSource\":"@.skip(",\"removeSource\":"@.len() - "\"removeSource\":"@.len()) =~= "\"removeSource\":"@);
    }
    assert(ends(",\"rolledBack\":"@, "\"rolledBack\":"@)) by {
        reveal_strlit(",\"rolledBack\":");
        reveal_strlit("\"rolledBack\":");
        assert(",\"rolledBack\":"@.skip(",\"rolledBack\":"@.len() - "\"rolledBack\":"@.len()) =~= "\"rolledBack\":"@);
    }
    assert(ends(",\"rollback\":"@, "\"rollback\":"@)) by {
        reveal_strlit(",\"rollback\":");
        reveal_strlit("\"rollback\":");
        assert(",\"rollback\":"@.skip(",\"rollback\":"@.len() - "\"rollback\":"@.len()) =~= "\"rollback\":"@);
    }
}

/// In the document of an applied copy plans each field holds what it is named after.
pub proof fn applied_copy_plans_tells_its_fields(d: AppliedCopyPlans)
    ensures
        tells(applied_copy_plans_json(d), "\"schema\":"@, json_string(d.schema@)),
        tells(applied_copy_plans_json(d), "\"plan\":"@, json_string(d.plan@)),
        tells(applied_copy_plans_json(d), "\"operation\":"@, json_string(d.operation@)),
        tells(applied_copy_plans_json(d), "\"scope\":"@, json_string(scope_name(d.source_value))),
        tells(applied_copy_plans_json(d), "\"source\":"@, json_string(path_text(d.source@))),
        tells(applied_copy_plans_json(d), "\"sourceValue\":"@, opt_api_json(d.source_value)),
        tells(applied_copy_plans_json(d), "\"sourceComputer\":"@, json_opt(opt_text(d.source_computer))),
        tells(applied_copy_plans_json(d), "\"destination\":"@, json_string(path_text(d.destination@))),
        tells(applied_copy_plans_json(d), "\"destinationValue\":"@, opt_api_json(d.destination_value)),
        tells(applied_copy_plans_json(d), "\"overwrite\":"@, json_bool(d.overwrite)),
        tells(applied_copy_plans_json(d), "\"dryRun\":"@, json_bool(d.dry_run)),
        tells(applied_copy_plans_json(d), "\"views\":["@, applied_plan_view_items(d.views@)),
{
    broadcast use {told_on, told_here, told_first};

    assert(ends("{\"schema\":"@, "\"schema\":"@)) by {
        reveal_strlit("{\"schema\":");
        reveal_strlit("\"schema\":");
        assert("{\"schema\":"@.skip("{\"schema\":"@.len() - "\"schema\":"@.len()) =~= "\"schema\":"@);
    }
    assert(ends(",\"schemaVersion\":2,\"plan\":"@, "\"plan\":"@)) by {
        reveal_strlit(",\"schemaVersion\":2,\"plan\":");
        reveal_strlit("\"plan\":");
        assert(",\"schemaVersion\":2,\"plan\":"@.skip(",\"schemaVersion\":2,\"plan\":"@.len() - "\"plan\":"@.len()) =~= "\"plan\":"@);
    }
    assert(ends(",\"operation\":"@, "\"operation\":"@)) by {
        reveal_strlit(",\"operation\":");
        reveal_strlit("\"operation\":");
        assert(",\"operation\":"@.skip(",\"operation\":"@.len() - "\"operation\":"@.len()) =~= "\"operation\":"@);
    }
    assert(ends(",\"scope\":"@, "\"scope\":"@)) by {
        reveal_strlit(",\"scope\":");
        reveal_strlit("\"scope\":");
        assert(",\"scope\":"@.skip(",\"scope\":"@.len() - "\"scope\":"@.len()) =~= "\"scope\":"@);
    }
    assert(ends(",\"source\":"@, "\"source\":"@)) by {
        reveal_strlit(",\"source\":");
        reveal_strlit("\"source\":");
        assert(",\"source\":"@.skip(",\"source\":"@.len() - "\"source\":"@.len()) =~= "\"source\":"@);
    }
    assert(ends(",\"sourceValue\":"@, "\"sourceValue\":"@)) by {
        reveal_strlit(",\"sourceValue\":");
        reveal_strlit("\"sourceValue\":");
        assert(",\"sourceValue\":"@.skip(",\"sourceValue\":"@.len() - "\"sourceValue\":"@.len()) =~= "\"sourceValue\":"@);
    }
    assert(ends(",\"sourceComputer\":"@, "\"sourceComputer\":"@)) by {
        reveal_strlit(",\"sourceComputer\":");
        reveal_strlit("\"sourceComputer\":");
        assert(",\"sourceComputer\":"@.skip(",\"sourceComputer\":"@.len() - "\"sourceComputer\":"@.len()) =~= "\"sourceComputer\":"@);
    }
    assert(ends(",\"destination\":"@, "\"destination\":"@)) by {
        reveal_strlit(",\"destination\":");
        reveal_strlit("\"destination\":");
        assert(",\"destination\":"@.skip(",\"destination\":"@.len() - "\"destination\":"@.len()) =~= "\"destination\":"@);
    }
    assert(ends(",\"destinationValue\":"@, "\"destinationValue\":"@)) by {
        reveal_strlit(",\"destinationValue\":");
        reveal_strlit("\"destinationValue\":");
        assert(",\"destinationValue\":"@.skip(",\"destinationValue\":"@.len() - "\"destinationValue\":"@.len()) =~= "\"destinationValue\":"@);
    }
    assert(ends(",\"overwrite\":"@, "\"overwrite\":"@)) by {
        reveal_strlit(",\"overwrite\":");
        reveal_strlit("\"overwrite\":");
        assert(",\"overwrite\":"@.skip(",\"overwrite\":"@.len() - "\"overwrite\":"@.len()) =~= "\"overwrite\":"@);
    }
    assert(ends(",\"dryRun\":"@, "\"dryRun\":"@)) by {
        reveal_strlit(",\"dryRun\":");
        reveal_strlit("\"dryRun\":");
        assert(",\"dryRun\":"@.skip(",\"dryRun\":"@.len() - "\"dryRun\":"@.len()) =~= "\"dryRun\":"@);
    }
    assert(ends(",\"views\":["@, "\"views\":["@)) by {
        reveal_strlit(",\"views\":[");
        reveal_strlit("\"views\":[");
        assert(",\"views\":["@.skip(",\"views\":["@.len() - "\"views\":["@.len()) =~= "\"views\":["@);
    }
}

/// In the document of a backup view each field holds what it is named after.
pub proof fn backup_view_tells_its_fields(d: BackupView)
    ensures
        tells(backup_view_json(d), "\"view\":"@, json_string(d.view@)),
        tells(backup_view_json(d), "\"file\":"@, json_string(d.file@)),
        tells(backup_view_json(d), "\"keys\":"@, dec_of(d.keys as nat)),
        tells(backup_view_json(d), "\"values\":"@, dec_of(d.values as nat)),
{
    broadcast use {told_on, told_here, told_first};

    assert(ends("{\"view\":"@, "\"view\":"@)) by {
        reveal_strlit("{\"view\":");
        reveal_strlit("\"view\":");
        assert("{\"view\":"@.skip("{\"view\":"@.len() - "\"view\":"@.len()) =~= "\"view\":"@);
    }
    assert(ends(",\"file\":"@, "\"file\":"@)) by {
        reveal_strlit(",\"file\":");
        reveal_strlit("\"file\":");
        assert(",\"file\":"@.skip(",\"file\":"@.len() - "\"file\":"@.len()) =~= "\"file\":"@);
    }
    assert(ends(",\"keys\":"@, "\"keys\":"@)) by {
        reveal_strlit(",\"keys\":");
        reveal_strlit("\"keys\":");
        assert(",\"keys\":"@.skip(",\"keys\":"@.len() - "\"keys\":"@.len()) =~= "\"keys\":"@);
    }
    assert(ends(",\"values\":"@, "\"values\":"@)) by {
        reveal_strlit(",\"values\":");
        reveal_strlit("\"values\":");
        assert(",\"values\":"@.skip(",\"values\":"@.len() - "\"values\":"@.len()) =~= "\"values\":"@);
    }
}

/// In the document of a backup views each field holds what it is named after.
pub proof fn backup_views_tells_its_fields(d: BackupViews)
    ensures
        tells(backup_views_json(d), "\"source\":"@, json_string(path_text(d.source@))),
        tells(backup_views_json(d), "\"sourceComputer\":"@, json_opt(opt_text(d.source_computer))),
        tells(backup_views_json(d), "\"dryRun\":"@, json_bool(d.dry_run)),
        tells(backup_views_json(d), "\"views\":["@, backup_view_items(d.views@)),
{
    broadcast use {told_on, told_here, told_first};

    assert(ends("{\"source\":"@, "\"source\":"@)) by {
        reveal_strlit("{\"source\":");
        reveal_strlit("\"source\":");
        assert("{\"source\":"@.skip("{\"source\":"@.len() - "\"source\":"@.len()) =~= "\"source\":"@);
    }
    assert(ends(",\"sourceComputer\":"@, "\"sourceComputer\":"@)) by {
        reveal_strlit(",\"sourceComputer\":");
        reveal_strlit("\"sourceComputer\":");
        assert(",\"sourceComputer\":"@.skip(",\"sourceComputer\":"@.len() - "\"sourceComputer\":"@.len()) =~= "\"sourceComputer\":"@);
    }
    assert(ends(",\"dryRun\":"@, "\"dryRun\":"@)) by {
        reveal_strlit(",\"dryRun\":");
        reveal_strlit("\"dryRun\":");
        assert(",\"dryRun\":"@.skip(",\"dryRun\":"@.len() - "\"dryRun\":"@.len()) =~= "\"dryRun\":"@);
    }
    assert(ends(",\"views\":["@, "\"views\":["@)) by {
        reveal_strlit(",\"views\":[");
        reveal_strlit("\"views\":[");
        assert(",\"views\":["@.skip(",\"views\":["@.len() - "\"views\":["@.len()) =~= "\"views\":["@);
    }
}

/// In the document of a backup each field holds what it is named after.
pub proof fn backup_tells_its_fields(d: Backup)
    ensures
        tells(backup_json(d), "\"source\":"@, json_string(path_text(d.source@))),
        tells(backup_json(d), "\"sourceComputer\":"@, json_opt(opt_text(d.source_computer))),
        tells(backup_json(d), "\"file\":"@, json_string(d.file@)),
        tells(backup_json(d), "\"dryRun\":"@, json_bool(d.dry_run)),
        tells(backup_json(d), "\"keys\":"@, dec_of(d.keys as nat)),
        tells(backup_json(d), "\"values\":"@, dec_of(d.values as nat)),
{
    broadcast use {told_on, told_here, told_first};

    assert(ends("{\"source\":"@, "\"source\":"@)) by {
        reveal_strlit("{\"source\":");
        reveal_strlit("\"source\":");
        assert("{\"source\":"@.skip("{\"source\":"@.len() - "\"source\":"@.len()) =~= "\"source\":"@);
    }
    assert(ends(",\"sourceComputer\":"@, "\"sourceComputer\":"@)) by {
        reveal_strlit(",\"sourceComputer\":");
        reveal_strlit("\"sourceComputer\":");
        assert(",\"sourceComputer\":"@.skip(",\"sourceComputer\":"@.len() - "\"sourceComputer\":"@.len()) =~= "\"sourceComputer\":"@);
    }
    assert(ends(",\"file\":"@, "\"file\":"@)) by {
        reveal_strlit(",\"file\":");
        reveal_strlit("\"file\":");
        assert(",\"file\":"@.skip(",\"file\":"@.len() - "\"file\":"@.len()) =~= "\"file\":"@);
    }
    assert(ends(",\"dryRun\":"@, "\"dryRun\":"@)) by {
        reveal_strlit(",\"dryRun\":");
        reveal_strlit("\"dryRun\":");
        assert(",\"dryRun\":"@.skip(",\"dryRun\":"@.len() - "\"dryRun\":"@.len()) =~= "\"dryRun\":"@);
    }
    assert(ends(",\"keys\":"@, "\"keys\":"@)) by {
        reveal_strlit(",\"keys\":");
        reveal_strlit("\"keys\":");
        assert(",\"keys\":"@.skip(",\"keys\":"@.len() - "\"keys\":"@.len()) =~= "\"keys\":"@);
    }
    assert(ends(",\"values\":"@, "\"values\":"@)) by {
        reveal_strlit(",\"values\":");
        reveal_strlit("\"values\":");
        assert(",\"values\":"@.skip(",\"values\":"@.len() - "\"values\":"@.len()) =~= "\"values\":"@);
    }
}

/// In the document of a restore each field holds what it is named after.
pub proof fn restore_tells_its_fields(d: Restore)
    ensures
        tells(restore_json(d), "\"file\":"@, json_string(d.file@)),
        tells(restore_json(d), "\"destination\":"@, json_string(path_text(d.destination@))),
        tells(restore_json(d), "\"overwrite\":"@, json_bool(d.overwrite)),
        tells(restore_json(d), "\"dryRun\":"@, json_bool(d.dry_run)),
        tells(restore_json(d), "\"undo\":"@, json_string(d.undo@)),
        tells(restore_json(d), "\"apply\":"@, report_json(d.applied)),
        tells(restore_json(d), "\"rolledBack\":"@, json_bool(d.rollback is Some)),
        tells(restore_json(d), "\"rollback\":"@, opt_report_json(d.rollback)),
{
    broadcast use {told_on, told_here, told_first};

    assert(ends("{\"file\":"@, "\"file\":"@)) by {
        reveal_strlit("{\"file\":");
        reveal_strlit("\"file\":");
        assert("{\"file\":"@.skip("{\"file\":"@.len() - "\"file\":"@.len()) =~= "\"file\":"@);
    }
    assert(ends(",\"destination\":"@, "\"destination\":"@)) by {
        reveal_strlit(",\"destination\":");
        reveal_strlit("\"destination\":");
        assert(",\"destination\":"@.skip(",\"destination\":"@.len() - "\"destination\":"@.len()) =~= "\"destination\":"@);
    }
    assert(ends(",\"overwrite\":"@, "\"overwrite\":"@)) by {
        reveal_strlit(",\"overwrite\":");
        reveal_strlit("\"overwrite\":");
        assert(",\"overwrite\":"@.skip(",\"overwrite\":"@.len() - "\"overwrite\":"@.len()) =~= "\"overwrite\":"@);
    }
    assert(ends(",\"dryRun\":"@, "\"dryRun\":"@)) by {
        reveal_strlit(",\"dryRun\":");
        reveal_strlit("\"dryRun\":");
        assert(",\"dryRun\":"@.skip(",\"dryRun\":"@.len() - "\"dryRun\":"@.len()) =~= "\"dryRun\":"@);
    }
    assert(ends(",\"undo\":"@, "\"undo\":"@)) by {
        reveal_strlit(",\"undo\":");
        reveal_strlit("\"undo\":");
        assert(",\"undo\":"@.skip(",\"undo\":"@.len() - "\"undo\":"@.len()) =~= "\"undo\":"@);
    }
    assert(ends(",\"apply\":"@, "\"apply\":"@)) by {
        reveal_strlit(",\"apply\":");
        reveal_strlit("\"apply\":");
        assert(",\"apply\":"@.skip(",\"apply\":"@.len() - "\"apply\":"@.len()) =~= "\"apply\":"@);
    }
    assert(ends(",\"rolledBack\":"@, "\"rolledBack\":"@)) by {
        reveal_strlit(",\"rolledBack\":");
        reveal_strlit("\"rolledBack\":");
        assert(",\"rolledBack\":"@.skip(",\"rolledBack\":"@.len() - "\"rolledBack\":"@.len()) =~= "\"rolledBack\":"@);
    }
    assert(ends(",\"rollback\":"@, "\"rollback\":"@)) by {
        reveal_strlit(",\"rollback\":");
        reveal_strlit("\"rollback\":");
        assert(",\"rollback\":"@.skip(",\"rollback\":"@.len() - "\"rollback\":"@.len()) =~= "\"rollback\":"@);
    }
}

/// In the document of a restore view each field holds what it is named after.
pub proof fn restore_view_tells_its_fields(d: RestoreView)
    ensures
        tells(restore_view_json(d), "\"view\":"@, json_string(d.view@)),
        tells(restore_view_json(d), "\"file\":"@, json_string(d.file@)),
        tells(restore_view_json(d), "\"undo\":"@, json_string(d.undo@)),
        tells(restore_view_json(d), "\"apply\":"@, opt_report_json(d.applied)),
        tells(restore_view_json(d), "\"rolledBack\":"@, json_bool(d.rollback is Some)),
        tells(restore_view_json(d), "\"rollback\":"@, opt_report_json(d.rollback)),
{
    broadcast use {told_on, told_here, told_first};

    assert(ends("{\"view\":"@, "\"view\":"@)) by {
        reveal_strlit("{\"view\":");
        reveal_strlit("\"view\":");
        assert("{\"view\":"@.skip("{\"view\":"@.len() - "\"view\":"@.len()) =~= "\"view\":"@);
    }
    assert(ends(",\"file\":"@, "\"file\":"@)) by {
        reveal_strlit(",\"file\":");
        reveal_strlit("\"file\":");
        assert(",\"file\":"@.skip(",\"file\":"@.len() - "\"file\":"@.len()) =~= "\"file\":"@);
    }
    assert(ends(",\"undo\":"@, "\"undo\":"@)) by {
        reveal_strlit(",\"undo\":");
        reveal_strlit("\"undo\":");
        assert(",\"undo\":"@.skip(",\"undo\":"@.len() - "\"undo\":"@.len()) =~= "\"undo\":"@);
    }
    assert(ends(",\"apply\":"@, "\"apply\":"@)) by {
        reveal_strlit(",\"apply\":");
        reveal_strlit("\"apply\":");
        assert(",\"apply\":"@.skip(",\"apply\":"@.len() - "\"apply\":"@.len()) =~= "\"apply\":"@);
    }
    assert(ends(",\"rolledBack\":"@, "\"rolledBack\":"@)) by {
        reveal_strlit(",\"rolledBack\":");
        reveal_strlit("\"rolledBack\":");
        assert(",\"rolledBack\":"@.skip(",\"rolledBack\":"@.len() - "\"rolledBack\":"@.len()) =~= "\"rolledBack\":"@);
    }
    assert(ends(",\"rollback\":"@, "\"rollback\":"@)) by {
        reveal_strlit(",\"rollback\":");
        reveal_strlit("\"rollback\":");
        assert(",\"rollback\":"@.skip(",\"rollback\":"@.len() - "\"rollback\":"@.len()) =~= "\"rollback\":"@);
    }
}

/// In the document of a restore views each field holds what it is named after.
pub proof fn restore_views_tells_its_fields(d: RestoreViews)
    ensures
        tells(restore_views_json(d), "\"file\":"@, json_string(d.file@)),
        tells(restore_views_json(d), "\"destination\":"@, json_string(path_text(d.destination@))),
        tells(restore_views_json(d), "\"overwrite\":"@, json_bool(d.overwrite)),
        tells(restore_views_json(d), "\"dryRun\":"@, json_bool(d.dry_run)),
        tells(restore_views_json(d), "\"views\":["@, restore_view_items(d.views@)),
{
    broadcast use {told_on, told_here, told_first};

    assert(ends("{\"file\":"@, "\"file\":"@)) by {
        reveal_strlit("{\"file\":");
        reveal_strlit("\"file\":");
        assert("{\"file\":"@.skip("{\"file\":"@.len() - "\"file\":"@.len()) =~= "\"file\":"@);
    }
    assert(ends(",\"destination\":"@, "\"destination\":"@)) by {
        reveal_strlit(",\"destination\":");
        reveal_strlit("\"destination\":");
        assert(",\"destination\":"@.skip(",\"destination\":"@.len() - "\"destination\":"@.len()) =~= "\"destination\":"@);
    }
    assert(ends(",\"overwrite\":"@, "\"overwrite\":"@)) by {
        reveal_strlit(",\"overwrite\":");
        reveal_strlit("\"overwrite\":");
        assert(",\"overwrite\":"@.skip(",\"overwrite\":"@.len() - "\"overwrite\":"@.len()) =~= "\"overwrite\":"@);
    }
    assert(ends(",\"dryRun\":"@, "\"dryRun\":"@)) by {
        reveal_strlit(",\"dryRun\":");
        reveal_strlit("\"dryRun\":");
        assert(",\"dryRun\":"@.skip(",\"dryRun\":"@.len() - "\"dryRun\":"@.len()) =~= "\"dryRun\":"@);
    }
    assert(ends(",\"views\":["@, "\"views\":["@)) by {
        reveal_strlit(",\"views\":[");
        reveal_strlit("\"views\":[");
        assert(",\"views\":["@.skip(",\"views\":["@.len() - "\"views\":["@.len()) =~= "\"views\":["@);
    }
}

/// In the document of a plan report each field holds what it is named after.
pub proof fn plan_report_tells_its_fields(d: PlanReport)
    ensures
        tells(plan_report_json(d), "\"files\": ["@, json_spaced(views(d.files@))),
        tells(plan_report_json(d), "\"prune\": "@, json_bool(d.prune)),
        tells(plan_report_json(d), "\"redacted\": "@, json_bool(d.redacted)),
        tells(plan_report_json(d), "\"blocked\": "@, json_bool(d.blocked)),
        tells(plan_report_json(d), "\"skipped\": "@, dec_of(d.skipped as nat)),
        tells(plan_report_json(d), "\"refused\": "@, dec_of(d.refused as nat)),
        tells(plan_report_json(d), "\"configured\": "@, json_bool(d.configured)),
        tells(plan_report_json(d), "\"decisions\": ["@, json_spaced(views(d.decisions@))),
        tells(plan_report_json(d), "\"denied\": [\n"@, joined(pairs_json("    "@, "path"@, "rule"@, d.plan.denied@), ",\n"@)),
        tells(plan_report_json(d), "\"path\": "@, json_string(d.plan.rollback_path@)),
        tells(plan_report_json(d), "\"complete\": "@, json_bool(d.plan.rollback.unreadable@.len() == 0)),
        tells(plan_report_json(d), "\"restoredValues\": "@, dec_of(d.plan.rollback.restored_values as nat)),
        tells(plan_report_json(d), "\"newKeys\": "@, dec_of(d.plan.rollback.new_keys@.len())),
        tells(plan_report_json(d), "\"unreadable\": "@, dec_of(d.plan.rollback.unreadable@.len())),
        tells(plan_report_json(d), "\"changes\": [\n"@, joined(plan_changes_json("    "@, d.plan.changes@, d.redacted), ",\n"@)),
        tells(plan_report_json(d), "\"failures\": [\n"@, joined(pairs_json("    "@, "target"@, "problem"@, d.plan.failures@), ",\n"@)),
{
    broadcast use {told_on, told_here, told_first};

    assert(ends("{\n  \"files\": ["@, "\"files\": ["@)) by {
        reveal_strlit("{\n  \"files\": [");
        reveal_strlit("\"files\": [");
        assert("{\n  \"files\": ["@.skip("{\n  \"files\": ["@.len() - "\"files\": ["@.len()) =~= "\"files\": ["@);
    }
    assert(ends("],\n  \"prune\": "@, "\"prune\": "@)) by {
        reveal_strlit("],\n  \"prune\": ");
        reveal_strlit("\"prune\": ");
        assert("],\n  \"prune\": "@.skip("],\n  \"prune\": "@.len() - "\"prune\": "@.len()) =~= "\"prune\": "@);
    }
    assert(ends(",\n  \"redacted\": "@, "\"redacted\": "@)) by {
        reveal_strlit(",\n  \"redacted\": ");
        reveal_strlit("\"redacted\": ");
        assert(",\n  \"redacted\": "@.skip(",\n  \"redacted\": "@.len() - "\"redacted\": "@.len()) =~= "\"redacted\": "@);
    }
    assert(ends(",\n  \"blocked\": "@, "\"blocked\": "@)) by {
        reveal_strlit(",\n  \"blocked\": ");
        reveal_strlit("\"blocked\": ");
        assert(",\n  \"blocked\": "@.skip(",\n  \"blocked\": "@.len() - "\"blocked\": "@.len()) =~= "\"blocked\": "@);
    }
    assert(ends(",\n  \"redirect\": {\"skipped\": "@, "\"skipped\": "@)) by {
        reveal_strlit(",\n  \"redirect\": {\"skipped\": ");
        reveal_strlit("\"skipped\": ");
        assert(",\n  \"redirect\": {\"skipped\": "@.skip(",\n  \"redirect\": {\"skipped\": "@.len() - "\"skipped\": "@.len()) =~= "\"skipped\": "@);
    }
    assert(ends(", \"refused\": "@, "\"refused\": "@)) by {
        reveal_strlit(", \"refused\": ");
        reveal_strlit("\"refused\": ");
        assert(", \"refused\": "@.skip(", \"refused\": "@.len() - "\"refused\": "@.len()) =~= "\"refused\": "@);
    }
    assert(ends("},\n  \"policy\": {\"configured\": "@, "\"configured\": "@)) by {
        reveal_strlit("},\n  \"policy\": {\"configured\": ");
        reveal_strlit("\"configured\": ");
        assert("},\n  \"policy\": {\"configured\": "@.skip("},\n  \"policy\": {\"configured\": "@.len() - "\"configured\": "@.len()) =~= "\"configured\": "@);
    }
    assert(ends(", \"decisions\": ["@, "\"decisions\": ["@)) by {
        reveal_strlit(", \"decisions\": [");
        reveal_strlit("\"decisions\": [");
        assert(", \"decisions\": ["@.skip(", \"decisions\": ["@.len() - "\"decisions\": ["@.len()) =~= "\"decisions\": ["@);
    }
    assert(ends("], \"denied\": [\n"@, "\"denied\": [\n"@)) by {
        reveal_strlit("], \"denied\": [\n");
        reveal_strlit("\"denied\": [\n");
        assert("], \"denied\": [\n"@.skip("], \"denied\": [\n"@.len() - "\"denied\": [\n"@.len()) =~= "\"denied\": [\n"@);
    }
    assert(ends("\n  ]},\n  \"rollback\": {\"path\": "@, "\"path\": "@)) by {
        reveal_strlit("\n  ]},\n  \"rollback\": {\"path\": ");
        reveal_strlit("\"path\": ");
        assert("\n  ]},\n  \"rollback\": {\"path\": "@.skip("\n  ]},\n  \"rollback\": {\"path\": "@.len() - "\"path\": "@.len()) =~= "\"path\": "@);
    }
    assert(ends(", \"complete\": "@, "\"complete\": "@)) by {
        reveal_strlit(", \"complete\": ");
        reveal_strlit("\"complete\": ");
        assert(", \"complete\": "@.skip(", \"complete\": "@.len() - "\"complete\": "@.len()) =~= "\"complete\": "@);
    }
    assert(ends(", \"restoredValues\": "@, "\"restoredValues\": "@)) by {
        reveal_strlit(", \"restoredValues\": ");
        reveal_strlit("\"restoredValues\": ");
        assert(", \"restoredValues\": "@.skip(", \"restoredValues\": "@.len() - "\"restoredValues\": "@.len()) =~= "\"restoredValues\": "@);
    }
    assert(ends(", \"newKeys\": "@, "\"newKeys\": "@)) by {
        reveal_strlit(", \"newKeys\": ");
        reveal_strlit("\"newKeys\": ");
        assert(", \"newKeys\": "@.skip(", \"newKeys\": "@.len() - "\"newKeys\": "@.len()) =~= "\"newKeys\": "@);
    }
    assert(ends(", \"unreadable\": "@, "\"unreadable\": "@)) by {
        reveal_strlit(", \"unreadable\": ");
        reveal_strlit("\"unreadable\": ");
        assert(", \"unreadable\": "@.skip(", \"unreadable\": "@.len() - "\"unreadable\": "@.len()) =~= "\"unreadable\": "@);
    }
    assert(ends("},\n  \"changes\": [\n"@, "\"changes\": [\n"@)) by {
        reveal_strlit("},\n  \"changes\": [\n");
        reveal_strlit("\"changes\": [\n");
        assert("},\n  \"changes\": [\n"@.skip("},\n  \"changes\": [\n"@.len() - "\"changes\": [\n"@.len()) =~= "\"changes\": [\n"@);
    }
    assert(ends("\n  ],\n  \"failures\": [\n"@, "\"failures\": [\n"@)) by {
        reveal_strlit("\n  ],\n  \"failures\": [\n");
        reveal_strlit("\"failures\": [\n");
        assert("\n  ],\n  \"failures\": [\n"@.skip("\n  ],\n  \"failures\": [\n"@.len() - "\"failures\": [\n"@.len()) =~= "\"failures\": [\n"@);
    }
}

/// In the document of a plan views each field holds what it is named after.
pub proof fn plan_views_tells_its_fields(d: PlanViews)
    ensures
        tells(plan_views_json(d), "\"files\": ["@, json_spaced(views(d.files@))),
        tells(plan_views_json(d), "\"prune\": "@, json_bool(d.prune)),
        tells(plan_views_json(d), "\"redacted\": "@, json_bool(d.redacted)),
        tells(plan_views_json(d), "\"skipped\": "@, dec_of(d.skipped as nat)),
        tells(plan_views_json(d), "\"refused\": "@, dec_of(d.refused as nat)),
        tells(plan_views_json(d), "\"configured\": "@, json_bool(d.configured)),
        tells(plan_views_json(d), "\"decisions\": ["@, json_spaced(views(d.decisions@))),
        tells(plan_views_json(d), "\"views\": [\n"@, view_plan_items(d.views@, d.redacted)),
{
    broadcast use {told_on, told_here, told_first};

    assert(ends("{\n  \"files\": ["@, "\"files\": ["@)) by {
        reveal_strlit("{\n  \"files\": [");
        reveal_strlit("\"files\": [");
        assert("{\n  \"files\": ["@.skip("{\n  \"files\": ["@.len() - "\"files\": ["@.len()) =~= "\"files\": ["@);
    }
    assert(ends("],\n  \"prune\": "@, "\"prune\": "@)) by {
        reveal_strlit("],\n  \"prune\": ");
        reveal_strlit("\"prune\": ");
        assert("],\n  \"prune\": "@.skip("],\n  \"prune\": "@.len() - "\"prune\": "@.len()) =~= "\"prune\": "@);
    }
    assert(ends(",\n  \"redacted\": "@, "\"redacted\": "@)) by {
        reveal_strlit(",\n  \"redacted\": ");
        reveal_strlit("\"redacted\": ");
        assert(",\n  \"redacted\": "@.skip(",\n  \"redacted\": "@.len() - "\"redacted\": "@.len()) =~= "\"redacted\": "@);
    }
    assert(ends(",\n  \"redirect\": {\"skipped\": "@, "\"skipped\": "@)) by {
        reveal_strlit(",\n  \"redirect\": {\"skipped\": ");
        reveal_strlit("\"skipped\": ");
        assert(",\n  \"redirect\": {\"skipped\": "@.skip(",\n  \"redirect\": {\"skipped\": "@.len() - "\"skipped\": "@.len()) =~= "\"skipped\": "@);
    }
    assert(ends(", \"refused\": "@, "\"refused\": "@)) by {
        reveal_strlit(", \"refused\": ");
        reveal_strlit("\"refused\": ");
        assert(", \"refused\": "@.skip(", \"refused\": "@.len() - "\"refused\": "@.len()) =~= "\"refused\": "@);
    }
    assert(ends("},\n  \"policy\": {\"configured\": "@, "\"configured\": "@)) by {
        reveal_strlit("},\n  \"policy\": {\"configured\": ");
        reveal_strlit("\"configured\": ");
        assert("},\n  \"policy\": {\"configured\": "@.skip("},\n  \"policy\": {\"configured\": "@.len() - "\"configured\": "@.len()) =~= "\"configured\": "@);
    }
    assert(ends(", \"decisions\": ["@, "\"decisions\": ["@)) by {
        reveal_strlit(", \"decisions\": [");
        reveal_strlit("\"decisions\": [");
        assert(", \"decisions\": ["@.skip(", \"decisions\": ["@.len() - "\"decisions\": ["@.len()) =~= "\"decisions\": ["@);
    }
    assert(ends("]},\n  \"views\": [\n"@, "\"views\": [\n"@)) by {
        reveal_strlit("]},\n  \"views\": [\n");
        reveal_strlit("\"views\": [\n");
        assert("]},\n  \"views\": [\n"@.skip("]},\n  \"views\": [\n"@.len() - "\"views\": [\n"@.len()) =~= "\"views\": [\n"@);
    }
}

/// In the document of an action each field holds what it is named after.
pub proof fn action_tells_its_fields(a: ActionView)
    ensures
        tells(action_json(a), "\"operation\":"@, json_string(operation_name(a))),
        tells(action_json(a), "\"path\":"@, json_string(destination(a))),
{
    broadcast use {told_on, told_here, told_first};

    assert(ends("{\"operation\":"@, "\"operation\":"@)) by {
        reveal_strlit("{\"operation\":");
        reveal_strlit("\"operation\":");
        assert("{\"operation\":"@.skip("{\"operation\":"@.len() - "\"operation\":"@.len()) =~= "\"operation\":"@);
    }
    assert(ends(",\"path\":"@, "\"path\":"@)) by {
        reveal_strlit(",\"path\":");
        reveal_strlit("\"path\":");
        assert(",\"path\":"@.skip(",\"path\":"@.len() - "\"path\":"@.len()) =~= "\"path\":"@);
    }
}

/// In the document of a manifest each field holds what it is named after.
pub proof fn manifest_tells_its_fields(actions: Seq<ActionView>, dry_run: bool, failed: bool)
    ensures
        tells(manifest_json(actions, dry_run, failed), "\"dryRun\":"@, json_bool(dry_run)),
        tells(manifest_json(actions, dry_run, failed), "\"failed\":"@, json_bool(failed)),
        tells(manifest_json(actions, dry_run, failed), "\"actions\":["@, joined(actions.map_values(|a: ActionView| action_json(a)), ","@)),
{
    broadcast use {told_on, told_here, told_first};

    assert(ends("{\"schemaVersion\":1,\"command\":\"lnk.apply\",\"dryRun\":"@, "\"dryRun\":"@)) by {
        reveal_strlit("{\"schemaVersion\":1,\"command\":\"lnk.apply\",\"dryRun\":");
        reveal_strlit("\"dryRun\":");
        assert("{\"schemaVersion\":1,\"command\":\"lnk.apply\",\"dryRun\":"@.skip("{\"schemaVersion\":1,\"command\":\"lnk.apply\",\"dryRun\":"@.len() - "\"dryRun\":"@.len()) =~= "\"dryRun\":"@);
    }
    assert(ends(",\"failed\":"@, "\"failed\":"@)) by {
        reveal_strlit(",\"failed\":");
        reveal_strlit("\"failed\":");
        assert(",\"failed\":"@.skip(",\"failed\":"@.len() - "\"failed\":"@.len()) =~= "\"failed\":"@);
    }
    assert(ends(",\"actions\":["@, "\"actions\":["@)) by {
        reveal_strlit(",\"actions\":[");
        reveal_strlit("\"actions\":[");
        assert(",\"actions\":["@.skip(",\"actions\":["@.len() - "\"actions\":["@.len()) =~= "\"actions\":["@);
    }
}

} // verus!
