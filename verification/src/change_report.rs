//! What changes of the registry report.
use vstd::prelude::*;

use crate::apply::{
    apply_report_json, artifact_evidence_json, backup_evidence_json, evidence_json,
    opt_apply_report_json, opt_report_json, redo_evidence_json, report_json, undo_evidence_json,
    written_view, ApplyReport,
};
use crate::json::{jbool, jopt_string, json_bool, json_opt, json_string, jstr};
use crate::model::{api_name, path_text, RegPath, ValueName};
use crate::number::{dec_of, push_dec};
use crate::parts::{jopt_api, opt_api_json};
use crate::text::{join, joined, opt_text, views, views_push};

verus! {

// ---------------------------------------------------------------------------
// Importing, setting, deleting, undoing
// ---------------------------------------------------------------------------

/// What became of a change in one view.
#[derive(Debug)]
pub struct ViewChange {
    pub view: String,
    pub undo: Option<String>,
    pub written: Option<(u64, String)>,
    pub applied: Option<ApplyReport>,
    pub rollback: Option<ApplyReport>,
}

/// What became of a change in one view, as JSON.
pub open spec fn view_change_json(d: ViewChange) -> Seq<char> {
    "{\"view\":"@ + json_string(d.view@) + ",\"undo\":"@ + json_opt(opt_text(d.undo)) + ", "@
        + evidence_json("undoBytes"@, "undoSha256"@, written_view(d.written)) + ",\"apply\":"@
        + opt_report_json(d.applied) + ",\"rolledBack\":"@ + json_bool(d.rollback is Some)
        + ",\"rollback\":"@ + opt_report_json(d.rollback) + "}"@
}

impl ViewChange {
    /// What became of a change in one view, as JSON.
    pub fn to_json(&self) -> (out: String)
        ensures
            out@ == view_change_json(*self),
    {
        let mut out = "{\"view\":".to_owned();
        out.append(jstr(self.view.as_str()).as_str());
        out.append(",\"undo\":");
        out.append(jopt_string(&self.undo).as_str());
        out.append(", ");
        out.append(undo_evidence_json(&self.written).as_str());
        out.append(",\"apply\":");
        out.append(opt_apply_report_json(&self.applied).as_str());
        out.append(",\"rolledBack\":");
        out.append(jbool(self.rollback.is_some()));
        out.append(",\"rollback\":");
        out.append(opt_apply_report_json(&self.rollback).as_str());
        out.append("}");
        out
    }
}

/// Changes as JSON, with commas between them.
pub open spec fn view_change_items(items: Seq<ViewChange>) -> Seq<char> {
    joined(items.map_values(|d: ViewChange| view_change_json(d)), ","@)
}

fn view_change_list(items: &Vec<ViewChange>) -> (out: String)
    ensures
        out@ == view_change_items(items@),
{
    broadcast use views_push;

    let mut parts: Vec<String> = Vec::new();
    for i in 0..items.len()
        invariant
            views(parts@) =~= items@.take(i as int).map_values(
                |d: ViewChange| view_change_json(d),
            ),
    {
        let one = items[i].to_json();
        let ghost before = parts@;
        parts.push(one);
        assert(views(parts@) == views(before).push(one@));
    }
    assert(items@.take(items@.len() as int) =~= items@);
    join(parts.as_slice(), ",")
}

/// What became of an import.
#[derive(Debug)]
pub struct ImportReport {
    /// A failure takes back what was done.
    pub atomic: bool,
    pub views: Vec<ViewChange>,
}

/// What became of an import, as JSON.
pub open spec fn import_report_json(d: ImportReport) -> Seq<char> {
    "{\"atomic\":"@ + json_bool(d.atomic) + ",\"views\":["@ + view_change_items(d.views@) + "]}"@
}

impl ImportReport {
    /// What became of an import, as JSON.
    pub fn to_json(&self) -> (out: String)
        ensures
            out@ == import_report_json(*self),
    {
        let mut out = "{\"atomic\":".to_owned();
        out.append(jbool(self.atomic));
        out.append(",\"views\":[");
        out.append(view_change_list(&self.views).as_str());
        out.append("]}");
        out
    }
}

/// What became of a change in every view.
#[derive(Debug)]
pub struct ChangeReport {
    pub views: Vec<ViewChange>,
}

/// What became of a change in every view, as JSON.
pub open spec fn change_report_json(d: ChangeReport) -> Seq<char> {
    "{\"views\":["@ + view_change_items(d.views@) + "]}"@
}

impl ChangeReport {
    /// What became of a change in every view, as JSON.
    pub fn to_json(&self) -> (out: String)
        ensures
            out@ == change_report_json(*self),
    {
        let mut out = "{\"views\":[".to_owned();
        out.append(view_change_list(&self.views).as_str());
        out.append("]}");
        out
    }
}

/// What became of a change in one view that kept no undo file.
#[derive(Debug)]
pub struct ViewResult {
    pub view: String,
    pub applied: Option<ApplyReport>,
    pub rollback: Option<ApplyReport>,
}

/// What became of a change in one view that kept no undo file, as JSON.
pub open spec fn view_result_json(d: ViewResult) -> Seq<char> {
    "{\"view\":"@ + json_string(d.view@)
        + ",\"undo\":null,\"undoBytes\":null,\"undoSha256\":null,\"apply\":"@
        + opt_report_json(d.applied) + ",\"rolledBack\":"@ + json_bool(d.rollback is Some)
        + ",\"rollback\":"@ + opt_report_json(d.rollback) + "}"@
}

impl ViewResult {
    /// What became of a change in one view that kept no undo file, as JSON.
    pub fn to_json(&self) -> (out: String)
        ensures
            out@ == view_result_json(*self),
    {
        let mut out = "{\"view\":".to_owned();
        out.append(jstr(self.view.as_str()).as_str());
        out.append(",\"undo\":null,\"undoBytes\":null,\"undoSha256\":null,\"apply\":");
        out.append(opt_apply_report_json(&self.applied).as_str());
        out.append(",\"rolledBack\":");
        out.append(jbool(self.rollback.is_some()));
        out.append(",\"rollback\":");
        out.append(opt_apply_report_json(&self.rollback).as_str());
        out.append("}");
        out
    }
}

/// Changes as JSON, with commas between them.
pub open spec fn view_result_items(items: Seq<ViewResult>) -> Seq<char> {
    joined(items.map_values(|d: ViewResult| view_result_json(d)), ","@)
}

fn view_result_list(items: &Vec<ViewResult>) -> (out: String)
    ensures
        out@ == view_result_items(items@),
{
    broadcast use views_push;

    let mut parts: Vec<String> = Vec::new();
    for i in 0..items.len()
        invariant
            views(parts@) =~= items@.take(i as int).map_values(
                |d: ViewResult| view_result_json(d),
            ),
    {
        let one = items[i].to_json();
        let ghost before = parts@;
        parts.push(one);
        assert(views(parts@) == views(before).push(one@));
    }
    assert(items@.take(items@.len() as int) =~= items@);
    join(parts.as_slice(), ",")
}

/// What became of a change that kept no undo files.
#[derive(Debug)]
pub struct ResultReport {
    pub views: Vec<ViewResult>,
}

/// What became of a change that kept no undo files, as JSON.
pub open spec fn result_report_json(d: ResultReport) -> Seq<char> {
    "{\"views\":["@ + view_result_items(d.views@) + "]}"@
}

impl ResultReport {
    /// What became of a change that kept no undo files, as JSON.
    pub fn to_json(&self) -> (out: String)
        ensures
            out@ == result_report_json(*self),
    {
        let mut out = "{\"views\":[".to_owned();
        out.append(view_result_list(&self.views).as_str());
        out.append("]}");
        out
    }
}

/// What became of an undo in one view.
#[derive(Debug)]
pub struct ViewRedo {
    pub view: String,
    pub redo: Option<String>,
    pub written: Option<(u64, String)>,
    pub applied: Option<ApplyReport>,
    pub rollback: Option<ApplyReport>,
}

/// What became of an undo in one view, as JSON.
pub open spec fn view_redo_json(d: ViewRedo) -> Seq<char> {
    "{\"view\":"@ + json_string(d.view@) + ",\"redo\":"@ + json_opt(opt_text(d.redo)) + ", "@
        + evidence_json("redoBytes"@, "redoSha256"@, written_view(d.written)) + ",\"apply\":"@
        + opt_report_json(d.applied) + ",\"rolledBack\":"@ + json_bool(d.rollback is Some)
        + ",\"rollback\":"@ + opt_report_json(d.rollback) + "}"@
}

impl ViewRedo {
    /// What became of an undo in one view, as JSON.
    pub fn to_json(&self) -> (out: String)
        ensures
            out@ == view_redo_json(*self),
    {
        let mut out = "{\"view\":".to_owned();
        out.append(jstr(self.view.as_str()).as_str());
        out.append(",\"redo\":");
        out.append(jopt_string(&self.redo).as_str());
        out.append(", ");
        out.append(redo_evidence_json(&self.written).as_str());
        out.append(",\"apply\":");
        out.append(opt_apply_report_json(&self.applied).as_str());
        out.append(",\"rolledBack\":");
        out.append(jbool(self.rollback.is_some()));
        out.append(",\"rollback\":");
        out.append(opt_apply_report_json(&self.rollback).as_str());
        out.append("}");
        out
    }
}

/// Undos as JSON, with commas between them.
pub open spec fn view_redo_items(items: Seq<ViewRedo>) -> Seq<char> {
    joined(items.map_values(|d: ViewRedo| view_redo_json(d)), ","@)
}

fn view_redo_list(items: &Vec<ViewRedo>) -> (out: String)
    ensures
        out@ == view_redo_items(items@),
{
    broadcast use views_push;

    let mut parts: Vec<String> = Vec::new();
    for i in 0..items.len()
        invariant
            views(parts@) =~= items@.take(i as int).map_values(
                |d: ViewRedo| view_redo_json(d),
            ),
    {
        let one = items[i].to_json();
        let ghost before = parts@;
        parts.push(one);
        assert(views(parts@) == views(before).push(one@));
    }
    assert(items@.take(items@.len() as int) =~= items@);
    join(parts.as_slice(), ",")
}

/// What became of an undo.
#[derive(Debug)]
pub struct UndoReport {
    pub views: Vec<ViewRedo>,
}

/// What became of an undo, as JSON.
pub open spec fn undo_report_json(d: UndoReport) -> Seq<char> {
    "{\"atomic\":true,\"views\":["@ + view_redo_items(d.views@) + "]}"@
}

impl UndoReport {
    /// What became of an undo, as JSON.
    pub fn to_json(&self) -> (out: String)
        ensures
            out@ == undo_report_json(*self),
    {
        let mut out = "{\"atomic\":true,\"views\":[".to_owned();
        out.append(view_redo_list(&self.views).as_str());
        out.append("]}");
        out
    }
}

// ---------------------------------------------------------------------------
// Batches
// ---------------------------------------------------------------------------

/// What was done in one view.
#[derive(Debug)]
pub struct ViewApplied {
    pub view: String,
    pub applied: ApplyReport,
}

/// What was done in one view, as JSON.
pub open spec fn view_applied_json(d: ViewApplied) -> Seq<char> {
    "{\"view\":"@ + json_string(d.view@) + ",\"apply\":"@ + report_json(d.applied) + "}"@
}

impl ViewApplied {
    /// What was done in one view, as JSON.
    pub fn to_json(&self) -> (out: String)
        ensures
            out@ == view_applied_json(*self),
    {
        let mut out = "{\"view\":".to_owned();
        out.append(jstr(self.view.as_str()).as_str());
        out.append(",\"apply\":");
        out.append(apply_report_json(&self.applied).as_str());
        out.append("}");
        out
    }
}

/// Reports as JSON, with commas between them.
pub open spec fn view_applied_items(items: Seq<ViewApplied>) -> Seq<char> {
    joined(items.map_values(|d: ViewApplied| view_applied_json(d)), ","@)
}

fn view_applied_list(items: &Vec<ViewApplied>) -> (out: String)
    ensures
        out@ == view_applied_items(items@),
{
    broadcast use views_push;

    let mut parts: Vec<String> = Vec::new();
    for i in 0..items.len()
        invariant
            views(parts@) =~= items@.take(i as int).map_values(
                |d: ViewApplied| view_applied_json(d),
            ),
    {
        let one = items[i].to_json();
        let ghost before = parts@;
        parts.push(one);
        assert(views(parts@) == views(before).push(one@));
    }
    assert(items@.take(items@.len() as int) =~= items@);
    join(parts.as_slice(), ",")
}

/// What became of one operation of a batch.
#[derive(Debug)]
pub struct BatchOperation {
    pub id: String,
    pub status: String,
    pub views: Vec<ViewApplied>,
}

/// What became of one operation of a batch, as JSON.
pub open spec fn batch_operation_json(d: BatchOperation) -> Seq<char> {
    "{\"id\":"@ + json_string(d.id@) + ",\"status\":"@ + json_string(d.status@) + ",\"views\":["@
        + view_applied_items(d.views@) + "]}"@
}

impl BatchOperation {
    /// What became of one operation of a batch, as JSON.
    pub fn to_json(&self) -> (out: String)
        ensures
            out@ == batch_operation_json(*self),
    {
        let mut out = "{\"id\":".to_owned();
        out.append(jstr(self.id.as_str()).as_str());
        out.append(",\"status\":");
        out.append(jstr(self.status.as_str()).as_str());
        out.append(",\"views\":[");
        out.append(view_applied_list(&self.views).as_str());
        out.append("]}");
        out
    }
}

/// Operations as JSON, with commas between them.
pub open spec fn batch_operation_items(items: Seq<BatchOperation>) -> Seq<char> {
    joined(items.map_values(|d: BatchOperation| batch_operation_json(d)), ","@)
}

fn batch_operation_list(items: &Vec<BatchOperation>) -> (out: String)
    ensures
        out@ == batch_operation_items(items@),
{
    broadcast use views_push;

    let mut parts: Vec<String> = Vec::new();
    for i in 0..items.len()
        invariant
            views(parts@) =~= items@.take(i as int).map_values(
                |d: BatchOperation| batch_operation_json(d),
            ),
    {
        let one = items[i].to_json();
        let ghost before = parts@;
        parts.push(one);
        assert(views(parts@) == views(before).push(one@));
    }
    assert(items@.take(items@.len() as int) =~= items@);
    join(parts.as_slice(), ",")
}

/// The undo file of one view.
#[derive(Debug)]
pub struct UndoFile {
    pub view: String,
    pub path: String,
    pub written: Option<(u64, String)>,
}

/// The undo file of one view, as JSON.
pub open spec fn undo_file_json(d: UndoFile) -> Seq<char> {
    "{\"view\":"@ + json_string(d.view@) + ",\"path\":"@ + json_string(d.path@) + ", "@
        + evidence_json("bytes"@, "sha256"@, written_view(d.written)) + "}"@
}

impl UndoFile {
    /// The undo file of one view, as JSON.
    pub fn to_json(&self) -> (out: String)
        ensures
            out@ == undo_file_json(*self),
    {
        let mut out = "{\"view\":".to_owned();
        out.append(jstr(self.view.as_str()).as_str());
        out.append(",\"path\":");
        out.append(jstr(self.path.as_str()).as_str());
        out.append(", ");
        out.append(artifact_evidence_json(&self.written).as_str());
        out.append("}");
        out
    }
}

/// Undo files as JSON, with commas between them.
pub open spec fn undo_file_items(items: Seq<UndoFile>) -> Seq<char> {
    joined(items.map_values(|d: UndoFile| undo_file_json(d)), ","@)
}

fn undo_file_list(items: &Vec<UndoFile>) -> (out: String)
    ensures
        out@ == undo_file_items(items@),
{
    broadcast use views_push;

    let mut parts: Vec<String> = Vec::new();
    for i in 0..items.len()
        invariant
            views(parts@) =~= items@.take(i as int).map_values(
                |d: UndoFile| undo_file_json(d),
            ),
    {
        let one = items[i].to_json();
        let ghost before = parts@;
        parts.push(one);
        assert(views(parts@) == views(before).push(one@));
    }
    assert(items@.take(items@.len() as int) =~= items@);
    join(parts.as_slice(), ",")
}

/// What became of a batch.
#[derive(Debug)]
pub struct BatchReport {
    pub schema: String,
    pub manifest: String,
    pub dry_run: bool,
    pub undo: Vec<UndoFile>,
    pub operations: Vec<BatchOperation>,
    pub rollback: Vec<ViewApplied>,
}

/// What became of a batch, as JSON.
pub open spec fn batch_report_json(d: BatchReport) -> Seq<char> {
    "{\"schema\":"@ + json_string(d.schema@) + ",\"schemaVersion\":1,\"manifest\":"@
        + json_string(d.manifest@) + ",\"atomic\":true,\"dryRun\":"@ + json_bool(d.dry_run)
        + ",\"undo\":["@ + undo_file_items(d.undo@) + "],\"operations\":["@
        + batch_operation_items(d.operations@) + "],\"rollback\":["@
        + view_applied_items(d.rollback@) + "]}"@
}

impl BatchReport {
    /// What became of a batch, as JSON.
    pub fn to_json(&self) -> (out: String)
        ensures
            out@ == batch_report_json(*self),
    {
        let mut out = "{\"schema\":".to_owned();
        out.append(jstr(self.schema.as_str()).as_str());
        out.append(",\"schemaVersion\":1,\"manifest\":");
        out.append(jstr(self.manifest.as_str()).as_str());
        out.append(",\"atomic\":true,\"dryRun\":");
        out.append(jbool(self.dry_run));
        out.append(",\"undo\":[");
        out.append(undo_file_list(&self.undo).as_str());
        out.append("],\"operations\":[");
        out.append(batch_operation_list(&self.operations).as_str());
        out.append("],\"rollback\":[");
        out.append(view_applied_list(&self.rollback).as_str());
        out.append("]}");
        out
    }
}

// ---------------------------------------------------------------------------
// Copying and moving
// ---------------------------------------------------------------------------

/// A copy plan that was saved for one view.
#[derive(Debug)]
pub struct SavedCopyPlan {
    pub view: String,
    pub plan: String,
    pub bytes: u64,
    pub sha256: String,
}

/// A copy plan that was saved for one view, as JSON.
pub open spec fn saved_copy_plan_json(d: SavedCopyPlan) -> Seq<char> {
    "{\"view\":"@ + json_string(d.view@) + ",\"plan\":"@ + json_string(d.plan@)
        + ",\"planBytes\":"@ + dec_of(d.bytes as nat) + ",\"planSha256\":"@
        + json_string(d.sha256@) + "}"@
}

impl SavedCopyPlan {
    /// A copy plan that was saved for one view, as JSON.
    pub fn to_json(&self) -> (out: String)
        ensures
            out@ == saved_copy_plan_json(*self),
    {
        let mut out = "{\"view\":".to_owned();
        out.append(jstr(self.view.as_str()).as_str());
        out.append(",\"plan\":");
        out.append(jstr(self.plan.as_str()).as_str());
        out.append(",\"planBytes\":");
        push_dec(&mut out, self.bytes);
        out.append(",\"planSha256\":");
        out.append(jstr(self.sha256.as_str()).as_str());
        out.append("}");
        out
    }
}

/// Saved plans as JSON, with commas between them.
pub open spec fn saved_copy_plan_items(items: Seq<SavedCopyPlan>) -> Seq<char> {
    joined(items.map_values(|d: SavedCopyPlan| saved_copy_plan_json(d)), ","@)
}

fn saved_copy_plan_list(items: &Vec<SavedCopyPlan>) -> (out: String)
    ensures
        out@ == saved_copy_plan_items(items@),
{
    broadcast use views_push;

    let mut parts: Vec<String> = Vec::new();
    for i in 0..items.len()
        invariant
            views(parts@) =~= items@.take(i as int).map_values(
                |d: SavedCopyPlan| saved_copy_plan_json(d),
            ),
    {
        let one = items[i].to_json();
        let ghost before = parts@;
        parts.push(one);
        assert(views(parts@) == views(before).push(one@));
    }
    assert(items@.take(items@.len() as int) =~= items@);
    join(parts.as_slice(), ",")
}

/// The plans that were saved for copying or moving a value.
#[derive(Debug)]
pub struct SavedValuePlans {
    pub operation: String,
    pub source: RegPath,
    pub source_value: ValueName,
    pub destination: RegPath,
    pub destination_value: ValueName,
    pub plans: Vec<SavedCopyPlan>,
}

/// The plans that were saved for copying or moving a value, as JSON.
pub open spec fn saved_value_plans_json(d: SavedValuePlans) -> Seq<char> {
    "{\"operation\":"@ + json_string(d.operation@) + ",\"source\":"@
        + json_string(path_text(d.source@)) + ",\"sourceValue\":"@
        + json_string(api_name(d.source_value@)) + ",\"destination\":"@
        + json_string(path_text(d.destination@)) + ",\"destinationValue\":"@
        + json_string(api_name(d.destination_value@)) + ",\"plans\":["@
        + saved_copy_plan_items(d.plans@) + "],\"saved\":true}"@
}

impl SavedValuePlans {
    /// The plans that were saved for copying or moving a value, as JSON.
    pub fn to_json(&self) -> (out: String)
        ensures
            out@ == saved_value_plans_json(*self),
    {
        let mut out = "{\"operation\":".to_owned();
        out.append(jstr(self.operation.as_str()).as_str());
        out.append(",\"source\":");
        out.append(jstr(self.source.to_string().as_str()).as_str());
        out.append(",\"sourceValue\":");
        out.append(jstr(self.source_value.api().as_str()).as_str());
        out.append(",\"destination\":");
        out.append(jstr(self.destination.to_string().as_str()).as_str());
        out.append(",\"destinationValue\":");
        out.append(jstr(self.destination_value.api().as_str()).as_str());
        out.append(",\"plans\":[");
        out.append(saved_copy_plan_list(&self.plans).as_str());
        out.append("],\"saved\":true}");
        out
    }
}

/// A plan that was saved for a subtree in one view.
#[derive(Debug)]
pub struct SavedViewPlan {
    pub view: String,
    pub plan: String,
    pub bytes: u64,
    pub sha256: String,
}

/// A plan that was saved for a subtree in one view, as JSON.
pub open spec fn saved_view_plan_json(d: SavedViewPlan) -> Seq<char> {
    "{\"view\":"@ + json_string(d.view@) + ",\"plan\":"@ + json_string(d.plan@)
        + ",\"planBytes\":"@ + dec_of(d.bytes as nat) + ",\"planSha256\":"@
        + json_string(d.sha256@) + ",\"saved\":true}"@
}

impl SavedViewPlan {
    /// A plan that was saved for a subtree in one view, as JSON.
    pub fn to_json(&self) -> (out: String)
        ensures
            out@ == saved_view_plan_json(*self),
    {
        let mut out = "{\"view\":".to_owned();
        out.append(jstr(self.view.as_str()).as_str());
        out.append(",\"plan\":");
        out.append(jstr(self.plan.as_str()).as_str());
        out.append(",\"planBytes\":");
        push_dec(&mut out, self.bytes);
        out.append(",\"planSha256\":");
        out.append(jstr(self.sha256.as_str()).as_str());
        out.append(",\"saved\":true}");
        out
    }
}

/// Saved plans as JSON, with commas between them.
pub open spec fn saved_view_plan_items(items: Seq<SavedViewPlan>) -> Seq<char> {
    joined(items.map_values(|d: SavedViewPlan| saved_view_plan_json(d)), ","@)
}

fn saved_view_plan_list(items: &Vec<SavedViewPlan>) -> (out: String)
    ensures
        out@ == saved_view_plan_items(items@),
{
    broadcast use views_push;

    let mut parts: Vec<String> = Vec::new();
    for i in 0..items.len()
        invariant
            views(parts@) =~= items@.take(i as int).map_values(
                |d: SavedViewPlan| saved_view_plan_json(d),
            ),
    {
        let one = items[i].to_json();
        let ghost before = parts@;
        parts.push(one);
        assert(views(parts@) == views(before).push(one@));
    }
    assert(items@.take(items@.len() as int) =~= items@);
    join(parts.as_slice(), ",")
}

/// The plans that were saved for copying or moving a subtree in both views.
#[derive(Debug)]
pub struct SavedSubtreePlans {
    pub operation: String,
    pub source: RegPath,
    pub destination: RegPath,
    pub views: Vec<SavedViewPlan>,
}

/// The plans that were saved for copying or moving a subtree in both views, as JSON.
pub open spec fn saved_subtree_plans_json(d: SavedSubtreePlans) -> Seq<char> {
    "{\"operation\":"@ + json_string(d.operation@) + ",\"source\":"@
        + json_string(path_text(d.source@)) + ",\"destination\":"@
        + json_string(path_text(d.destination@)) + ",\"views\":["@
        + saved_view_plan_items(d.views@) + "]}"@
}

impl SavedSubtreePlans {
    /// The plans that were saved for copying or moving a subtree in both views, as JSON.
    pub fn to_json(&self) -> (out: String)
        ensures
            out@ == saved_subtree_plans_json(*self),
    {
        let mut out = "{\"operation\":".to_owned();
        out.append(jstr(self.operation.as_str()).as_str());
        out.append(",\"source\":");
        out.append(jstr(self.source.to_string().as_str()).as_str());
        out.append(",\"destination\":");
        out.append(jstr(self.destination.to_string().as_str()).as_str());
        out.append(",\"views\":[");
        out.append(saved_view_plan_list(&self.views).as_str());
        out.append("]}");
        out
    }
}

/// The plan that was saved for copying or moving a subtree.
#[derive(Debug)]
pub struct SavedSubtreePlan {
    pub operation: String,
    pub source: RegPath,
    pub destination: RegPath,
    pub view: String,
    pub source_computer: Option<String>,
    pub plan: String,
    pub bytes: u64,
    pub sha256: String,
    pub source_digest: String,
    pub current_digest: String,
}

/// The plan that was saved for copying or moving a subtree, as JSON.
pub open spec fn saved_subtree_plan_json(d: SavedSubtreePlan) -> Seq<char> {
    "{\"operation\":"@ + json_string(d.operation@) + ",\"source\":"@
        + json_string(path_text(d.source@)) + ",\"destination\":"@
        + json_string(path_text(d.destination@)) + ",\"view\":"@ + json_string(d.view@)
        + ",\"sourceComputer\":"@ + json_opt(opt_text(d.source_computer)) + ",\"plan\":"@
        + json_string(d.plan@) + ",\"planBytes\":"@ + dec_of(d.bytes as nat) + ",\"planSha256\":"@
        + json_string(d.sha256@) + ",\"sourceDigest\":"@ + json_string(d.source_digest@)
        + ",\"currentDigest\":"@ + json_string(d.current_digest@) + ",\"saved\":true}"@
}

impl SavedSubtreePlan {
    /// The plan that was saved for copying or moving a subtree, as JSON.
    pub fn to_json(&self) -> (out: String)
        ensures
            out@ == saved_subtree_plan_json(*self),
    {
        let mut out = "{\"operation\":".to_owned();
        out.append(jstr(self.operation.as_str()).as_str());
        out.append(",\"source\":");
        out.append(jstr(self.source.to_string().as_str()).as_str());
        out.append(",\"destination\":");
        out.append(jstr(self.destination.to_string().as_str()).as_str());
        out.append(",\"view\":");
        out.append(jstr(self.view.as_str()).as_str());
        out.append(",\"sourceComputer\":");
        out.append(jopt_string(&self.source_computer).as_str());
        out.append(",\"plan\":");
        out.append(jstr(self.plan.as_str()).as_str());
        out.append(",\"planBytes\":");
        push_dec(&mut out, self.bytes);
        out.append(",\"planSha256\":");
        out.append(jstr(self.sha256.as_str()).as_str());
        out.append(",\"sourceDigest\":");
        out.append(jstr(self.source_digest.as_str()).as_str());
        out.append(",\"currentDigest\":");
        out.append(jstr(self.current_digest.as_str()).as_str());
        out.append(",\"saved\":true}");
        out
    }
}

/// What became of copying or moving in one view.
#[derive(Debug)]
pub struct CopyView {
    pub view: String,
    pub backup: Option<String>,
    pub written: Option<(u64, String)>,
    pub copied: Option<ApplyReport>,
    pub removed: Option<ApplyReport>,
    pub rollback: Option<ApplyReport>,
}

/// What became of copying or moving in one view, as JSON.
pub open spec fn copy_view_json(d: CopyView) -> Seq<char> {
    "{\"view\":"@ + json_string(d.view@) + ",\"backup\":"@ + json_opt(opt_text(d.backup)) + ", "@
        + evidence_json("backupBytes"@, "backupSha256"@, written_view(d.written)) + ",\"copy\":"@
        + opt_report_json(d.copied) + ",\"removeSource\":"@ + opt_report_json(d.removed)
        + ",\"rolledBack\":"@ + json_bool(d.rollback is Some) + ",\"rollback\":"@
        + opt_report_json(d.rollback) + "}"@
}

impl CopyView {
    /// What became of copying or moving in one view, as JSON.
    pub fn to_json(&self) -> (out: String)
        ensures
            out@ == copy_view_json(*self),
    {
        let mut out = "{\"view\":".to_owned();
        out.append(jstr(self.view.as_str()).as_str());
        out.append(",\"backup\":");
        out.append(jopt_string(&self.backup).as_str());
        out.append(", ");
        out.append(backup_evidence_json(&self.written).as_str());
        out.append(",\"copy\":");
        out.append(opt_apply_report_json(&self.copied).as_str());
        out.append(",\"removeSource\":");
        out.append(opt_apply_report_json(&self.removed).as_str());
        out.append(",\"rolledBack\":");
        out.append(jbool(self.rollback.is_some()));
        out.append(",\"rollback\":");
        out.append(opt_apply_report_json(&self.rollback).as_str());
        out.append("}");
        out
    }
}

/// Copies as JSON, with commas between them.
pub open spec fn copy_view_items(items: Seq<CopyView>) -> Seq<char> {
    joined(items.map_values(|d: CopyView| copy_view_json(d)), ","@)
}

fn copy_view_list(items: &Vec<CopyView>) -> (out: String)
    ensures
        out@ == copy_view_items(items@),
{
    broadcast use views_push;

    let mut parts: Vec<String> = Vec::new();
    for i in 0..items.len()
        invariant
            views(parts@) =~= items@.take(i as int).map_values(
                |d: CopyView| copy_view_json(d),
            ),
    {
        let one = items[i].to_json();
        let ghost before = parts@;
        parts.push(one);
        assert(views(parts@) == views(before).push(one@));
    }
    assert(items@.take(items@.len() as int) =~= items@);
    join(parts.as_slice(), ",")
}

/// What became of copying or moving a value.
#[derive(Debug)]
pub struct CopyValueReport {
    pub operation: String,
    pub source: RegPath,
    pub source_value: ValueName,
    pub source_computer: Option<String>,
    pub destination: RegPath,
    pub destination_value: ValueName,
    pub overwrite: bool,
    pub dry_run: bool,
    pub views: Vec<CopyView>,
}

/// What became of copying or moving a value, as JSON.
pub open spec fn copy_value_report_json(d: CopyValueReport) -> Seq<char> {
    "{\"operation\":"@ + json_string(d.operation@) + ",\"source\":"@
        + json_string(path_text(d.source@)) + ",\"sourceValue\":"@
        + json_string(api_name(d.source_value@)) + ",\"sourceComputer\":"@
        + json_opt(opt_text(d.source_computer)) + ",\"destination\":"@
        + json_string(path_text(d.destination@)) + ",\"destinationValue\":"@
        + json_string(api_name(d.destination_value@)) + ",\"overwrite\":"@
        + json_bool(d.overwrite) + ",\"dryRun\":"@ + json_bool(d.dry_run) + ",\"views\":["@
        + copy_view_items(d.views@) + "]}"@
}

impl CopyValueReport {
    /// What became of copying or moving a value, as JSON.
    pub fn to_json(&self) -> (out: String)
        ensures
            out@ == copy_value_report_json(*self),
    {
        let mut out = "{\"operation\":".to_owned();
        out.append(jstr(self.operation.as_str()).as_str());
        out.append(",\"source\":");
        out.append(jstr(self.source.to_string().as_str()).as_str());
        out.append(",\"sourceValue\":");
        out.append(jstr(self.source_value.api().as_str()).as_str());
        out.append(",\"sourceComputer\":");
        out.append(jopt_string(&self.source_computer).as_str());
        out.append(",\"destination\":");
        out.append(jstr(self.destination.to_string().as_str()).as_str());
        out.append(",\"destinationValue\":");
        out.append(jstr(self.destination_value.api().as_str()).as_str());
        out.append(",\"overwrite\":");
        out.append(jbool(self.overwrite));
        out.append(",\"dryRun\":");
        out.append(jbool(self.dry_run));
        out.append(",\"views\":[");
        out.append(copy_view_list(&self.views).as_str());
        out.append("]}");
        out
    }
}

/// What became of copying or moving a subtree.
#[derive(Debug)]
pub struct CopyReport {
    pub operation: String,
    pub source: RegPath,
    pub destination: RegPath,
    pub overwrite: bool,
    pub dry_run: bool,
    pub backup: String,
    pub written: Option<(u64, String)>,
    pub copied: ApplyReport,
    pub removed: Option<ApplyReport>,
    pub rollback: Option<ApplyReport>,
}

/// What became of copying or moving a subtree, as JSON.
pub open spec fn copy_report_json(d: CopyReport) -> Seq<char> {
    "{\"operation\": "@ + json_string(d.operation@) + ", \"source\": "@
        + json_string(path_text(d.source@)) + ", \"destination\": "@
        + json_string(path_text(d.destination@)) + ", \"overwrite\": "@ + json_bool(d.overwrite)
        + ", \"dryRun\": "@ + json_bool(d.dry_run) + ", \"backup\": "@ + json_string(d.backup@)
        + ", "@ + evidence_json("backupBytes"@, "backupSha256"@, written_view(d.written))
        + ", \"copy\": "@ + report_json(d.copied) + ", \"removeSource\": "@
        + opt_report_json(d.removed) + ", \"rolledBack\": "@ + json_bool(d.rollback is Some)
        + ", \"rollback\": "@ + opt_report_json(d.rollback) + "}"@
}

impl CopyReport {
    /// What became of copying or moving a subtree, as JSON.
    pub fn to_json(&self) -> (out: String)
        ensures
            out@ == copy_report_json(*self),
    {
        let mut out = "{\"operation\": ".to_owned();
        out.append(jstr(self.operation.as_str()).as_str());
        out.append(", \"source\": ");
        out.append(jstr(self.source.to_string().as_str()).as_str());
        out.append(", \"destination\": ");
        out.append(jstr(self.destination.to_string().as_str()).as_str());
        out.append(", \"overwrite\": ");
        out.append(jbool(self.overwrite));
        out.append(", \"dryRun\": ");
        out.append(jbool(self.dry_run));
        out.append(", \"backup\": ");
        out.append(jstr(self.backup.as_str()).as_str());
        out.append(", ");
        out.append(backup_evidence_json(&self.written).as_str());
        out.append(", \"copy\": ");
        out.append(apply_report_json(&self.copied).as_str());
        out.append(", \"removeSource\": ");
        out.append(opt_apply_report_json(&self.removed).as_str());
        out.append(", \"rolledBack\": ");
        out.append(jbool(self.rollback.is_some()));
        out.append(", \"rollback\": ");
        out.append(opt_apply_report_json(&self.rollback).as_str());
        out.append("}");
        out
    }
}

/// What became of copying or moving a subtree in both views.
#[derive(Debug)]
pub struct CopyViewsReport {
    pub operation: String,
    pub source: RegPath,
    pub destination: RegPath,
    pub overwrite: bool,
    pub dry_run: bool,
    pub views: Vec<CopyView>,
}

/// What became of copying or moving a subtree in both views, as JSON.
pub open spec fn copy_views_report_json(d: CopyViewsReport) -> Seq<char> {
    "{\"operation\":"@ + json_string(d.operation@) + ",\"source\":"@
        + json_string(path_text(d.source@)) + ",\"destination\":"@
        + json_string(path_text(d.destination@)) + ",\"overwrite\":"@ + json_bool(d.overwrite)
        + ",\"dryRun\":"@ + json_bool(d.dry_run) + ",\"views\":["@ + copy_view_items(d.views@)
        + "]}"@
}

impl CopyViewsReport {
    /// What became of copying or moving a subtree in both views, as JSON.
    pub fn to_json(&self) -> (out: String)
        ensures
            out@ == copy_views_report_json(*self),
    {
        let mut out = "{\"operation\":".to_owned();
        out.append(jstr(self.operation.as_str()).as_str());
        out.append(",\"source\":");
        out.append(jstr(self.source.to_string().as_str()).as_str());
        out.append(",\"destination\":");
        out.append(jstr(self.destination.to_string().as_str()).as_str());
        out.append(",\"overwrite\":");
        out.append(jbool(self.overwrite));
        out.append(",\"dryRun\":");
        out.append(jbool(self.dry_run));
        out.append(",\"views\":[");
        out.append(copy_view_list(&self.views).as_str());
        out.append("]}");
        out
    }
}

/// What a copy plan copies: a value or a subtree.
pub open spec fn scope_name(source_value: Option<ValueName>) -> Seq<char> {
    if source_value is Some {
        "value"@
    } else {
        "subtree"@
    }
}

fn name_scope(source_value: &Option<ValueName>) -> (r: &'static str)
    ensures
        r@ == scope_name(*source_value),
{
    if source_value.is_some() {
        "value"
    } else {
        "subtree"
    }
}

/// What became of applying a copy plan.
#[derive(Debug)]
pub struct AppliedCopyPlan {
    pub schema: String,
    pub plan: String,
    pub operation: String,
    pub source: RegPath,
    pub source_value: Option<ValueName>,
    pub source_computer: Option<String>,
    pub destination: RegPath,
    pub destination_value: Option<ValueName>,
    pub overwrite: bool,
    pub dry_run: bool,
    pub backup: Option<String>,
    pub written: Option<(u64, String)>,
    pub copied: ApplyReport,
    pub removed: Option<ApplyReport>,
    pub rollback: Option<ApplyReport>,
}

/// What became of applying a copy plan, as JSON.
pub open spec fn applied_copy_plan_json(d: AppliedCopyPlan) -> Seq<char> {
    "{\"schema\":"@ + json_string(d.schema@) + ",\"schemaVersion\":2,\"plan\":"@
        + json_string(d.plan@) + ",\"operation\":"@ + json_string(d.operation@) + ",\"scope\":"@
        + json_string(scope_name(d.source_value)) + ",\"source\":"@
        + json_string(path_text(d.source@)) + ",\"sourceValue\":"@ + opt_api_json(d.source_value)
        + ",\"sourceComputer\":"@ + json_opt(opt_text(d.source_computer)) + ",\"destination\":"@
        + json_string(path_text(d.destination@)) + ",\"destinationValue\":"@
        + opt_api_json(d.destination_value) + ",\"overwrite\":"@ + json_bool(d.overwrite)
        + ",\"dryRun\":"@ + json_bool(d.dry_run) + ",\"backup\":"@ + json_opt(opt_text(d.backup))
        + ", "@ + evidence_json("backupBytes"@, "backupSha256"@, written_view(d.written))
        + ",\"copy\":"@ + report_json(d.copied) + ",\"removeSource\":"@
        + opt_report_json(d.removed) + ",\"rolledBack\":"@ + json_bool(d.rollback is Some)
        + ",\"rollback\":"@ + opt_report_json(d.rollback) + "}"@
}

impl AppliedCopyPlan {
    /// What became of applying a copy plan, as JSON.
    pub fn to_json(&self) -> (out: String)
        ensures
            out@ == applied_copy_plan_json(*self),
    {
        let mut out = "{\"schema\":".to_owned();
        out.append(jstr(self.schema.as_str()).as_str());
        out.append(",\"schemaVersion\":2,\"plan\":");
        out.append(jstr(self.plan.as_str()).as_str());
        out.append(",\"operation\":");
        out.append(jstr(self.operation.as_str()).as_str());
        out.append(",\"scope\":");
        out.append(jstr(name_scope(&self.source_value)).as_str());
        out.append(",\"source\":");
        out.append(jstr(self.source.to_string().as_str()).as_str());
        out.append(",\"sourceValue\":");
        out.append(jopt_api(&self.source_value).as_str());
        out.append(",\"sourceComputer\":");
        out.append(jopt_string(&self.source_computer).as_str());
        out.append(",\"destination\":");
        out.append(jstr(self.destination.to_string().as_str()).as_str());
        out.append(",\"destinationValue\":");
        out.append(jopt_api(&self.destination_value).as_str());
        out.append(",\"overwrite\":");
        out.append(jbool(self.overwrite));
        out.append(",\"dryRun\":");
        out.append(jbool(self.dry_run));
        out.append(",\"backup\":");
        out.append(jopt_string(&self.backup).as_str());
        out.append(", ");
        out.append(backup_evidence_json(&self.written).as_str());
        out.append(",\"copy\":");
        out.append(apply_report_json(&self.copied).as_str());
        out.append(",\"removeSource\":");
        out.append(opt_apply_report_json(&self.removed).as_str());
        out.append(",\"rolledBack\":");
        out.append(jbool(self.rollback.is_some()));
        out.append(",\"rollback\":");
        out.append(opt_apply_report_json(&self.rollback).as_str());
        out.append("}");
        out
    }
}

/// What became of applying a copy plan in one view.
#[derive(Debug)]
pub struct AppliedPlanView {
    pub view: String,
    pub plan: String,
    pub backup: Option<String>,
    pub written: Option<(u64, String)>,
    pub copied: Option<ApplyReport>,
    pub removed: Option<ApplyReport>,
    pub rollback: Option<ApplyReport>,
}

/// What became of applying a copy plan in one view, as JSON.
pub open spec fn applied_plan_view_json(d: AppliedPlanView) -> Seq<char> {
    "{\"view\":"@ + json_string(d.view@) + ",\"plan\":"@ + json_string(d.plan@) + ",\"backup\":"@
        + json_opt(opt_text(d.backup)) + ", "@
        + evidence_json("backupBytes"@, "backupSha256"@, written_view(d.written)) + ",\"copy\":"@
        + opt_report_json(d.copied) + ",\"removeSource\":"@ + opt_report_json(d.removed)
        + ",\"rolledBack\":"@ + json_bool(d.rollback is Some) + ",\"rollback\":"@
        + opt_report_json(d.rollback) + "}"@
}

impl AppliedPlanView {
    /// What became of applying a copy plan in one view, as JSON.
    pub fn to_json(&self) -> (out: String)
        ensures
            out@ == applied_plan_view_json(*self),
    {
        let mut out = "{\"view\":".to_owned();
        out.append(jstr(self.view.as_str()).as_str());
        out.append(",\"plan\":");
        out.append(jstr(self.plan.as_str()).as_str());
        out.append(",\"backup\":");
        out.append(jopt_string(&self.backup).as_str());
        out.append(", ");
        out.append(backup_evidence_json(&self.written).as_str());
        out.append(",\"copy\":");
        out.append(opt_apply_report_json(&self.copied).as_str());
        out.append(",\"removeSource\":");
        out.append(opt_apply_report_json(&self.removed).as_str());
        out.append(",\"rolledBack\":");
        out.append(jbool(self.rollback.is_some()));
        out.append(",\"rollback\":");
        out.append(opt_apply_report_json(&self.rollback).as_str());
        out.append("}");
        out
    }
}

/// Applied plans as JSON, with commas between them.
pub open spec fn applied_plan_view_items(items: Seq<AppliedPlanView>) -> Seq<char> {
    joined(items.map_values(|d: AppliedPlanView| applied_plan_view_json(d)), ","@)
}

fn applied_plan_view_list(items: &Vec<AppliedPlanView>) -> (out: String)
    ensures
        out@ == applied_plan_view_items(items@),
{
    broadcast use views_push;

    let mut parts: Vec<String> = Vec::new();
    for i in 0..items.len()
        invariant
            views(parts@) =~= items@.take(i as int).map_values(
                |d: AppliedPlanView| applied_plan_view_json(d),
            ),
    {
        let one = items[i].to_json();
        let ghost before = parts@;
        parts.push(one);
        assert(views(parts@) == views(before).push(one@));
    }
    assert(items@.take(items@.len() as int) =~= items@);
    join(parts.as_slice(), ",")
}

/// What became of applying the copy plans of both views.
#[derive(Debug)]
pub struct AppliedCopyPlans {
    pub schema: String,
    pub plan: String,
    pub operation: String,
    pub source: RegPath,
    pub source_value: Option<ValueName>,
    pub source_computer: Option<String>,
    pub destination: RegPath,
    pub destination_value: Option<ValueName>,
    pub overwrite: bool,
    pub dry_run: bool,
    pub views: Vec<AppliedPlanView>,
}

/// What became of applying the copy plans of both views, as JSON.
pub open spec fn applied_copy_plans_json(d: AppliedCopyPlans) -> Seq<char> {
    "{\"schema\":"@ + json_string(d.schema@) + ",\"schemaVersion\":2,\"plan\":"@
        + json_string(d.plan@) + ",\"operation\":"@ + json_string(d.operation@) + ",\"scope\":"@
        + json_string(scope_name(d.source_value)) + ",\"source\":"@
        + json_string(path_text(d.source@)) + ",\"sourceValue\":"@ + opt_api_json(d.source_value)
        + ",\"sourceComputer\":"@ + json_opt(opt_text(d.source_computer)) + ",\"destination\":"@
        + json_string(path_text(d.destination@)) + ",\"destinationValue\":"@
        + opt_api_json(d.destination_value) + ",\"overwrite\":"@ + json_bool(d.overwrite)
        + ",\"dryRun\":"@ + json_bool(d.dry_run) + ",\"views\":["@
        + applied_plan_view_items(d.views@) + "]}"@
}

impl AppliedCopyPlans {
    /// What became of applying the copy plans of both views, as JSON.
    pub fn to_json(&self) -> (out: String)
        ensures
            out@ == applied_copy_plans_json(*self),
    {
        let mut out = "{\"schema\":".to_owned();
        out.append(jstr(self.schema.as_str()).as_str());
        out.append(",\"schemaVersion\":2,\"plan\":");
        out.append(jstr(self.plan.as_str()).as_str());
        out.append(",\"operation\":");
        out.append(jstr(self.operation.as_str()).as_str());
        out.append(",\"scope\":");
        out.append(jstr(name_scope(&self.source_value)).as_str());
        out.append(",\"source\":");
        out.append(jstr(self.source.to_string().as_str()).as_str());
        out.append(",\"sourceValue\":");
        out.append(jopt_api(&self.source_value).as_str());
        out.append(",\"sourceComputer\":");
        out.append(jopt_string(&self.source_computer).as_str());
        out.append(",\"destination\":");
        out.append(jstr(self.destination.to_string().as_str()).as_str());
        out.append(",\"destinationValue\":");
        out.append(jopt_api(&self.destination_value).as_str());
        out.append(",\"overwrite\":");
        out.append(jbool(self.overwrite));
        out.append(",\"dryRun\":");
        out.append(jbool(self.dry_run));
        out.append(",\"views\":[");
        out.append(applied_plan_view_list(&self.views).as_str());
        out.append("]}");
        out
    }
}

// ---------------------------------------------------------------------------
// Backups
// ---------------------------------------------------------------------------

/// What a backup does not hold, where one was written.
pub open spec fn limitations(dry_run: bool) -> Seq<char> {
    if dry_run {
        "}"@
    } else {
        ",\"limitations\":[\"ACLs\",\"key classes\",\"timestamps\"]}"@
    }
}

fn name_limitations(dry_run: bool) -> (r: &'static str)
    ensures
        r@ == limitations(dry_run),
{
    if dry_run {
        "}"
    } else {
        ",\"limitations\":[\"ACLs\",\"key classes\",\"timestamps\"]}"
    }
}

/// The backup of one view.
#[derive(Debug)]
pub struct BackupView {
    pub view: String,
    pub file: String,
    pub keys: usize,
    pub values: usize,
    pub written: Option<(u64, String)>,
}

/// The backup of one view, as JSON.
pub open spec fn backup_view_json(d: BackupView) -> Seq<char> {
    "{\"view\":"@ + json_string(d.view@) + ",\"file\":"@ + json_string(d.file@) + ",\"keys\":"@
        + dec_of(d.keys as nat) + ",\"values\":"@ + dec_of(d.values as nat) + ", "@
        + evidence_json("bytes"@, "sha256"@, written_view(d.written)) + "}"@
}

impl BackupView {
    /// The backup of one view, as JSON.
    pub fn to_json(&self) -> (out: String)
        ensures
            out@ == backup_view_json(*self),
    {
        let mut out = "{\"view\":".to_owned();
        out.append(jstr(self.view.as_str()).as_str());
        out.append(",\"file\":");
        out.append(jstr(self.file.as_str()).as_str());
        out.append(",\"keys\":");
        push_dec(&mut out, self.keys as u64);
        out.append(",\"values\":");
        push_dec(&mut out, self.values as u64);
        out.append(", ");
        out.append(artifact_evidence_json(&self.written).as_str());
        out.append("}");
        out
    }
}

/// Backups as JSON, with commas between them.
pub open spec fn backup_view_items(items: Seq<BackupView>) -> Seq<char> {
    joined(items.map_values(|d: BackupView| backup_view_json(d)), ","@)
}

fn backup_view_list(items: &Vec<BackupView>) -> (out: String)
    ensures
        out@ == backup_view_items(items@),
{
    broadcast use views_push;

    let mut parts: Vec<String> = Vec::new();
    for i in 0..items.len()
        invariant
            views(parts@) =~= items@.take(i as int).map_values(
                |d: BackupView| backup_view_json(d),
            ),
    {
        let one = items[i].to_json();
        let ghost before = parts@;
        parts.push(one);
        assert(views(parts@) == views(before).push(one@));
    }
    assert(items@.take(items@.len() as int) =~= items@);
    join(parts.as_slice(), ",")
}

/// The backups of both views.
#[derive(Debug)]
pub struct BackupViews {
    pub source: RegPath,
    pub source_computer: Option<String>,
    pub dry_run: bool,
    pub views: Vec<BackupView>,
}

/// The backups of both views, as JSON.
pub open spec fn backup_views_json(d: BackupViews) -> Seq<char> {
    "{\"source\":"@ + json_string(path_text(d.source@)) + ",\"sourceComputer\":"@
        + json_opt(opt_text(d.source_computer)) + ",\"dryRun\":"@ + json_bool(d.dry_run)
        + ",\"views\":["@ + backup_view_items(d.views@) + "]"@ + limitations(d.dry_run)
}

impl BackupViews {
    /// The backups of both views, as JSON.
    pub fn to_json(&self) -> (out: String)
        ensures
            out@ == backup_views_json(*self),
    {
        let mut out = "{\"source\":".to_owned();
        out.append(jstr(self.source.to_string().as_str()).as_str());
        out.append(",\"sourceComputer\":");
        out.append(jopt_string(&self.source_computer).as_str());
        out.append(",\"dryRun\":");
        out.append(jbool(self.dry_run));
        out.append(",\"views\":[");
        out.append(backup_view_list(&self.views).as_str());
        out.append("]");
        out.append(name_limitations(self.dry_run));
        out
    }
}

/// A backup.
#[derive(Debug)]
pub struct Backup {
    pub source: RegPath,
    pub source_computer: Option<String>,
    pub file: String,
    pub dry_run: bool,
    pub keys: usize,
    pub values: usize,
    pub written: Option<(u64, String)>,
}

/// A backup, as JSON.
pub open spec fn backup_json(d: Backup) -> Seq<char> {
    "{\"source\":"@ + json_string(path_text(d.source@)) + ",\"sourceComputer\":"@
        + json_opt(opt_text(d.source_computer)) + ",\"file\":"@ + json_string(d.file@)
        + ",\"dryRun\":"@ + json_bool(d.dry_run) + ",\"keys\":"@ + dec_of(d.keys as nat)
        + ",\"values\":"@ + dec_of(d.values as nat) + ", "@
        + evidence_json("bytes"@, "sha256"@, written_view(d.written)) + limitations(d.dry_run)
}

impl Backup {
    /// A backup, as JSON.
    pub fn to_json(&self) -> (out: String)
        ensures
            out@ == backup_json(*self),
    {
        let mut out = "{\"source\":".to_owned();
        out.append(jstr(self.source.to_string().as_str()).as_str());
        out.append(",\"sourceComputer\":");
        out.append(jopt_string(&self.source_computer).as_str());
        out.append(",\"file\":");
        out.append(jstr(self.file.as_str()).as_str());
        out.append(",\"dryRun\":");
        out.append(jbool(self.dry_run));
        out.append(",\"keys\":");
        push_dec(&mut out, self.keys as u64);
        out.append(",\"values\":");
        push_dec(&mut out, self.values as u64);
        out.append(", ");
        out.append(artifact_evidence_json(&self.written).as_str());
        out.append(name_limitations(self.dry_run));
        out
    }
}

/// What became of restoring a backup.
#[derive(Debug)]
pub struct Restore {
    pub file: String,
    pub destination: RegPath,
    pub overwrite: bool,
    pub dry_run: bool,
    pub undo: String,
    pub written: Option<(u64, String)>,
    pub applied: ApplyReport,
    pub rollback: Option<ApplyReport>,
}

/// What became of restoring a backup, as JSON.
pub open spec fn restore_json(d: Restore) -> Seq<char> {
    "{\"file\":"@ + json_string(d.file@) + ",\"destination\":"@
        + json_string(path_text(d.destination@)) + ",\"overwrite\":"@ + json_bool(d.overwrite)
        + ",\"dryRun\":"@ + json_bool(d.dry_run) + ",\"undo\":"@ + json_string(d.undo@) + ", "@
        + evidence_json("undoBytes"@, "undoSha256"@, written_view(d.written)) + ",\"apply\":"@
        + report_json(d.applied) + ",\"rolledBack\":"@ + json_bool(d.rollback is Some)
        + ",\"rollback\":"@ + opt_report_json(d.rollback) + "}"@
}

impl Restore {
    /// What became of restoring a backup, as JSON.
    pub fn to_json(&self) -> (out: String)
        ensures
            out@ == restore_json(*self),
    {
        let mut out = "{\"file\":".to_owned();
        out.append(jstr(self.file.as_str()).as_str());
        out.append(",\"destination\":");
        out.append(jstr(self.destination.to_string().as_str()).as_str());
        out.append(",\"overwrite\":");
        out.append(jbool(self.overwrite));
        out.append(",\"dryRun\":");
        out.append(jbool(self.dry_run));
        out.append(",\"undo\":");
        out.append(jstr(self.undo.as_str()).as_str());
        out.append(", ");
        out.append(undo_evidence_json(&self.written).as_str());
        out.append(",\"apply\":");
        out.append(apply_report_json(&self.applied).as_str());
        out.append(",\"rolledBack\":");
        out.append(jbool(self.rollback.is_some()));
        out.append(",\"rollback\":");
        out.append(opt_apply_report_json(&self.rollback).as_str());
        out.append("}");
        out
    }
}

/// What became of restoring a backup in one view.
#[derive(Debug)]
pub struct RestoreView {
    pub view: String,
    pub file: String,
    pub undo: String,
    pub written: Option<(u64, String)>,
    pub applied: Option<ApplyReport>,
    pub rollback: Option<ApplyReport>,
}

/// What became of restoring a backup in one view, as JSON.
pub open spec fn restore_view_json(d: RestoreView) -> Seq<char> {
    "{\"view\":"@ + json_string(d.view@) + ",\"file\":"@ + json_string(d.file@) + ",\"undo\":"@
        + json_string(d.undo@) + ", "@
        + evidence_json("undoBytes"@, "undoSha256"@, written_view(d.written)) + ",\"apply\":"@
        + opt_report_json(d.applied) + ",\"rolledBack\":"@ + json_bool(d.rollback is Some)
        + ",\"rollback\":"@ + opt_report_json(d.rollback) + "}"@
}

impl RestoreView {
    /// What became of restoring a backup in one view, as JSON.
    pub fn to_json(&self) -> (out: String)
        ensures
            out@ == restore_view_json(*self),
    {
        let mut out = "{\"view\":".to_owned();
        out.append(jstr(self.view.as_str()).as_str());
        out.append(",\"file\":");
        out.append(jstr(self.file.as_str()).as_str());
        out.append(",\"undo\":");
        out.append(jstr(self.undo.as_str()).as_str());
        out.append(", ");
        out.append(undo_evidence_json(&self.written).as_str());
        out.append(",\"apply\":");
        out.append(opt_apply_report_json(&self.applied).as_str());
        out.append(",\"rolledBack\":");
        out.append(jbool(self.rollback.is_some()));
        out.append(",\"rollback\":");
        out.append(opt_apply_report_json(&self.rollback).as_str());
        out.append("}");
        out
    }
}

/// Restores as JSON, with commas between them.
pub open spec fn restore_view_items(items: Seq<RestoreView>) -> Seq<char> {
    joined(items.map_values(|d: RestoreView| restore_view_json(d)), ","@)
}

fn restore_view_list(items: &Vec<RestoreView>) -> (out: String)
    ensures
        out@ == restore_view_items(items@),
{
    broadcast use views_push;

    let mut parts: Vec<String> = Vec::new();
    for i in 0..items.len()
        invariant
            views(parts@) =~= items@.take(i as int).map_values(
                |d: RestoreView| restore_view_json(d),
            ),
    {
        let one = items[i].to_json();
        let ghost before = parts@;
        parts.push(one);
        assert(views(parts@) == views(before).push(one@));
    }
    assert(items@.take(items@.len() as int) =~= items@);
    join(parts.as_slice(), ",")
}

/// What became of restoring a backup in both views.
#[derive(Debug)]
pub struct RestoreViews {
    pub file: String,
    pub destination: RegPath,
    pub overwrite: bool,
    pub dry_run: bool,
    pub views: Vec<RestoreView>,
}

/// What became of restoring a backup in both views, as JSON.
pub open spec fn restore_views_json(d: RestoreViews) -> Seq<char> {
    "{\"file\":"@ + json_string(d.file@) + ",\"destination\":"@
        + json_string(path_text(d.destination@)) + ",\"overwrite\":"@ + json_bool(d.overwrite)
        + ",\"dryRun\":"@ + json_bool(d.dry_run) + ",\"views\":["@ + restore_view_items(d.views@)
        + "]}"@
}

impl RestoreViews {
    /// What became of restoring a backup in both views, as JSON.
    pub fn to_json(&self) -> (out: String)
        ensures
            out@ == restore_views_json(*self),
    {
        let mut out = "{\"file\":".to_owned();
        out.append(jstr(self.file.as_str()).as_str());
        out.append(",\"destination\":");
        out.append(jstr(self.destination.to_string().as_str()).as_str());
        out.append(",\"overwrite\":");
        out.append(jbool(self.overwrite));
        out.append(",\"dryRun\":");
        out.append(jbool(self.dry_run));
        out.append(",\"views\":[");
        out.append(restore_view_list(&self.views).as_str());
        out.append("]}");
        out
    }
}

} // verus!
