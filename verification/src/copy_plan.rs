//! Saved plans to copy or move: whether they still describe what is there.
use vstd::prelude::*;

use crate::exit::{
    done_result, failed, plain_error, ErrorView, Exit, ExitError,
};
use crate::model::{
    copy_blocks, name_text, same_key, same_name, value_name_matches, BlockView, DataView, FileView,
    KeyBlock, PathView, RegData, RegFile, RegPath, ValueEntry, ValueName,
};
use crate::mutation::{
    denial, enforce_denies, file_of, find_value, make_file, value_block, value_in,
};
use crate::number::{dec_of, push_dec};
use crate::paths::{all_rebased, rebase_subtree};
use crate::policy::{Policy, PolicyView};
use crate::saved_plan::{
    digest_of_file, file_digest, snapshot_digest, RegistryView, Snapshot,
};
use crate::text::{concat, concat3, opt_text, same_str, views};

verus! {

/// A saved plan to copy or move a subtree or a value.
#[derive(Debug)]
pub struct CopyPlan {
    pub operation: String,
    pub view: RegistryView,
    pub source_computer: Option<String>,
    pub source: RegPath,
    pub destination: RegPath,
    pub source_value: Option<ValueName>,
    pub destination_value: Option<ValueName>,
    pub overwrite: bool,
    pub copy_file: RegFile,
    pub delete_file: RegFile,
    pub source_digest: String,
    pub current_digest: String,
}

/// What a `CopyPlan` stands for. A value name is itself optional: the inner
/// absence is the default value.
pub struct CopyPlanView {
    pub operation: Seq<char>,
    pub view: RegistryView,
    pub source_computer: Option<Seq<char>>,
    pub source: PathView,
    pub destination: PathView,
    pub source_value: Option<Option<Seq<char>>>,
    pub destination_value: Option<Option<Seq<char>>>,
    pub overwrite: bool,
    pub copy_file: FileView,
    pub delete_file: FileView,
    pub source_digest: Seq<char>,
    pub current_digest: Seq<char>,
}

/// An optional value name as a view.
pub open spec fn opt_name(n: Option<ValueName>) -> Option<Option<Seq<char>>> {
    match n {
        Some(v) => Some(v@),
        None => None,
    }
}

impl View for CopyPlan {
    type V = CopyPlanView;

    open spec fn view(&self) -> CopyPlanView {
        CopyPlanView {
            operation: self.operation@,
            view: self.view,
            source_computer: opt_text(self.source_computer),
            source: self.source@,
            destination: self.destination@,
            source_value: opt_name(self.source_value),
            destination_value: opt_name(self.destination_value),
            overwrite: self.overwrite,
            copy_file: self.copy_file@,
            delete_file: self.delete_file@,
            source_digest: self.source_digest@,
            current_digest: self.current_digest@,
        }
    }
}

// ---------------------------------------------------------------------------
// The parts of a plan
// ---------------------------------------------------------------------------

/// What a plan was made of: the subtree that was read, or the one value.
pub open spec fn plan_source(keys: Seq<BlockView>, p: CopyPlanView) -> Result<
    FileView,
    Seq<char>,
> {
    match p.source_value {
        None => Ok(file_of(keys)),
        Some(name) => match value_in(keys, name) {
            Some(entry) => Ok(
                file_of(
                    seq![
                        BlockView { path: p.source, delete: false, values: seq![entry], line: 0 },
                    ],
                ),
            ),
            None => Err("source value "@ + name_text(name) + " no longer exists"@),
        },
    }
}

/// What a plan is made of now.
pub fn copy_plan_source_file(keys: &[KeyBlock], plan: &CopyPlan) -> (r: Result<RegFile, String>)
    ensures
        match r {
            Ok(f) => plan_source(views(keys@), plan@) == Ok::<FileView, Seq<char>>(f@),
            Err(e) => plan_source(views(keys@), plan@) == Err::<FileView, Seq<char>>(e@),
        },
{
    match &plan.source_value {
        None => Ok(make_file(copy_blocks(keys))),
        Some(name) => match find_value(keys, name) {
            Some(entry) => {
                let mut values: Vec<ValueEntry> = Vec::new();
                values.push(entry);
                assert(views(values@) =~= seq![entry@]);
                let mut blocks: Vec<KeyBlock> = Vec::new();
                blocks.push(
                    KeyBlock { path: plan.source.clone(), delete: false, values, line: 0 },
                );
                assert(views(blocks@) =~= seq![
                    BlockView { path: plan@.source, delete: false, values: seq![entry@], line: 0 },
                ]);
                Ok(make_file(blocks))
            },
            None => Err(
                concat3("source value ", name.to_string().as_str(), " no longer exists"),
            ),
        },
    }
}

/// What a plan writes, made anew from its source.
pub open spec fn plan_payload(source: FileView, p: CopyPlanView) -> Result<FileView, Seq<char>> {
    match (p.source_value, p.destination_value) {
        (None, None) => match all_rebased(source.keys, p.source, p.destination) {
            Ok(keys) => Ok(file_of(keys)),
            Err(e) => Err(e),
        },
        (Some(_), Some(name)) => if source.keys.len() == 0 || source.keys[0].values.len() == 0 {
            Err("value copy/move plan has an empty bound source"@)
        } else {
            Ok(file_of(seq![value_block(p.destination, name, source.keys[0].values[0].data)]))
        },
        _ => Err("copy/move plan has inconsistent source/destination value scope"@),
    }
}

/// Makes anew what a plan writes.
pub fn rebuild_copy_plan_payload(source: &RegFile, plan: &CopyPlan) -> (r: Result<RegFile, String>)
    ensures
        match r {
            Ok(f) => plan_payload(source@, plan@) == Ok::<FileView, Seq<char>>(f@),
            Err(e) => plan_payload(source@, plan@) == Err::<FileView, Seq<char>>(e@),
        },
{
    match (&plan.source_value, &plan.destination_value) {
        (None, None) => match rebase_subtree(
            source.keys.as_slice(),
            &plan.source,
            &plan.destination,
        ) {
            Ok(keys) => Ok(make_file(keys)),
            Err(e) => Err(e),
        },
        (Some(_), Some(name)) => {
            if source.keys.len() == 0 || source.keys[0].values.len() == 0 {
                proof {
                    if source.keys@.len() > 0 {
                        assert(source@.keys[0] == source.keys@[0]@);
                        assert(source@.keys[0].values.len() == source.keys@[0].values@.len());
                    }
                }
                return Err("value copy/move plan has an empty bound source".to_owned());
            }
            let block = &source.keys[0];
            let first = &block.values[0];
            proof {
                assert(source@.keys[0] == block@);
                assert(block@.values[0] == first@);
            }
            let mut values: Vec<ValueEntry> = Vec::new();
            let entry = ValueEntry { name: name.clone(), data: first.data.clone(), line: 0 };
            values.push(entry);
            assert(views(values@) =~= seq![entry@]);
            let mut blocks: Vec<KeyBlock> = Vec::new();
            blocks.push(
                KeyBlock { path: plan.destination.clone(), delete: false, values, line: 0 },
            );
            assert(views(blocks@) =~= seq![
                value_block(plan@.destination, name@, first@.data),
            ]);
            Ok(make_file(blocks))
        },
        _ => Err("copy/move plan has inconsistent source/destination value scope".to_owned()),
    }
}

/// A plan deletes exactly what its operation says: nothing for a copy, the
/// source key or the source value for a move.
pub open spec fn delete_bound(p: CopyPlanView) -> bool {
    let keys = p.delete_file.keys;
    if p.operation != "move"@ {
        keys.len() == 0
    } else {
        match p.source_value {
            None => keys.len() == 1 && keys[0].delete && same_key(keys[0].path, p.source)
                && keys[0].values.len() == 0,
            Some(name) => keys.len() == 1 && !keys[0].delete && same_key(keys[0].path, p.source)
                && keys[0].values.len() == 1 && same_name(keys[0].values[0].name, name)
                && keys[0].values[0].data == DataView::Delete,
        }
    }
}

fn is_deletion(data: &RegData) -> (b: bool)
    ensures
        b == (data@ == DataView::Delete),
{
    match data {
        RegData::Delete => true,
        _ => false,
    }
}

/// Whether a plan deletes exactly what its operation says.
pub fn copy_plan_delete_is_bound(plan: &CopyPlan) -> (b: bool)
    ensures
        b == delete_bound(plan@),
{
    let keys = &plan.delete_file.keys;
    if !same_str(plan.operation.as_str(), "move") {
        return keys.len() == 0;
    }
    if keys.len() != 1 {
        return false;
    }
    let block = &keys[0];
    proof {
        assert(plan@.delete_file.keys[0] == block@);
        assert(block@.values.len() == block.values@.len());
    }
    if !block.path.is_same_key(&plan.source) {
        return false;
    }
    match &plan.source_value {
        None => block.delete && block.values.len() == 0,
        Some(name) => {
            if block.delete || block.values.len() != 1 {
                return false;
            }
            assert(block@.values[0] == block.values@[0]@);
            value_name_matches(&block.values[0].name, name) && is_deletion(&block.values[0].data)
        },
    }
}

// ---------------------------------------------------------------------------
// Applying a plan
// ---------------------------------------------------------------------------

/// Why a plan is not applied: it ends the run with a message, or it is an error.
#[derive(Debug)]
pub enum PlanRefusal {
    Stop { code: Exit, message: String },
    Fail(ExitError),
}

/// What a `PlanRefusal` stands for.
pub enum RefusalView {
    Stop { code: Exit, message: Seq<char> },
    Fail(ErrorView),
}

impl View for PlanRefusal {
    type V = RefusalView;

    open spec fn view(&self) -> RefusalView {
        match self {
            PlanRefusal::Stop { code, message } => RefusalView::Stop {
                code: *code,
                message: message@,
            },
            PlanRefusal::Fail(e) => RefusalView::Fail(e@),
        }
    }
}

/// A plan that no longer describes what is there. `plan` is empty, or a space
/// and the plan's name.
pub open spec fn stale(plan: Seq<char>, code: Exit, why: Seq<char>) -> RefusalView {
    RefusalView::Stop { code, message: "refusing stale copy/move plan"@ + plan + ": "@ + why }
}

fn refuse_stale(plan: &str, code: Exit, why: &str) -> (r: PlanRefusal)
    ensures
        r@ == stale(plan@, code, why@),
{
    let mut message = concat3("refusing stale copy/move plan", plan, ": ");
    message.append(why);
    PlanRefusal::Stop { code, message }
}

/// What changed, by its two digests.
pub open spec fn change_text(what: Seq<char>, expected: Seq<char>, found: Seq<char>) -> Seq<char> {
    what + " changed (expected "@ + expected + ", found "@ + found + ")"@
}

fn describe_change(what: &str, expected: &str, found: &str) -> (r: String)
    ensures
        r@ == change_text(what@, expected@, found@),
{
    let mut out = concat3(what, " changed (expected ", expected);
    out.append(", found ");
    out.append(found);
    out.append(")");
    out
}

/// The change of a plan that is still bound to its source: its source reads as
/// it did, its payload is what that source gives, it deletes exactly its source,
/// and no key of it is denied.
pub open spec fn bound_change(
    keys: Seq<BlockView>,
    unreadable: nat,
    p: CopyPlanView,
    policy: PolicyView,
    plan: Seq<char>,
) -> Result<FileView, RefusalView> {
    if unreadable != 0 {
        Err(stale(plan, Exit::Partial, dec_of(unreadable) + " source subkey(s) are unreadable"@))
    } else {
        match plan_source(keys, p) {
            Err(e) => Err(stale(plan, Exit::NotFound, e)),
            Ok(source) => if digest_of_file(source) != p.source_digest {
                Err(
                    stale(
                        plan,
                        Exit::Partial,
                        change_text("source"@, p.source_digest, digest_of_file(source)),
                    ),
                )
            } else {
                match plan_payload(source, p) {
                    Err(e) => Err(RefusalView::Fail(plain_error(e))),
                    Ok(payload) => if digest_of_file(payload) != digest_of_file(p.copy_file) {
                        Err(
                            RefusalView::Fail(
                                plain_error(
                                    "copy/move plan"@ + plan
                                        + " payload is inconsistent with its bound source and destination"@,
                                ),
                            ),
                        )
                    } else if !delete_bound(p) {
                        Err(
                            RefusalView::Fail(
                                plain_error(
                                    "copy/move plan"@ + plan
                                        + " does not contain the exact bound source deletion"@,
                                ),
                            ),
                        )
                    } else {
                        let combined = file_of_like(p.copy_file, p.delete_file.keys);
                        match denial(policy, combined.keys, 0) {
                            Err(e) => Err(RefusalView::Fail(e)),
                            Ok(_) => Ok(combined),
                        }
                    },
                }
            },
        }
    }
}

/// A file with further keys behind its own.
pub open spec fn file_of_like(f: FileView, more: Seq<BlockView>) -> FileView {
    FileView { keys: f.keys + more, ..f }
}

/// A file or a refusal, as a view.
pub open spec fn refusal_result(r: Result<RegFile, PlanRefusal>) -> Result<FileView, RefusalView> {
    match r {
        Ok(f) => Ok(f@),
        Err(e) => Err(e@),
    }
}

/// Checks that a plan is still bound to its source, and gives its change. `keys`
/// is what the source reads as, `unreadable` how many of its subkeys could not
/// be read.
pub fn bind_copy_plan(
    keys: &[KeyBlock],
    unreadable: usize,
    plan: &CopyPlan,
    policy: &Policy,
    name: &str,
) -> (r: Result<RegFile, PlanRefusal>)
    ensures
        refusal_result(r) == bound_change(
            views(keys@),
            unreadable as nat,
            plan@,
            policy@,
            name@,
        ),
{
    if unreadable != 0 {
        let mut why = crate::number::to_dec(unreadable as u64);
        why.append(" source subkey(s) are unreadable");
        return Err(refuse_stale(name, Exit::Partial, why.as_str()));
    }
    let source = match copy_plan_source_file(keys, plan) {
        Ok(f) => f,
        Err(e) => {
            return Err(refuse_stale(name, Exit::NotFound, e.as_str()));
        },
    };
    let actual = file_digest(&source);
    if !same_str(actual.as_str(), plan.source_digest.as_str()) {
        let why = describe_change("source", plan.source_digest.as_str(), actual.as_str());
        return Err(refuse_stale(name, Exit::Partial, why.as_str()));
    }
    let payload = match rebuild_copy_plan_payload(&source, plan) {
        Ok(f) => f,
        Err(e) => {
            return Err(PlanRefusal::Fail(failed(e)));
        },
    };
    if !same_str(file_digest(&payload).as_str(), file_digest(&plan.copy_file).as_str()) {
        return Err(
            PlanRefusal::Fail(
                failed(
                    concat3(
                        "copy/move plan",
                        name,
                        " payload is inconsistent with its bound source and destination",
                    ),
                ),
            ),
        );
    }
    if !copy_plan_delete_is_bound(plan) {
        return Err(
            PlanRefusal::Fail(
                failed(
                    concat3(
                        "copy/move plan",
                        name,
                        " does not contain the exact bound source deletion",
                    ),
                ),
            ),
        );
    }
    let mut combined = plan.copy_file.clone();
    let mut more = copy_blocks(plan.delete_file.keys.as_slice());
    let ghost a = combined.keys@;
    let ghost b = more@;
    combined.keys.append(&mut more);
    assert(views(combined.keys@) =~= views(a) + views(b));
    match enforce_denies(policy, &combined) {
        Ok(_) => Ok(combined),
        Err(e) => Err(PlanRefusal::Fail(e)),
    }
}

/// The state that a plan was made for is still there.
pub open spec fn state_bound(
    unreadable: nat,
    current: FileView,
    p: CopyPlanView,
    plan: Seq<char>,
) -> Result<(), RefusalView> {
    if unreadable != 0 {
        Err(
            stale(
                plan,
                Exit::Partial,
                "rollback is incomplete for "@ + dec_of(unreadable) + " target(s)"@,
            ),
        )
    } else if digest_of_file(current) != p.current_digest {
        Err(
            stale(
                plan,
                Exit::Partial,
                change_text(
                    "destination/current state"@,
                    p.current_digest,
                    digest_of_file(current),
                ),
            ),
        )
    } else {
        Ok(())
    }
}

/// Checks that the state that a plan was made for is still there.
pub fn check_copy_plan_state(snapshot: &Snapshot, plan: &CopyPlan, name: &str) -> (r: Result<
    (),
    PlanRefusal,
>)
    ensures
        (match r {
            Ok(_) => Ok::<(), RefusalView>(()),
            Err(e) => Err(e@),
        }) == state_bound(snapshot.unreadable@.len(), snapshot.file@, plan@, name@),
{
    if !snapshot.is_complete() {
        let mut why = "rollback is incomplete for ".to_owned();
        push_dec(&mut why, snapshot.unreadable.len() as u64);
        why.append(" target(s)");
        return Err(refuse_stale(name, Exit::Partial, why.as_str()));
    }
    let actual = snapshot_digest(snapshot);
    if !same_str(actual.as_str(), plan.current_digest.as_str()) {
        let why = describe_change(
            "destination/current state",
            plan.current_digest.as_str(),
            actual.as_str(),
        );
        return Err(refuse_stale(name, Exit::Partial, why.as_str()));
    }
    Ok(())
}

/// The name of a view in messages.
pub open spec fn view_name_of(view: RegistryView) -> Seq<char> {
    match view {
        RegistryView::Native => "Native"@,
        RegistryView::Bits32 => "Bits32"@,
        RegistryView::Bits64 => "Bits64"@,
    }
}

fn name_view(view: RegistryView) -> (r: &'static str)
    ensures
        r@ == view_name_of(view),
{
    match view {
        RegistryView::Native => "Native",
        RegistryView::Bits32 => "Bits32",
        RegistryView::Bits64 => "Bits64",
    }
}

/// The first of the places that is taken.
pub open spec fn first_taken(taken: Seq<bool>, i: int) -> Option<int>
    decreases taken.len() - i,
{
    if i >= taken.len() {
        None
    } else if taken[i] {
        Some(i)
    } else {
        first_taken(taken, i + 1)
    }
}

/// No plan is written over a file. All places are looked at before the first
/// plan is saved.
pub fn check_plan_paths(paths: &Vec<String>, taken: &Vec<bool>) -> (r: Result<(), ExitError>)
    requires
        paths@.len() == taken@.len(),
    ensures
        done_result(r) == (match first_taken(taken@, 0) {
            None => Ok::<(), ErrorView>(()),
            Some(k) => Err(
                plain_error(
                    paths@[k]@ + " already exists; refusing to overwrite a copy/move plan"@,
                ),
            ),
        }),
{
    for i in 0..paths.len()
        invariant
            paths@.len() == taken@.len(),
            first_taken(taken@, 0) == first_taken(taken@, i as int),
    {
        if taken[i] {
            return Err(
                failed(
                    concat(
                        paths[i].as_str(),
                        " already exists; refusing to overwrite a copy/move plan",
                    ),
                ),
            );
        }
    }
    Ok(())
}

/// A plan is applied to the view it was made for.
pub fn check_plan_view(plan: &CopyPlan, expected: RegistryView, name: &str) -> (r: Result<
    (),
    ExitError,
>)
    ensures
        done_result(r) == (if plan@.view == expected {
            Ok::<(), ErrorView>(())
        } else {
            Err(
                plain_error(
                    name@ + " contains view "@ + view_name_of(plan@.view) + ", expected "@
                        + view_name_of(expected),
                ),
            )
        }),
{
    if plan.view != expected {
        let mut message = concat3(name, " contains view ", name_view(plan.view));
        message.append(", expected ");
        message.append(name_view(expected));
        return Err(failed(message));
    }
    Ok(())
}

/// Two plans describe the same operation in different views.
pub open spec fn same_operation(a: CopyPlanView, b: CopyPlanView) -> bool {
    a.operation == b.operation && a.source == b.source && a.destination == b.destination
        && a.source_value == b.source_value && a.destination_value == b.destination_value
        && a.overwrite == b.overwrite && a.source_computer == b.source_computer
}

fn same_opt(a: &Option<String>, b: &Option<String>) -> (r: bool)
    ensures
        r == (opt_text(*a) == opt_text(*b)),
{
    match (a, b) {
        (Some(x), Some(y)) => same_str(x.as_str(), y.as_str()),
        (None, None) => true,
        _ => false,
    }
}

fn same_value_name(a: &Option<ValueName>, b: &Option<ValueName>) -> (r: bool)
    ensures
        r == (opt_name(*a) == opt_name(*b)),
{
    match (a, b) {
        (Some(ValueName::Named(x)), Some(ValueName::Named(y))) => same_str(
            x.as_str(),
            y.as_str(),
        ),
        (Some(ValueName::Default), Some(ValueName::Default)) => true,
        (None, None) => true,
        _ => false,
    }
}

fn same_path_text(a: &RegPath, b: &RegPath) -> (r: bool)
    ensures
        r == (a@ == b@),
{
    a.hive == b.hive && same_str(a.sub.as_str(), b.sub.as_str())
}

/// Checks that two plans describe the same operation.
pub fn check_paired(first: &CopyPlan, second: &CopyPlan) -> (r: Result<(), ExitError>)
    ensures
        done_result(r) == (if same_operation(first@, second@) {
            Ok::<(), ErrorView>(())
        } else {
            Err(plain_error("paired copy/move plans do not describe the same operation"@))
        }),
{
    if !same_str(first.operation.as_str(), second.operation.as_str()) || !same_path_text(
        &first.source,
        &second.source,
    ) || !same_path_text(&first.destination, &second.destination) || !same_value_name(
        &first.source_value,
        &second.source_value,
    ) || !same_value_name(&first.destination_value, &second.destination_value) || first.overwrite
        != second.overwrite || !same_opt(&first.source_computer, &second.source_computer) {
        return Err(
            failed("paired copy/move plans do not describe the same operation".to_owned()),
        );
    }
    Ok(())
}

/// A plan is only applied where its source still has the digest that it was
/// saved with and what it writes is what that source gives.
pub proof fn applied_plans_are_bound(
    keys: Seq<BlockView>,
    unreadable: nat,
    p: CopyPlanView,
    policy: PolicyView,
    plan: Seq<char>,
)
    requires
        bound_change(keys, unreadable, p, policy, plan) is Ok,
    ensures
        unreadable == 0,
        plan_source(keys, p) is Ok,
        digest_of_file(plan_source(keys, p)->Ok_0) == p.source_digest,
        plan_payload(plan_source(keys, p)->Ok_0, p) is Ok,
        digest_of_file(plan_payload(plan_source(keys, p)->Ok_0, p)->Ok_0) == digest_of_file(
            p.copy_file,
        ),
        delete_bound(p),
        denial(policy, p.copy_file.keys + p.delete_file.keys, 0) is Ok,
{
}

/// A plan to copy deletes nothing, and a plan to move deletes nothing but its
/// source.
pub proof fn plans_delete_only_their_source(p: CopyPlanView, i: int)
    requires
        delete_bound(p),
        0 <= i < p.delete_file.keys.len(),
    ensures
        p.operation == "move"@,
        same_key(p.delete_file.keys[i].path, p.source),
        p.delete_file.keys[i].delete ==> p.source_value is None,
{
}

} // verus!
