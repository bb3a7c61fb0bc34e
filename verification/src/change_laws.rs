//! What is changed, and when: from the request to the files of a change.
use vstd::prelude::*;

use crate::changing::{setup_of, ChangeKind, Flags};
use crate::copy_plan::{
    bound_change, first_taken, plan_payload, plan_source, same_operation, state_bound,
    CopyPlanView,
};
use crate::exit::{failure_exit, ErrorView, Exit, RegistryFailure};
use crate::guard::{begun, EventView, GuardView, Place, Setup, Stage};
use crate::input::ConflictPolicy;
use crate::model::{
    path_named, path_reads_back, path_text, same_key, same_name, BlockView, DataView, FileView,
    Hive, PathView,
};
use crate::mutation::{
    deletions_hit_what_was_named, value_in, values_arrive_under_their_new_name, writes_only,
    Ground,
};
use crate::paths::{all_rebased, lies_below, offline_path};
use crate::planning::{denials, PlannedView};
use crate::policy::{denied_by, PolicyView};
use crate::preparing::{
    backup_start, batch_keys, hive_value_start, input_keys, restore_start, subtree_start,
    value_start, CopyStartView, FileStartView, Keys, NamedInput, ValueCopy,
};
use crate::rooting_laws::tidy;
use crate::saved_plan::digest_of_file;
use crate::source::{in_subtree, outside_subtree, root_named, source_of, SourceKindView};
use crate::starting::{
    copies_start, delete_start, hive_copy_begun, hive_delete_start, hive_file_start, import_start,
    StartedView,
};
use crate::text::views;

verus! {

// ---------------------------------------------------------------------------
// Values and subtrees
// ---------------------------------------------------------------------------

/// A value is copied or moved where it was found by its name, both ends were
/// read in full, and nothing is in its way that may not be replaced. What is
/// written is its data at the destination under the new name; what is deleted,
/// in a move alone, is the value under the old name.
pub proof fn values_are_copied_whole(
    c: ValueCopy,
    shown: Seq<char>,
    from: Result<Keys, RegistryFailure>,
    to: Option<Result<Keys, String>>,
    view: Option<Seq<char>>,
)
    ensures
        value_start(c, shown, from, to, view) matches Ok(CopyStartView::Go(f)) ==> {
            &&& from is Ok
            &&& (from->Ok_0).skipped == 0
            &&& to matches Some(t) ==> t is Ok && (t->Ok_0).skipped == 0 && (c.overwrite
                || value_in(views((t->Ok_0).blocks@), c.dest_name@) is None)
            &&& c.remote || !(same_key(c.source@, c.dest@) && same_name(
                c.source_name@,
                c.dest_name@,
            ))
            &&& value_in(views((from->Ok_0).blocks@), c.source_name@) matches Some(e) && {
                &&& f.copy.keys.len() == 1
                &&& writes_only(f.copy.keys[0], c.dest@, c.dest_name@, e.data)
                &&& c.remove_source ==> f.delete.keys.len() == 1 && writes_only(
                    f.delete.keys[0],
                    c.source@,
                    c.source_name@,
                    DataView::Delete,
                )
                &&& !c.remove_source ==> f.delete.keys.len() == 0
                &&& f.combined.keys == f.copy.keys + f.delete.keys
            }
        },
{
    if from is Ok {
        if let Some(e) = value_in(views((from->Ok_0).blocks@), c.source_name@) {
            values_arrive_under_their_new_name(
                c.source@,
                c.source_name@,
                e,
                c.dest@,
                c.dest_name@,
                c.remove_source,
            );
        }
    }
}

/// A value that is there, and whose copy nothing is against, is copied.
pub proof fn sound_value_copies_go(
    c: ValueCopy,
    shown: Seq<char>,
    from: Result<Keys, RegistryFailure>,
    to: Option<Result<Keys, String>>,
    view: Option<Seq<char>>,
)
    requires
        from is Ok,
        (from->Ok_0).skipped == 0,
        value_in(views((from->Ok_0).blocks@), c.source_name@) is Some,
        c.remote || !same_key(c.source@, c.dest@) || !same_name(c.source_name@, c.dest_name@),
        to matches Some(t) ==> t is Ok && (t->Ok_0).skipped == 0 && (c.overwrite || value_in(
            views((t->Ok_0).blocks@),
            c.dest_name@,
        ) is None),
    ensures
        value_start(c, shown, from, to, view) matches Ok(CopyStartView::Go(_)),
        !c.remote ==> hive_value_start(c, shown, Ok(from->Ok_0), to) is Ok,
{
}

/// A value that is not there ends the run as not found, and a key that could
/// not be read as its failure says; nothing is written then.
pub proof fn missing_values_are_not_copied(
    c: ValueCopy,
    shown: Seq<char>,
    from: Result<Keys, RegistryFailure>,
    to: Option<Result<Keys, String>>,
    view: Option<Seq<char>>,
)
    requires
        c.remote || !same_key(c.source@, c.dest@) || !same_name(c.source_name@, c.dest_name@),
    ensures
        from matches Err(f) ==> value_start(c, shown, from, to, view) == Ok::<
            CopyStartView,
            ErrorView,
        >(CopyStartView::Stop(failure_exit(f))),
        from matches Ok(k) ==> (k.skipped > 0 ==> value_start(c, shown, from, to, view) == Ok::<
            CopyStartView,
            ErrorView,
        >(CopyStartView::Stop(Exit::Partial))),
        from matches Ok(k) ==> (k.skipped == 0 && value_in(views(k.blocks@), c.source_name@) is None
            ==> value_start(c, shown, from, to, view) == Ok::<CopyStartView, ErrorView>(
            CopyStartView::Stop(Exit::NotFound),
        )),
{
}

/// A subtree is copied or moved where it was read in full, does not lie within
/// itself, and merges into what is there only where that was asked for. What is
/// copied is the subtree as it was read, and a move deletes its root alone.
pub proof fn subtrees_are_copied_whole(
    source: PathView,
    dest: PathView,
    ground: Ground,
    remove_source: bool,
    overwrite: bool,
    read: Result<Keys, RegistryFailure>,
    present: bool,
    view: Option<Seq<char>>,
)
    ensures
        subtree_start(
            source,
            dest,
            ground,
            remove_source,
            overwrite,
            read,
            present,
            view,
        ) matches Ok(CopyStartView::Go(f)) ==> {
            &&& read is Ok
            &&& (read->Ok_0).skipped == 0
            &&& present ==> overwrite
            &&& ground != Ground::Remote ==> !same_key(source, dest) && !lies_below(dest, source)
            &&& remove_source ==> source.sub.len() > 0
            &&& f.source.keys == views((read->Ok_0).blocks@)
            &&& all_rebased(views((read->Ok_0).blocks@), source, dest) == Ok::<
                Seq<BlockView>,
                Seq<char>,
            >(f.copy.keys)
            &&& f.combined.keys == f.copy.keys + f.delete.keys
            &&& !remove_source ==> f.delete.keys.len() == 0
            &&& remove_source ==> f.delete.keys.len() == 1 && f.delete.keys[0].path == source
                && f.delete.keys[0].delete
        },
{
}

/// A backup holds the keys below its source, moved to the top, and is never
/// written over another or from a part of them; restoring puts its keys below
/// the destination, and over what is there only where that was asked for.
pub proof fn backups_are_whole(
    path: PathView,
    output: Seq<char>,
    taken: bool,
    read: Result<Keys, RegistryFailure>,
    overwrite: bool,
    present: bool,
    view: Option<Seq<char>>,
    backup: Keys,
)
    ensures
        backup_start(path, output, taken, read) matches Ok(FileStartView::Go(f)) ==> {
            &&& !taken
            &&& read is Ok
            &&& (read->Ok_0).skipped == 0
            &&& all_rebased(
                views((read->Ok_0).blocks@),
                path,
                PathView { hive: Hive::Hkcu, sub: Seq::empty() },
            ) == Ok::<Seq<BlockView>, Seq<char>>(f.keys)
        },
        restore_start(path, overwrite, present, view, backup) matches Ok(FileStartView::Go(f))
            ==> {
            &&& present ==> overwrite
            &&& backup.skipped == 0
            &&& all_rebased(
                views(backup.blocks@),
                PathView { hive: Hive::Hkcu, sub: Seq::empty() },
                path,
            ) == Ok::<Seq<BlockView>, Seq<char>>(f.keys)
        },
{
    assert(offline_path(Seq::empty()).sub =~= Seq::<char>::empty());
}

// ---------------------------------------------------------------------------
// Files of a change
// ---------------------------------------------------------------------------

/// The operations of a batch make one change, in their order.
pub proof fn batches_add_up(files: Seq<FileView>, f: FileView)
    ensures
        batch_keys(Seq::empty()) == Seq::<BlockView>::empty(),
        batch_keys(files.push(f)) == batch_keys(files) + f.keys,
{
    assert(files.push(f).drop_last() =~= files);
}

/// The keys of inputs follow each other as the inputs do.
pub proof fn inputs_add_up(inputs: Seq<NamedInput>, n: int)
    requires
        0 <= n < inputs.len(),
    ensures
        input_keys(inputs, 0) == Seq::<BlockView>::empty(),
        input_keys(inputs, n + 1) == input_keys(inputs, n) + views(inputs[n].outcome.file.keys@),
{
}

/// An import that begins makes the same change in every view: the keys that it
/// was given.
pub proof fn imports_change_what_was_given(
    policy: PolicyView,
    flags: Flags,
    count: nat,
    keys: Seq<BlockView>,
    conflicts: nat,
    allowed: ConflictPolicy,
    refused: nat,
    fail_on_refuse: bool,
    i: int,
)
    ensures
        import_start(
            policy,
            flags,
            count,
            keys,
            conflicts,
            allowed,
            refused,
            fail_on_refuse,
        ) matches Ok(StartedView::Begin(g)) ==> {
            &&& g.files.len() == count
            &&& 0 <= i < count ==> g.files[i].keys == keys
            &&& keys.len() > 0
            &&& conflicts == 0 || allowed == ConflictPolicy::LastWins
            &&& !(refused > 0 && fail_on_refuse)
            &&& g.setup == setup_of(ChangeKind::Import, flags)
        },
        import_start(
            policy,
            flags,
            count,
            keys,
            conflicts,
            allowed,
            refused,
            fail_on_refuse,
        ) is Err <==> conflicts > 0 && allowed == ConflictPolicy::Error,
{
}

/// Deleting begins where the key is named in full, and a whole key is only
/// deleted where that was asked for. In every view it is that key, or that value
/// of it, which goes.
pub proof fn deletions_change_what_was_named(
    policy: PolicyView,
    flags: Flags,
    count: nat,
    path: PathView,
    value: Option<Seq<char>>,
    recursive: bool,
    i: int,
)
    requires
        tidy(path),
    ensures
        delete_start(policy, flags, count, path_text(path), value, recursive) is Err <==> value
            is None && !recursive,
        delete_start(policy, flags, count, path_text(path), value, recursive) matches Ok(
            StartedView::Begin(g),
        ) ==> {
            &&& g.files.len() == count
            &&& g.setup == setup_of(ChangeKind::Delete, flags)
            &&& 0 <= i < count ==> {
                &&& g.files[i].keys.len() == 1
                &&& g.files[i].keys[0].path == path
                &&& value is None ==> g.files[i].keys[0].delete
                &&& value matches Some(name) ==> writes_only(
                    g.files[i].keys[0],
                    path,
                    if name == Seq::<char>::empty() {
                        None
                    } else {
                        Some(name)
                    },
                    DataView::Delete,
                )
            }
        },
{
    path_reads_back(path);
    deletions_hit_what_was_named(path, value, recursive, crate::starting::recursion_needed());
}

/// In a hive, too, it is the named key that goes, or the named value of it.
pub proof fn hive_deletions_change_what_was_named(
    policy: PolicyView,
    flags: Flags,
    subkey: Seq<char>,
    value: Option<Seq<char>>,
    recursive: bool,
)
    ensures
        hive_delete_start(policy, flags, subkey, value, recursive) is Err <==> value is None
            && !recursive,
        hive_delete_start(policy, flags, subkey, value, recursive) matches Ok(
            StartedView::Begin(g),
        ) ==> {
            &&& g.files.len() == 1
            &&& g.setup == setup_of(ChangeKind::HiveDelete, flags)
            &&& g.files[0].keys.len() == 1
            &&& g.files[0].keys[0].path == offline_path(subkey)
            &&& value is None ==> g.files[0].keys[0].delete
            &&& value matches Some(name) ==> writes_only(
                g.files[0].keys[0],
                offline_path(subkey),
                if name == Seq::<char>::empty() {
                    None
                } else {
                    Some(name)
                },
                DataView::Delete,
            )
        },
{
    deletions_hit_what_was_named(
        offline_path(subkey),
        value,
        recursive,
        "pass -r to delete a subkey and its children"@,
    );
}

/// Copying in several views makes the change that was prepared for each.
pub proof fn copies_change_what_was_prepared(
    policy: PolicyView,
    kind: ChangeKind,
    flags: Flags,
    prepared: Seq<Result<CopyStartView, ErrorView>>,
    done: Seq<FileView>,
    i: int,
    k: int,
)
    requires
        0 <= i == done.len() <= prepared.len(),
        0 <= k < prepared.len(),
    ensures
        copies_start(policy, kind, flags, prepared, done, i) matches Ok(StartedView::Begin(g))
            ==> {
            &&& g.files.len() == prepared.len()
            &&& k < i ==> g.files[k] == done[k]
            &&& i <= k ==> (prepared[k] matches Ok(CopyStartView::Go(f)) && g.files[k]
                == f.combined)
            &&& g.setup == setup_of(kind, flags)
        },
    decreases prepared.len() - i,
{
    if i < prepared.len() {
        if let Ok(CopyStartView::Go(f)) = prepared[i] {
            copies_change_what_was_prepared(
                policy,
                kind,
                flags,
                prepared,
                done.push(f.combined),
                i + 1,
                k,
            );
        }
    }
}

/// A change to a hive from a file makes the keys of the file; undoing never
/// stumbles over conflicts, and undoing or synchronizing needs a key.
pub proof fn hive_files_change_what_they_hold(
    policy: PolicyView,
    kind: ChangeKind,
    flags: Flags,
    operation: Seq<char>,
    keys: Seq<BlockView>,
    conflicts: nat,
    allowed: ConflictPolicy,
)
    ensures
        hive_file_start(policy, kind, flags, operation, keys, conflicts, allowed) matches Ok(
            StartedView::Begin(g),
        ) ==> g.files.len() == 1 && g.files[0].keys == keys && g.setup == setup_of(kind, flags),
        hive_file_start(policy, kind, flags, operation, keys, conflicts, allowed) is Err <==> {
            ||| conflicts > 0 && allowed == ConflictPolicy::Error && kind != ChangeKind::HiveUndo
            ||| keys.len() == 0 && (kind == ChangeKind::HiveUndo || kind == ChangeKind::HiveSync)
        },
{
}

/// A copy within a hive makes the change that was prepared.
pub proof fn hive_copies_change_what_was_prepared(
    policy: PolicyView,
    kind: ChangeKind,
    flags: Flags,
    start: Result<CopyStartView, ErrorView>,
)
    ensures
        start matches Ok(CopyStartView::Go(f)) ==> (hive_copy_begun(
            policy,
            kind,
            flags,
            start,
        ) matches Ok(StartedView::Begin(g)) && g.files == seq![f.combined] && g.setup == setup_of(
            kind,
            flags,
        )),
        start matches Ok(CopyStartView::Stop(exit)) ==> hive_copy_begun(policy, kind, flags, start)
            == Ok::<StartedView, ErrorView>(StartedView::Stop(exit)),
        start matches Err(e) ==> hive_copy_begun(policy, kind, flags, start) == Err::<
            StartedView,
            ErrorView,
        >(e),
{
}

// ---------------------------------------------------------------------------
// Guarding
// ---------------------------------------------------------------------------

/// A change keeps an undo file, unless it is an import that wants none; it
/// deletes what is not wanted only where an import or a synchronization asks for
/// that; and it goes by the flags as they were given.
pub proof fn changes_go_by_their_flags(kind: ChangeKind, flags: Flags)
    ensures
        setup_of(kind, flags).keeps_undo <==> !(kind == ChangeKind::Import && flags.no_backup),
        setup_of(kind, flags).reconciles ==> flags.prune,
        flags.prune && (kind == ChangeKind::Import || kind == ChangeKind::HiveSync) ==> setup_of(
            kind,
            flags,
        ).reconciles,
        kind != ChangeKind::Import && kind != ChangeKind::HiveSync ==> !setup_of(
            kind,
            flags,
        ).reconciles,
        setup_of(kind, flags).dry_run == flags.dry_run,
        setup_of(kind, flags).yes == flags.yes,
        setup_of(kind, flags).require_confirm == flags.require_confirm,
        setup_of(kind, flags).unread_exit != Exit::Success,
        setup_of(kind, flags).unread_exit == Exit::AccessDenied <==> kind == ChangeKind::SetValue
            || kind == ChangeKind::Delete,
        setup_of(kind, flags).place == Place::Hive <==> {
            ||| kind == ChangeKind::HiveSet
            ||| kind == ChangeKind::HiveDelete
            ||| kind == ChangeKind::HiveCopy
            ||| kind == ChangeKind::HiveCopyValue
            ||| kind == ChangeKind::HiveImport
            ||| kind == ChangeKind::HiveUndo
            ||| kind == ChangeKind::HiveSync
            ||| kind == ChangeKind::HiveBatch
        },
{
}

/// What goes wrong at a stage ends the change there, and says so: nothing that
/// could not be read or written is passed over.
pub proof fn problems_end_a_change(g: GuardView, policy: PolicyView, why: Seq<char>)
    ensures
        g.stage == Stage::Reconcile ==> ({
            let r = g.after(policy, EventView::Reconciled(None));
            r.stage == Stage::Done && r.end == Some(Ok::<Exit, ErrorView>(Exit::Partial))
        }),
        g.stage == Stage::Snapshot ==> ({
            let r = g.after(policy, EventView::Snapshotted(false));
            r.stage == Stage::Done && r.end == Some(
                Ok::<Exit, ErrorView>(g.setup.unread_exit),
            )
        }),
        g.stage == Stage::SaveUndo ==> ({
            let r = g.after(policy, EventView::Saved(Some(why)));
            r.stage == Stage::Done && (r.end matches Some(Err(e)) && e.message == why)
        }),
        g.stage == Stage::OpenLog ==> ({
            let r = g.after(policy, EventView::Logged(Some(why)));
            r.stage == Stage::Done && (r.end matches Some(Err(e)) && e.message == why)
        }),
{
}

/// A change that is made ends as making it did, and the files stay those that
/// were decided on from the deletions to the end.
pub proof fn changes_end_as_they_were_made(g: GuardView, policy: PolicyView, e: EventView)
    ensures
        g.stage == Stage::Change ==> (e matches EventView::Changed(exit) ==> g.after(
            policy,
            e,
        ).stage == Stage::Done && g.after(policy, e).end == Some(Ok::<Exit, ErrorView>(exit))),
        g.stage != Stage::Reconcile ==> g.after(policy, e).files == g.files,
        g.after(policy, e).stage != Stage::Done ==> g.after(policy, e).end == g.end,
        g.stage == Stage::Reconcile ==> (e matches EventView::Reconciled(Some(files)) ==> g.after(
            policy,
            e,
        ).files == files),
        g.after(policy, e).setup == g.setup,
{
}

/// A change that all goes well for is made, and ends as making it did.
pub proof fn sound_changes_are_made(
    policy: PolicyView,
    setup: Setup,
    files: Seq<FileView>,
    exit: Exit,
)
    requires
        crate::guard::all_pass(policy, setup.place, files, 0) is Ok,
        !setup.reconciles,
    ensures
        ({
            let g = begun(policy, setup, files);
            let a = if setup.keeps_undo {
                g.after(policy, EventView::Snapshotted(true))
            } else {
                g
            };
            let b = if setup.dry_run || setup.yes && !setup.require_confirm {
                a
            } else {
                a.after(policy, EventView::Answered(true))
            };
            let c = if setup.keeps_undo && !setup.dry_run {
                b.after(policy, EventView::Saved(None))
            } else {
                b
            };
            let d = c.after(policy, EventView::Logged(None));
            &&& d.stage == Stage::Change
            &&& d.files == files
            &&& d.after(policy, EventView::Changed(exit)).end == Some(Ok::<Exit, ErrorView>(exit))
        }),
{
}

// ---------------------------------------------------------------------------
// Plans
// ---------------------------------------------------------------------------

/// A key that is denied is listed with its rule, and no other is.
pub proof fn denied_keys_are_listed(policy: PolicyView, keys: Seq<BlockView>, b: BlockView)
    ensures
        denials(policy, Seq::empty()) == Seq::<(Seq<char>, Seq<char>)>::empty(),
        denials(policy, keys.push(b)) == (match denied_by(policy.deny_keys, b.path) {
            Some(rule) => denials(policy, keys).push((path_text(b.path), rule)),
            None => denials(policy, keys),
        }),
{
    assert(keys.push(b).drop_last() =~= keys);
}

/// A plan takes up what was found to be deleted, and is blocked where that
/// could not be found out; one that is denied looks for nothing.
pub proof fn plans_take_up_what_was_found(
    p: PlannedView,
    r: Result<Seq<BlockView>, Seq<char>>,
    policy: PolicyView,
    failures: Seq<(Seq<char>, Seq<char>)>,
)
    ensures
        p.blocked() ==> p.reconciled(r) == p,
        !p.blocked() && r is Ok ==> p.reconciled(r).effective() == r->Ok_0 && p.reconciled(
            r,
        ).all_failures(failures) == failures,
        !p.blocked() && r is Err ==> p.reconciled(r).blocked() && p.reconciled(r).all_failures(
            failures,
        ) == failures.push(("subkey reconciliation"@, r->Err_0)),
        p.reconciled(r).denied == p.denied,
        p.blocked() <==> p.denied.len() > 0 || p.failure is Some,
{
}

/// A plan is held against the policy again where keys that have to be deleted
/// were looked for, whichever the views.
pub proof fn deletions_are_held_against_the_policy(
    p: PlannedView,
    policy: PolicyView,
    prune: bool,
    both: bool,
)
    ensures
        p.denied.len() == 0 ==> p.finished(policy, prune, true, both) == p.rechecked(policy),
        !prune ==> p.finished(policy, prune, false, both) == p,
        p.finished(policy, prune, true, both).keys == p.keys,
        p.finished(policy, prune, true, both).failure == p.failure,
{
}

/// A copy plan that is applied makes the change it holds, the copy before the
/// deletion, and only where its source was read in full and has not changed.
pub proof fn copy_plans_make_what_they_hold(
    keys: Seq<BlockView>,
    unreadable: nat,
    p: CopyPlanView,
    policy: PolicyView,
    plan: Seq<char>,
)
    ensures
        bound_change(keys, unreadable, p, policy, plan) matches Ok(f) ==> {
            &&& f.keys == p.copy_file.keys + p.delete_file.keys
            &&& unreadable == 0
            &&& plan_source(keys, p) matches Ok(s) && digest_of_file(s) == p.source_digest
        },
        p.source_value is None && plan_source(keys, p) is Ok ==> (plan_source(
            keys,
            p,
        )->Ok_0).keys == keys,
{
}

/// A value's plan is bound to the value of its name, and moves its data to the
/// destination's name.
pub proof fn value_plans_follow_the_name(
    keys: Seq<BlockView>,
    p: CopyPlanView,
    from: Option<Seq<char>>,
    to: Option<Seq<char>>,
)
    requires
        p.source_value == Some(from),
        p.destination_value == Some(to),
        value_in(keys, from) is Some,
    ensures
        plan_source(keys, p) matches Ok(s) && s.keys.len() == 1 && s.keys[0].path == p.source
            && s.keys[0].values == seq![value_in(keys, from)->0] && (plan_payload(s, p) matches Ok(
            f,
        ) && f.keys.len() == 1 && writes_only(
            f.keys[0],
            p.destination,
            to,
            (value_in(keys, from)->0).data,
        )),
{
}

/// A subtree's plan moves what was read from the source to the destination.
pub proof fn subtree_plans_follow_the_paths(keys: Seq<BlockView>, p: CopyPlanView)
    requires
        p.source_value is None,
        p.destination_value is None,
        all_rebased(keys, p.source, p.destination) is Ok,
    ensures
        plan_source(keys, p) matches Ok(s) && (plan_payload(s, p) matches Ok(f) && all_rebased(
            keys,
            p.source,
            p.destination,
        ) == Ok::<Seq<BlockView>, Seq<char>>(f.keys)),
{
}

/// A plan is applied to the state that it was made for, read in full, and to no
/// other.
pub proof fn plans_meet_the_state_they_were_made_for(
    unreadable: nat,
    current: FileView,
    p: CopyPlanView,
    plan: Seq<char>,
)
    ensures
        state_bound(unreadable, current, p, plan) is Ok <==> unreadable == 0 && digest_of_file(
            current,
        ) == p.current_digest,
{
}

/// The first taken place is taken, and none before it is; there is none where
/// nothing is taken.
pub proof fn the_first_taken_place_is_told(taken: Seq<bool>, i: int)
    requires
        0 <= i <= taken.len(),
    ensures
        match first_taken(taken, i) {
            Some(k) => i <= k < taken.len() && taken[k] && forall|j: int|
                i <= j < k ==> !#[trigger] taken[j],
            None => forall|j: int| i <= j < taken.len() ==> !#[trigger] taken[j],
        },
    decreases taken.len() - i,
{
    if i < taken.len() && !taken[i] {
        the_first_taken_place_is_told(taken, i + 1);
    }
}

/// Plans of the two views are of one operation where only their view and what
/// was read in it differ.
pub proof fn plans_of_one_operation_agree(a: CopyPlanView, b: CopyPlanView)
    ensures
        same_operation(a, b) <==> (CopyPlanView {
            view: b.view,
            copy_file: b.copy_file,
            delete_file: b.delete_file,
            source_digest: b.source_digest,
            current_digest: b.current_digest,
            ..a
        }) == b,
{
}

// ---------------------------------------------------------------------------
// Sources
// ---------------------------------------------------------------------------

/// A source that is no key is read as a file where it is there, and only where
/// no computer is named.
pub proof fn sources_are_keys_or_files(
    spec: Seq<char>,
    computer: Option<Seq<char>>,
    present: bool,
)
    requires
        path_named(spec) is None,
    ensures
        source_of(spec, computer, present) is Ok <==> present && computer is None,
        source_of(spec, computer, present) matches Ok(s) ==> s == SourceKindView::Input,
{
}

/// A root that is written as a path is that path; without one there is none.
pub proof fn roots_read_back(p: PathView)
    requires
        tidy(p),
    ensures
        root_named(Some(path_text(p))) == Ok::<Option<PathView>, ErrorView>(Some(p)),
        root_named(None) == Ok::<Option<PathView>, ErrorView>(None),
{
    path_reads_back(p);
}

/// The first key outside a subtree is told; where none is, every key is the
/// root or lies below it.
pub proof fn strangers_in_a_subtree_are_told(keys: Seq<BlockView>, root: PathView, i: int)
    requires
        0 <= i <= keys.len(),
        root.hive == Hive::Hkcu,
    ensures
        outside_subtree(keys, root, i) is None <==> forall|k: int|
            i <= k < keys.len() ==> same_key((#[trigger] keys[k]).path, root) || lies_below(
                keys[k].path,
                root,
            ),
        outside_subtree(keys, root, i) matches Some(p) ==> !same_key(p, root) && !lies_below(
            p,
            root,
        ) && exists|k: int| i <= k < keys.len() && (#[trigger] keys[k]).path == p,
    decreases keys.len() - i,
{
    if i < keys.len() {
        if in_subtree(keys[i].path, root) {
            strangers_in_a_subtree_are_told(keys, root, i + 1);
        } else {
            assert(keys[i].path == keys[i].path);
            assert(lies_below(keys[i].path, root) ==> keys[i].path.hive == root.hive);
        }
    }
}

/// In both views a plan is held against the policy again where anything is
/// pruned, be it values alone.
pub proof fn pruned_plans_of_both_views_are_held_against_the_policy(
    p: PlannedView,
    policy: PolicyView,
    prune_keys: bool,
)
    ensures
        p.finished(policy, true, prune_keys, true) == p.rechecked(policy),
        p.finished(policy, true, false, false) == p,
{
}

} // verus!
