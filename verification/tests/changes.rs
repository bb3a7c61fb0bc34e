use regx::apply::{changes_remain, copy_views_exit, view_apply_exit, ApplyReport, CopyRun, CopyStep, ViewApplyReport};
use regx::batch::{batch_operation_status, Batch, BatchOperationReport, BatchStep};
use regx::changing::{begin_change, undo_rule_for, ChangeKind, Flags};
use regx::exit::{Exit, RegistryFailure};
use regx::guard::{Event, Stage};
use regx::input::{ConflictPolicy, ReadOutcome};
use regx::model::{KeyBlock, RegData, RegFile, RegPath, ValueEntry, ValueName};
use regx::mutation::{
    check_copy, copy_subtree, enforce_denies, enforce_hive_denies, hive_delete_file,
    live_delete_file, make_file, set_file, Ground,
};
use regx::planning::{check_plan_inputs, check_saved_view, denied_keys, tidy, Planned, StaleView};
use regx::policy::Policy;
use regx::preparing::{
    coalesced_file, gather_inputs, prepare_backup, prepare_batch, prepare_restore, prepare_subtree_copy,
    prepare_value_copy, BatchRedirects, CopyStart, FileStart, Keys, NamedInput, ValueCopy,
};
use regx::question::Question;
use regx::saved_plan::{snapshot_digest, RegistryView, SavedView, Snapshot};
use regx::starting::{
    start_copies, start_delete, start_hive_copy, start_hive_delete, start_hive_file, start_hive_set,
    start_import, start_set, Started,
};
use regx::transaction::{NextStep, StepOutcome, Transaction, UndoRule};

fn path(s: &str) -> RegPath {
    RegPath::parse(s).unwrap()
}

fn key(s: &str, values: &[(&str, &str)]) -> KeyBlock {
    KeyBlock {
        path: path(s),
        delete: false,
        values: values
            .iter()
            .map(|(n, d)| ValueEntry {
                name: ValueName::Named(n.to_string()),
                data: RegData::Sz(d.to_string()),
                line: 0,
            })
            .collect(),
        line: 0,
    }
}

fn policy(deny: &[&str]) -> Policy {
    Policy {
        deny_keys: deny.iter().map(|s| s.to_string()).collect(),
        configured: true,
        ..Policy::default()
    }
}

fn flags() -> Flags {
    Flags {
        dry_run: false,
        yes: false,
        require_confirm: false,
        prune: false,
        no_backup: false,
    }
}

fn report(changed: usize, failed: bool) -> ApplyReport {
    ApplyReport {
        keys_created: 0,
        keys_deleted: 0,
        values_set: changed,
        values_deleted: 0,
        failures: if failed {
            vec![("k".to_string(), "denied".to_string())]
        } else {
            vec![]
        },
    }
}

const KINDS: [ChangeKind; 17] = [
    ChangeKind::Import,
    ChangeKind::Undo,
    ChangeKind::SetValue,
    ChangeKind::Delete,
    ChangeKind::Copy,
    ChangeKind::Restore,
    ChangeKind::ApplyPlan,
    ChangeKind::ApplyCopyPlan,
    ChangeKind::Batch,
    ChangeKind::HiveSet,
    ChangeKind::HiveDelete,
    ChangeKind::HiveCopy,
    ChangeKind::HiveCopyValue,
    ChangeKind::HiveImport,
    ChangeKind::HiveUndo,
    ChangeKind::HiveSync,
    ChangeKind::HiveBatch,
];

fn file() -> RegFile {
    make_file(vec![key("HKCU\\Software\\Acme", &[("n", "v")])])
}

#[test]
fn every_kind_of_change_goes_its_way() {
    let p = policy(&[]);
    for kind in KINDS {
        let mut g = begin_change(&p, kind, flags(), vec![file()]);
        assert_eq!(g.stage, Stage::Snapshot);
        g.record(&p, Event::Answered(true));
        assert_eq!(g.stage, Stage::Snapshot);
        g.record(&p, Event::Snapshotted(true));
        assert_eq!(g.stage, Stage::Ask);
        g.record(&p, Event::Answered(true));
        assert_eq!(g.stage, Stage::SaveUndo);
        g.record(&p, Event::Saved(Ok(())));
        assert_eq!(g.stage, Stage::OpenLog);
        g.record(&p, Event::Logged(Ok(())));
        assert_eq!(g.stage, Stage::Change);
        g.record(&p, Event::Changed(Exit::Success));
        assert_eq!(g.stage, Stage::Done);
        assert!(matches!(g.end, Some(Ok(Exit::Success))));
    }
}

#[test]
fn every_kind_of_change_is_held_against_the_policy_first() {
    let p = policy(&["HKCU\\Software\\Acme"]);
    for kind in KINDS {
        let mut g = begin_change(&p, kind, flags(), vec![file()]);
        assert_eq!(g.stage, Stage::Done);
        g.record(&p, Event::Snapshotted(true));
        g.record(&p, Event::Answered(true));
        assert_eq!(g.stage, Stage::Done);
        match &g.end {
            Some(Err(e)) => assert_eq!(e.code, Exit::AccessDenied),
            other => panic!("{other:?}"),
        }
    }
}

#[test]
fn a_declined_change_leaves_nothing_behind() {
    let p = policy(&[]);
    let mut g = begin_change(&p, ChangeKind::Import, flags(), vec![file()]);
    g.record(&p, Event::Snapshotted(true));
    g.record(&p, Event::Answered(false));
    assert_eq!(g.stage, Stage::Done);
    assert!(matches!(g.end, Some(Ok(Exit::Success))));
    g.record(&p, Event::Saved(Ok(())));
    assert_eq!(g.stage, Stage::Done);
}

#[test]
fn what_cannot_be_read_in_full_is_not_changed() {
    let p = policy(&[]);
    let mut g = begin_change(&p, ChangeKind::SetValue, flags(), vec![file()]);
    g.record(&p, Event::Snapshotted(false));
    assert!(matches!(g.end, Some(Ok(Exit::AccessDenied))));
    let mut g = begin_change(&p, ChangeKind::Import, flags(), vec![file()]);
    g.record(&p, Event::Snapshotted(false));
    assert!(matches!(g.end, Some(Ok(Exit::Partial))));
}

#[test]
fn generated_deletions_are_held_against_the_policy_too() {
    let p = policy(&["HKCU\\Software\\Other"]);
    let f = Flags {
        prune: true,
        ..flags()
    };
    let mut g = begin_change(&p, ChangeKind::Import, f, vec![file()]);
    assert_eq!(g.stage, Stage::Reconcile);
    let mut more = file();
    more.keys.push(KeyBlock {
        path: path("HKCU\\Software\\Other"),
        delete: true,
        values: vec![],
        line: 0,
    });
    g.record(&p, Event::Reconciled(Some(vec![more])));
    assert!(matches!(g.end, Some(Err(_))));
    let mut g = begin_change(&p, ChangeKind::Import, f, vec![file()]);
    g.record(&p, Event::Reconciled(None));
    assert!(matches!(g.end, Some(Ok(Exit::Partial))));
}

#[test]
fn a_rehearsal_writes_no_undo_file() {
    let p = policy(&[]);
    let f = Flags {
        dry_run: true,
        ..flags()
    };
    let mut g = match start_hive_set(&p, f, "\\Software\\", "n", RegData::Dword(1)) {
        Started::Begin(g) => g,
        Started::Stop(e) => panic!("{e:?}"),
    };
    assert_eq!(g.files[0].keys[0].path.sub, "Software");
    g.record(&p, Event::Snapshotted(true));
    assert_eq!(g.stage, Stage::OpenLog);
    g.record(&p, Event::Logged(Err("full".to_string())));
    match &g.end {
        Some(Err(e)) => assert_eq!(e.message, "full"),
        other => panic!("{other:?}"),
    }
}

#[test]
fn subtrees_are_copied_when_they_were_read_in_full() {
    let source = path("HKCU\\A");
    let dest = path("HKCU\\B");
    let read = |skipped| {
        Ok(Keys {
            blocks: vec![key("HKCU\\A", &[("n", "v")]), key("HKCU\\A\\C", &[])],
            skipped,
        })
    };
    let r = prepare_subtree_copy(&source, &dest, Ground::Live, true, false, read(0), false, None);
    match r.unwrap() {
        CopyStart::Go(files) => {
            assert_eq!(files.copy.keys[1].path.sub, "B\\C");
            assert_eq!(files.delete.keys.len(), 1);
            assert_eq!(files.combined.keys.len(), 3);
            let p = policy(&["HKCU\\A"]);
            let started = start_copies(&p, ChangeKind::Copy, flags(), vec![Ok(CopyStart::Go(files))]);
            assert_eq!(started.unwrap_err().code, Exit::AccessDenied);
        }
        CopyStart::Stop(e) => panic!("{e:?}"),
    }
    let r = prepare_subtree_copy(&source, &dest, Ground::Live, true, false, read(1), false, None);
    assert!(matches!(r, Ok(CopyStart::Stop(Exit::Partial))));
    let r = prepare_subtree_copy(
        &source,
        &dest,
        Ground::Live,
        false,
        false,
        Err(RegistryFailure::NotFound),
        false,
        None,
    );
    assert!(matches!(r, Ok(CopyStart::Stop(Exit::NotFound))));
    let e = prepare_subtree_copy(&source, &dest, Ground::Live, false, false, read(0), true, Some("32"))
        .unwrap_err();
    assert_eq!(
        e.message,
        "destination HKEY_CURRENT_USER\\B already exists in view 32; pass --overwrite to merge into it"
    );
    assert!(check_copy(&source, &path("HKCU\\A\\X"), Ground::Live, false).is_err());
    assert!(check_copy(&path("HKCU"), &dest, Ground::Live, true).is_err());
    assert!(copy_subtree(vec![key("HKCU\\Z", &[])], &source, &dest, false).is_err());
}

#[test]
fn values_are_copied_under_their_new_names() {
    let c = |overwrite| ValueCopy {
        source: path("HKCU\\A"),
        source_name: ValueName::Named("n".to_string()),
        dest: path("HKCU\\B"),
        dest_name: ValueName::Named("m".to_string()),
        remove_source: true,
        overwrite,
        remote: false,
    };
    let from = || {
        Ok(Keys {
            blocks: vec![key("HKCU\\A", &[("N", "v")])],
            skipped: 0,
        })
    };
    let to = || {
        Some(Ok(Keys {
            blocks: vec![key("HKCU\\B", &[("M", "w")])],
            skipped: 0,
        }))
    };
    let e = prepare_value_copy(&c(true), "B", from(), Some(Err("odd".to_string())), None).unwrap_err();
    assert_eq!((e.code, e.message.as_str()), (Exit::Io, "odd"));
    match prepare_value_copy(&c(true), "B", from(), to(), None).unwrap() {
        CopyStart::Go(files) => {
            assert_eq!(files.copy.keys[0].values[0].data, RegData::Sz("v".to_string()));
            assert_eq!(files.delete.keys[0].values[0].data, RegData::Delete);
        }
        CopyStart::Stop(e) => panic!("{e:?}"),
    }
    let e = prepare_value_copy(&c(false), "B", from(), to(), None).unwrap_err();
    assert_eq!(e.message, "destination value B\\m exists; pass --overwrite");
    let none = Ok(Keys {
        blocks: vec![],
        skipped: 0,
    });
    assert!(matches!(
        prepare_value_copy(&c(true), "B", none, None, None),
        Ok(CopyStart::Stop(Exit::NotFound))
    ));
}

#[test]
fn a_backup_is_restored_where_it_was_taken() {
    let source = path("HKLM\\Software\\App");
    let read = |skipped| {
        Ok(Keys {
            blocks: vec![
                key("HKLM\\Software\\App", &[("a", "1")]),
                key("HKLM\\Software\\App\\Child", &[]),
            ],
            skipped,
        })
    };
    let e = prepare_backup(&source, "app.hiv", true, read(0)).unwrap_err();
    assert_eq!(e.message, "app.hiv already exists; refusing to overwrite a backup");
    assert!(matches!(
        prepare_backup(&source, "app.hiv", false, read(1)),
        Ok(FileStart::Stop(Exit::Partial))
    ));
    let file = match prepare_backup(&source, "app.hiv", false, read(0)).unwrap() {
        FileStart::Go(f) => f,
        FileStart::Stop(e) => panic!("{e:?}"),
    };
    assert_eq!(file.keys[0].path.sub, "");
    assert_eq!(file.keys[1].path.sub, "Child");
    let backup = Keys {
        blocks: file.keys,
        skipped: 0,
    };
    match prepare_restore(&source, false, false, None, backup).unwrap() {
        FileStart::Go(f) => {
            assert_eq!(f.keys[0].path.to_string(), "HKEY_LOCAL_MACHINE\\Software\\App");
            assert_eq!(f.keys[1].path.to_string(), "HKEY_LOCAL_MACHINE\\Software\\App\\Child");
            assert_eq!(f.keys[0].values.len(), 1);
        }
        FileStart::Stop(e) => panic!("{e:?}"),
    }
}

#[test]
fn backups_are_restored_below_their_destination() {
    let backup = |skipped| Keys {
        blocks: vec![key("HKCU\\X", &[])],
        skipped,
    };
    match prepare_restore(&path("HKLM\\Y"), false, false, None, backup(0)).unwrap() {
        FileStart::Go(f) => assert_eq!(f.keys[0].path.to_string(), "HKEY_LOCAL_MACHINE\\Y\\X"),
        FileStart::Stop(e) => panic!("{e:?}"),
    }
    assert!(matches!(
        prepare_restore(&path("HKLM\\Y"), false, false, None, backup(2)),
        Ok(FileStart::Stop(Exit::Partial))
    ));
    let e = prepare_restore(&path("HKLM\\Y"), false, true, None, backup(0)).unwrap_err();
    assert_eq!(e.code, Exit::Io);
}

#[test]
fn inputs_with_losses_or_conflicts_are_refused() {
    let input = |losses: Vec<String>| NamedInput {
        label: "a.csv".to_string(),
        outcome: ReadOutcome {
            file: file(),
            losses,
            conflicts: vec![],
        },
    };
    let keys = gather_inputs(vec![input(vec![]), input(vec![])], ConflictPolicy::Error, "merge");
    assert_eq!(keys.unwrap().len(), 2);
    let e = gather_inputs(
        vec![input(vec!["a note".to_string()])],
        ConflictPolicy::LastWins,
        "merge",
    )
    .unwrap_err();
    assert_eq!(
        e.to_string(),
        "a.csv: merge requires an exact registry-data model, but the input contains:\n  a note"
    );
    let e = coalesced_file(vec![], 2, ConflictPolicy::Error, "hive import", None).unwrap_err();
    assert_eq!(e.code, Exit::Parse);
    assert!(e.message.starts_with("hive import refused 2 semantic conflict(s); reconcile"));
    assert!(coalesced_file(vec![], 0, ConflictPolicy::Error, "x", Some("empty")).is_err());
    assert!(coalesced_file(vec![], 5, ConflictPolicy::LastWins, "x", None).is_ok());
}

#[test]
fn batches_are_checked_as_a_whole() {
    let none = BatchRedirects {
        skipped: 0,
        refused: 0,
        conflicts: 0,
        fail_on_refuse: false,
    };
    let r = prepare_batch(&policy(&[]), &vec![file(), file()], none, ConflictPolicy::Error);
    match r.unwrap() {
        FileStart::Go(f) => assert_eq!(f.keys.len(), 2),
        FileStart::Stop(e) => panic!("{e:?}"),
    }
    let denied = policy(&["HKCU\\Software"]);
    assert!(prepare_batch(&denied, &vec![file()], none, ConflictPolicy::Error).is_err());
    let refused = BatchRedirects { refused: 1, ..none };
    assert!(matches!(
        prepare_batch(&policy(&[]), &vec![], refused, ConflictPolicy::Error),
        Ok(FileStart::Stop(Exit::RedirectRefused))
    ));
}

#[test]
fn a_batch_stops_at_the_first_failure_and_is_taken_back() {
    let mut b = Batch::start(vec![false, true, false], 1, false);
    assert_eq!(b.next(), BatchStep::Apply { operation: 0, view: 0 });
    b.applied(&report(1, false));
    assert_eq!(b.next(), BatchStep::Apply { operation: 2, view: 0 });
    b.applied(&report(0, true));
    assert_eq!(b.next(), BatchStep::Rollback { view: 0 });
    b.restored(&report(1, false));
    assert_eq!(b.next(), BatchStep::Finish);
    let op = BatchOperationReport {
        id: "a".to_string(),
        attempted: true,
        skipped: false,
        views: vec![report(1, false)],
    };
    assert_eq!(batch_operation_status(&op, 0, Some(2), false, false), "rolledBack");
    assert_eq!(batch_operation_status(&op, 0, None, false, false), "applied");
    assert_eq!(batch_operation_status(&op, 0, None, false, true), "planned");
}

#[test]
fn every_touched_view_of_a_failed_batch_is_restored_the_last_first() {
    let mut b = Batch::start(vec![false, false], 3, false);
    for (view, changed) in [(0, 1), (1, 0), (2, 1)] {
        assert_eq!(b.next(), BatchStep::Apply { operation: 0, view });
        b.applied(&report(changed, false));
    }
    assert_eq!(b.next(), BatchStep::Apply { operation: 1, view: 0 });
    b.applied(&report(0, true));
    assert_eq!(b.failure(), (Some(1), false));
    assert_eq!(b.next(), BatchStep::Rollback { view: 2 });
    b.restored(&report(0, true));
    assert_eq!(b.next(), BatchStep::Rollback { view: 0 });
    b.restored(&report(1, false));
    assert_eq!(b.next(), BatchStep::Finish);
    assert_eq!(b.failure(), (Some(1), true));

    let mut rehearsed = Batch::start(vec![false], 1, true);
    rehearsed.applied(&report(1, true));
    assert_eq!(rehearsed.next(), BatchStep::Finish);
    assert_eq!(rehearsed.failure(), (Some(0), false));
}

#[test]
fn an_import_without_backup_takes_nothing_back() {
    let kept = undo_rule_for(ChangeKind::Import, flags());
    assert_eq!(kept, UndoRule::Touched);
    let bare = Flags {
        no_backup: true,
        ..flags()
    };
    let rule = undo_rule_for(ChangeKind::Import, bare);
    assert_eq!(rule, UndoRule::Nothing);
    let mut t = Transaction::start(3, false, rule);
    t.ran(StepOutcome {
        failed: false,
        touched: true,
    });
    t.ran(StepOutcome {
        failed: true,
        touched: true,
    });
    assert_eq!(t.next(), NextStep::Finish);
    let reports = |changed, failed| {
        vec![ViewApplyReport {
            label: "native".to_string(),
            applied: Some(report(changed, failed)),
            rollback: None,
        }]
    };
    assert!(changes_remain(true, &reports(1, true)));
    assert!(!changes_remain(true, &reports(0, true)));
    assert!(!changes_remain(true, &reports(1, false)));
    assert!(!changes_remain(false, &reports(1, true)));
}

#[test]
fn plans_are_held_against_the_policy_again_where_that_is_due() {
    let p = policy(&["HKCU\\B"]);
    let pruned = || Ok(vec![key("HKCU\\A", &[]), key("HKCU\\B", &[])]);
    let begun = || {
        let mut planned = Planned::begin(&p, vec![key("HKCU\\A", &[])]);
        planned.reconcile(pruned());
        planned
    };
    let mut one = begun();
    one.finish(&p, true, false, false);
    assert!(!one.is_blocked());
    let mut keys = begun();
    keys.finish(&p, true, true, false);
    assert!(keys.is_blocked());
    let mut both = begun();
    both.finish(&p, true, false, true);
    assert_eq!(both.denied.len(), 1);
    assert!(both.effective_file().keys.is_empty());
    assert!(both.failures(vec![]).is_empty());
    let mut failed = Planned::begin(&p, vec![key("HKCU\\A", &[])]);
    failed.reconcile(Err("unreadable".to_string()));
    assert_eq!(
        failed.failures(vec![("k".to_string(), "why".to_string())]),
        vec![
            ("k".to_string(), "why".to_string()),
            ("subkey reconciliation".to_string(), "unreadable".to_string()),
        ]
    );
    assert!(check_plan_inputs(true, &vec![false, false]).is_ok());
    assert!(check_plan_inputs(false, &vec![true]).is_ok());
    let e = check_plan_inputs(true, &vec![false, true]).unwrap_err();
    assert_eq!(e.code, Exit::Usage);
    assert_eq!(
        e.message,
        "a saved plan requires named source files; stream input cannot be re-verified"
    );
}

#[test]
fn steps_are_undone_in_reverse() {
    let mut t = Transaction::start(3, false, UndoRule::Touched);
    let touched = StepOutcome {
        failed: false,
        touched: true,
    };
    assert_eq!(t.next(), NextStep::Run(0));
    t.ran(touched);
    t.ran(StepOutcome {
        failed: true,
        touched: true,
    });
    assert_eq!(t.next(), NextStep::Undo(1));
    t.undid();
    assert_eq!(t.next(), NextStep::Undo(0));
    t.undid();
    assert_eq!(t.next(), NextStep::Finish);
}

#[test]
fn a_failed_copy_keeps_its_source() {
    let run = CopyRun::start(true, false);
    assert_eq!(run.next(), CopyStep::Copy);
    let run = run.record(report(1, true));
    assert_eq!(run.next(), CopyStep::Rollback);
    let run = run.record(report(1, false));
    assert_eq!(run.next(), CopyStep::Finish);
    assert_eq!(run.exit(), Exit::AccessDenied);
    assert_eq!(copy_views_exit(&vec![run]), Exit::AccessDenied);
    let run = CopyRun::start(true, false).record(report(1, false));
    assert_eq!(run.next(), CopyStep::RemoveSource);
    assert_eq!(run.record(report(1, false)).exit(), Exit::Success);
}

#[test]
fn views_end_as_the_worst_of_them() {
    let view = |applied, rollback| ViewApplyReport {
        label: "32".to_string(),
        applied,
        rollback,
    };
    assert_eq!(view_apply_exit(&vec![view(Some(report(1, false)), None)]), Exit::Success);
    assert_eq!(
        view_apply_exit(&vec![view(Some(report(1, true)), Some(report(1, false)))]),
        Exit::AccessDenied
    );
    assert_eq!(view_apply_exit(&vec![view(Some(report(1, true)), None)]), Exit::Partial);
}

#[test]
fn changes_are_built_from_their_parts() {
    let f = set_file(path("HKCU\\A"), "", RegData::Dword(7));
    assert_eq!(f.keys[0].values[0].name, ValueName::Default);
    assert!(live_delete_file(path("HKCU\\A"), None, false).is_err());
    assert!(live_delete_file(path("HKCU\\A"), None, true).unwrap().keys[0].delete);
    let f = hive_delete_file(path("HKCU\\A"), Some("n"), false).unwrap();
    assert_eq!(f.keys[0].values[0].data, RegData::Delete);
    assert!(enforce_denies(&policy(&["HKCU\\A"]), &f).is_err());
    assert!(enforce_denies(&policy(&["HKCU\\B"]), &f).is_ok());
    let root = hive_delete_file(path("HKCU"), None, true).unwrap();
    assert_eq!(
        enforce_hive_denies(&policy(&[]), &root).unwrap_err().code,
        Exit::Usage
    );
}

#[test]
fn a_blocked_plan_changes_nothing() {
    let p = policy(&["HKCU\\Software\\Acme"]);
    let keys = || vec![key("HKCU\\Software\\Acme", &[]), key("HKCU\\Software\\Else", &[])];
    assert_eq!(denied_keys(&p, &keys()).len(), 1);
    let planned = Planned::begin(&p, keys());
    assert!(!planned.may_reconcile());
    assert!(planned.effective_file().keys.is_empty());
    let mut planned = Planned::begin(&policy(&["HKCU\\New"]), keys());
    planned.reconcile(Ok(vec![key("HKCU\\New", &[]), key("HKCU\\New", &[])]));
    planned.recheck(&policy(&["HKCU\\New"]));
    assert_eq!(
        planned.denied,
        vec![("HKEY_CURRENT_USER\\New".to_string(), "HKCU\\New".to_string())]
    );
    let mut planned = Planned::begin(&policy(&[]), keys());
    planned.reconcile(Err("unreadable".to_string()));
    assert!(planned.effective_file().keys.is_empty());
}

#[test]
fn denials_are_listed_in_order_and_once() {
    let pair = |a: &str, b: &str| (a.to_string(), b.to_string());
    assert_eq!(
        tidy(vec![pair("b", "x"), pair("a", "z"), pair("b", "x"), pair("a", "y")]),
        vec![pair("a", "y"), pair("a", "z"), pair("b", "x")]
    );
}

#[test]
fn a_saved_plan_is_applied_to_the_state_it_was_made_for() {
    let snapshot = |unreadable| Snapshot {
        file: file(),
        new_keys: vec![],
        restored_values: 0,
        unreadable,
    };
    let view = |digest: String| SavedView {
        label: "native".to_string(),
        view: RegistryView::Native,
        desired: file(),
        current_digest: digest,
    };
    let now = snapshot(vec![]);
    assert!(check_saved_view(&view(snapshot_digest(&now)), &now).is_ok());
    match check_saved_view(&view("0".repeat(64)), &now) {
        Err(StaleView::Changed(m)) => {
            assert!(m.starts_with("refusing stale saved plan: view native"), "{m}")
        }
        other => panic!("{other:?}"),
    }
    let holes = snapshot(vec![("k".to_string(), "denied".to_string())]);
    assert!(matches!(
        check_saved_view(&view(snapshot_digest(&now)), &holes),
        Err(StaleView::Unreadable)
    ));
}

#[test]
fn questions_say_what_is_about_to_happen() {
    assert_eq!(
        Question::SetValue {
            value: "a\"b".to_string(),
            key: "HKEY_CURRENT_USER\\A".to_string()
        }
        .text(),
        "Set value \"a\\\"b\" under HKEY_CURRENT_USER\\A?"
    );
    assert_eq!(
        Question::HiveDelete {
            subkey: "A".to_string(),
            only: Some("n".to_string())
        }
        .text(),
        "Delete A\\n from the hive?"
    );
    assert_eq!(
        Question::HiveSync {
            blocks: 2,
            prune: true,
            prune_keys: false
        }
        .text(),
        "Synchronize 2 key block(s) into the hive (prune values)?"
    );
    assert_eq!(
        Question::Copy {
            moves: true,
            source: "a".to_string(),
            dest: "b".to_string(),
            merges: true
        }
        .text(),
        "Move a -> b (merge into existing destination)?"
    );
}

#[test]
fn imports_start_or_end_before_anything_is_asked() {
    let p = policy(&[]);
    let keys = || vec![key("HKCU\\A", &[])];
    let start = |keys, conflicts, allowed, refused, fail| {
        start_import(&p, flags(), 2, keys, conflicts, allowed, refused, fail)
    };
    match start(keys(), 1, ConflictPolicy::LastWins, 1, false).unwrap() {
        Started::Begin(g) => assert_eq!(g.files.len(), 2),
        Started::Stop(e) => panic!("{e:?}"),
    }
    let e = start(keys(), 1, ConflictPolicy::Error, 0, false).unwrap_err();
    assert_eq!(
        e.message,
        "registry mutation refused 1 semantic conflict(s) after combining and redirecting inputs; reconcile the sources or use --conflicts last-wins"
    );
    assert!(matches!(
        start(keys(), 0, ConflictPolicy::Error, 1, true),
        Ok(Started::Stop(Exit::RedirectRefused))
    ));
    assert!(matches!(
        start(vec![], 0, ConflictPolicy::Error, 0, true),
        Ok(Started::Stop(Exit::Success))
    ));
    assert!(matches!(
        start_set(&p, flags(), 1, vec![]),
        Started::Stop(Exit::RedirectRefused)
    ));
    assert!(start_delete(&p, flags(), 1, "nowhere", None, true).is_err());
    assert!(start_delete(&p, flags(), 1, "HKCU\\A", None, false).is_err());
    assert!(start_delete(&p, flags(), 1, "HKCU\\A", None, true).is_ok());
}

#[test]
fn hive_operations_start_from_their_subkeys() {
    let p = policy(&["HKLM\\Software\\Finance"]);
    match start_hive_delete(&p, flags(), "Software\\Finance", None, true).unwrap() {
        Started::Begin(g) => assert_eq!(g.stage, Stage::Done),
        Started::Stop(e) => panic!("{e:?}"),
    }
    let read = Ok(Keys {
        blocks: vec![key("HKCU\\A", &[])],
        skipped: 0,
    });
    match start_hive_copy(&p, flags(), "A", "B", true, false, read, false).unwrap() {
        Started::Begin(g) => {
            assert_eq!(g.stage, Stage::Snapshot);
            assert_eq!(g.files[0].keys.len(), 2);
        }
        Started::Stop(e) => panic!("{e:?}"),
    }
    let e = start_hive_file(
        &p,
        ChangeKind::HiveSync,
        flags(),
        "hive sync",
        vec![],
        0,
        ConflictPolicy::Error,
    )
    .unwrap_err();
    assert_eq!(e.message, "hive sync input contains no key blocks");
    assert!(start_hive_file(
        &p,
        ChangeKind::HiveImport,
        flags(),
        "hive import",
        vec![],
        0,
        ConflictPolicy::Error,
    )
    .is_ok());
}
