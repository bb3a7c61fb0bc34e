use regx::audit::{
    fail_anchor, next_audit_step, serve_audit, AnchorFailure, AuditAction, AuditRequest, AuditStep,
    Break, Verification,
};
use regx::apply::{needs_rollback, ApplyReport, ViewApplyReport};
use regx::batch::{batch_exit, empty_batch_exit};
use regx::changing::{ChangeKind, Flags};
use regx::exit::{Exit, RegistryFailure};
use regx::guard::Stage;
use regx::input::{require_lossless_input, ConflictPolicy, ReadOutcome};
use regx::model::{KeyBlock, RegData, RegPath, ValueEntry, ValueName};
use regx::mutation::{cli_value_name, make_file};
use regx::outcome::{
    compare_permissions_exit, export_views_exit, import_exit, patch_is_written, plan_exit,
    plan_is_unsafe, query_exit, scope_exit, search_views_exit, ViewTally,
};
use regx::policy::Policy;
use regx::preparing::{Keys, ValueCopy};
use regx::saved_plan::{RegistryView, Snapshot};
use regx::shortcut_run::{link_record, LinkChange, LinkEvent, LinkRun, LinkStage};
use regx::source::check_file_options;
use regx::starting::{start_hive_file, start_hive_value_copy, Started};
use regx::text_report::{captured_text, view_apply_text};
use regx::views::{view_of, ViewChoice};

fn text(s: &str) -> String {
    s.to_string()
}

fn report(failures: &[&str]) -> ApplyReport {
    ApplyReport {
        keys_created: 1,
        keys_deleted: 0,
        values_set: 2,
        values_deleted: 0,
        failures: failures
            .iter()
            .map(|f| (text(f), text("denied")))
            .collect(),
    }
}

#[test]
fn views_decide_how_a_query_ends() {
    let all = ViewTally {
        views: 2,
        first_failure: None,
        incomplete: false,
    };
    let none = ViewTally {
        views: 0,
        first_failure: Some(RegistryFailure::AccessDenied),
        incomplete: false,
    };
    let one = ViewTally {
        views: 1,
        first_failure: Some(RegistryFailure::NotFound),
        incomplete: false,
    };
    assert_eq!(query_exit(&all, true, true), Exit::Success);
    assert_eq!(query_exit(&all, true, false), Exit::NotFound);
    assert_eq!(query_exit(&none, true, false), Exit::AccessDenied);
    assert_eq!(query_exit(&one, true, true), Exit::Partial);
    assert_eq!(scope_exit(&all, true, true, false), Exit::Success);
    assert_eq!(scope_exit(&all, true, true, true), Exit::Partial);
    assert_eq!(scope_exit(&all, true, false, false), Exit::Partial);
    assert_eq!(scope_exit(&all, false, false, false), Exit::NotFound);
    assert_eq!(scope_exit(&none, false, false, false), Exit::AccessDenied);
}

#[test]
fn comparisons_searches_and_exports_end_by_their_views() {
    assert_eq!(compare_permissions_exit(0, 1, 0, false, false), Exit::AccessDenied);
    assert_eq!(compare_permissions_exit(1, 0, 1, false, false), Exit::Partial);
    assert_eq!(compare_permissions_exit(2, 0, 0, true, true), Exit::Partial);
    assert_eq!(compare_permissions_exit(2, 0, 0, false, true), Exit::Success);
    assert_eq!(search_views_exit(2, 0, false, 1), Exit::Success);
    assert_eq!(search_views_exit(2, 0, false, 0), Exit::NotFound);
    assert_eq!(search_views_exit(1, 1, false, 1), Exit::Partial);
    assert_eq!(export_views_exit(2, 0, false, 1), Exit::Success);
    assert_eq!(export_views_exit(2, 0, false, 2), Exit::NotFound);
    assert_eq!(export_views_exit(2, 0, true, 0), Exit::Partial);
    assert!(patch_is_written(true, false, false));
    assert!(!patch_is_written(true, true, false));
    assert!(!patch_is_written(true, false, true));
}

#[test]
fn skipped_keys_make_an_import_partial() {
    assert_eq!(import_exit(Exit::Success, 0), Exit::Success);
    assert_eq!(import_exit(Exit::Success, 1), Exit::Partial);
    assert_eq!(import_exit(Exit::Io, 1), Exit::Io);
    assert!(!plan_is_unsafe(0, 0, true, 0, 0));
    assert!(plan_is_unsafe(1, 0, true, 0, 0));
    assert!(plan_is_unsafe(0, 0, false, 0, 0));
    assert_eq!(plan_exit(true), Exit::Partial);
    assert_eq!(plan_exit(false), Exit::Success);
    assert_eq!(empty_batch_exit(0, 0), Exit::Success);
    assert_eq!(empty_batch_exit(1, 0), Exit::Partial);
    assert_eq!(empty_batch_exit(1, 1), Exit::RedirectRefused);
    assert_eq!(batch_exit(false, false, 0, 0), Exit::Success);
    assert_eq!(batch_exit(false, false, 1, 0), Exit::Partial);
    assert_eq!(batch_exit(false, true, 1, 0), Exit::AccessDenied);
    assert_eq!(batch_exit(true, true, 0, 0), Exit::Partial);
}

#[test]
fn losses_are_refused_where_exactness_is_needed() {
    let outcome = |losses: &[&str]| ReadOutcome {
        file: make_file(vec![]),
        losses: losses.iter().map(|l| text(l)).collect(),
        conflicts: vec![],
    };
    assert!(require_lossless_input(outcome(&[]), "a.inf", "merge").is_ok());
    let e = require_lossless_input(outcome(&["x", "y"]), "a.inf", "merge").unwrap_err();
    assert_eq!(e.source, "a.inf");
    assert_eq!(
        e.message,
        "merge requires an exact registry-data model, but the input contains:\n  x\n  y"
    );
    assert_eq!(e.code, Exit::Parse);
}

#[test]
fn live_options_are_refused_for_files() {
    assert!(check_file_options("stats", false, ViewChoice::Native).is_ok());
    assert_eq!(
        check_file_options("stats", true, ViewChoice::Native)
            .unwrap_err()
            .message,
        "stats --root-as requires SOURCE to be a live registry key"
    );
    assert_eq!(
        check_file_options("stats", false, ViewChoice::Bits32)
            .unwrap_err()
            .message,
        "stats --view requires SOURCE to be a live registry key"
    );
    assert_eq!(view_of(ViewChoice::Bits32), RegistryView::Bits32);
    assert_eq!(cli_value_name("@"), ValueName::Default);
    assert_eq!(cli_value_name("a"), ValueName::Named(text("a")));
}

#[test]
fn what_became_of_a_view_is_told() {
    assert!(needs_rollback(&report(&["HKCU\\A"]), false));
    assert!(!needs_rollback(&report(&["HKCU\\A"]), true));
    assert!(!needs_rollback(&report(&[]), false));
    let lines = view_apply_text(
        &ViewApplyReport {
            label: text("32"),
            applied: Some(report(&["HKCU\\A"])),
            rollback: Some(report(&[])),
        },
        false,
    );
    assert_eq!(lines[0], "regx: view 32");
    assert_eq!(lines[2], "  failed HKCU\\A: denied");
    assert_eq!(lines[3], "regx: rollback:");
    assert_eq!(lines.len(), 5);
    let missed = view_apply_text(
        &ViewApplyReport {
            label: text("64"),
            applied: None,
            rollback: None,
        },
        false,
    );
    assert_eq!(missed[1], "regx: not attempted because an earlier view failed");
    let snapshot = Snapshot {
        file: make_file(vec![]),
        new_keys: vec![text("HKCU\\A")],
        restored_values: 3,
        unreadable: vec![],
    };
    assert_eq!(
        captured_text(&snapshot),
        "3 value(s) captured, 1 key(s) to remove on rollback"
    );
}

#[test]
fn a_value_of_a_hive_is_copied_once_it_is_found() {
    let copy = ValueCopy {
        source: RegPath::parse("HKCU\\A").unwrap(),
        source_name: ValueName::Named(text("a")),
        dest: RegPath::parse("HKCU\\B").unwrap(),
        dest_name: ValueName::Named(text("b")),
        remove_source: true,
        overwrite: false,
        remote: false,
    };
    let flags = || Flags {
        dry_run: false,
        yes: false,
        require_confirm: false,
        prune: false,
        no_backup: false,
    };
    let read = |name: &str| {
        Ok(Keys {
            blocks: vec![KeyBlock {
                path: RegPath::parse("HKCU\\A").unwrap(),
                delete: false,
                values: vec![ValueEntry {
                    name: ValueName::Named(text(name)),
                    data: RegData::Dword(7),
                    line: 0,
                }],
                line: 0,
            }],
            skipped: 0,
        })
    };
    let free = Policy::default();
    match start_hive_value_copy(&free, flags(), &copy, "B", read("A"), None).unwrap() {
        Started::Begin(g) => {
            assert_eq!(g.stage, Stage::Snapshot);
            assert_eq!(g.files[0].keys[0].values[0].data, RegData::Dword(7));
            assert_eq!(g.files[0].keys[1].values[0].data, RegData::Delete);
        }
        Started::Stop(e) => panic!("{e:?}"),
    }
    assert!(matches!(
        start_hive_value_copy(&free, flags(), &copy, "B", read("other"), None),
        Ok(Started::Stop(Exit::NotFound))
    ));
    let e = start_hive_value_copy(&free, flags(), &copy, "B", Err(text("no such key")), None)
        .unwrap_err();
    assert_eq!((e.code, e.message.as_str()), (Exit::Io, "no such key"));
}

fn asked() -> AuditRequest {
    AuditRequest {
        rotates: false,
        chains: false,
        writes: false,
        verifies: false,
        dry_run: false,
    }
}

#[test]
fn one_audit_request_is_served_at_a_time() {
    let all = AuditRequest {
        rotates: true,
        chains: true,
        writes: true,
        verifies: true,
        dry_run: false,
    };
    assert_eq!(serve_audit(all, None).unwrap(), AuditAction::Rotate);
    let rehearsed = AuditRequest {
        dry_run: true,
        ..all
    };
    assert_eq!(
        serve_audit(rehearsed, None).unwrap(),
        AuditAction::RehearseRotation
    );
    let kept = AuditRequest {
        rotates: false,
        ..all
    };
    assert_eq!(serve_audit(kept, None).unwrap(), AuditAction::CheckChain);
    let anchored = AuditRequest {
        writes: true,
        verifies: true,
        ..asked()
    };
    assert_eq!(
        serve_audit(anchored, Some(&[0; 32])).unwrap(),
        AuditAction::CheckForAnchor
    );
    assert_eq!(
        serve_audit(anchored, Some(&[0; 31])).unwrap_err().message,
        "audit anchor key must contain 32 to 65536 raw bytes"
    );
    let checked = AuditRequest {
        verifies: true,
        ..asked()
    };
    assert_eq!(serve_audit(checked, None).unwrap(), AuditAction::CheckWithAnchor);
    assert_eq!(serve_audit(asked(), None).unwrap(), AuditAction::CheckLog);
    let e = serve_audit(asked(), Some(&[0; 32])).unwrap_err();
    assert_eq!(e.code, Exit::Usage);
}

#[test]
fn broken_logs_are_neither_rotated_nor_anchored() {
    let sound = Verification {
        records: 2,
        sessions: 1,
        broken: vec![],
    };
    let empty = Verification {
        records: 0,
        sessions: 0,
        broken: vec![],
    };
    let broken = Verification {
        records: 2,
        sessions: 1,
        broken: vec![Break {
            place: 1,
            problem: text("hash"),
        }],
    };
    let anchor = AuditAction::CheckForAnchor;
    assert_eq!(next_audit_step(anchor, false, &sound), AuditStep::WriteAnchor);
    assert_eq!(
        next_audit_step(anchor, true, &sound),
        AuditStep::Report(Exit::Success)
    );
    for v in [&empty, &broken] {
        assert_eq!(
            next_audit_step(anchor, false, v),
            AuditStep::Refuse(Exit::Partial)
        );
    }
    assert_eq!(
        next_audit_step(AuditAction::RehearseRotation, true, &broken),
        AuditStep::Refuse(Exit::Partial)
    );
    assert_eq!(
        next_audit_step(AuditAction::CheckLog, false, &broken),
        AuditStep::Report(Exit::Partial)
    );
    assert_eq!(
        next_audit_step(AuditAction::CheckWithAnchor, false, &broken),
        AuditStep::CheckAnchor
    );
    assert_eq!(
        fail_anchor(AnchorFailure::Forged(text("bad")), "a.json").unwrap(),
        (
            Exit::Partial,
            text("regx: audit anchor authentication failed for a.json: bad")
        )
    );
    let e = fail_anchor(AnchorFailure::BadInput(text("no key")), "a.json").unwrap_err();
    assert_eq!((e.code, e.message.as_str()), (Exit::Usage, "no key"));
    let e = fail_anchor(AnchorFailure::Other(text("gone")), "a.json").unwrap_err();
    assert_eq!(e.code, Exit::Io);
    assert_eq!(e.message, "cannot verify audit anchor a.json: gone");
}

#[test]
fn shortcuts_are_written_after_question_and_log() {
    let mut run = LinkRun::begin(LinkChange::Create, false, false, false);
    assert_eq!(run.stage, LinkStage::Ask);
    run.record(LinkEvent::Written(Ok(())));
    assert_eq!(run.stage, LinkStage::Ask);
    run.record(LinkEvent::Answered(true));
    assert_eq!(run.stage, LinkStage::OpenLog);
    run.record(LinkEvent::Logged(Ok(())));
    assert_eq!(run.stage, LinkStage::Write);
    run.record(LinkEvent::Written(Ok(())));
    assert_eq!(run.stage, LinkStage::Report);
    run.record(LinkEvent::Told(Ok(())));
    assert!(matches!(run.end, Some(Ok(Exit::Success))));

    let mut run = LinkRun::begin(LinkChange::Delete, false, true, true);
    assert_eq!(run.stage, LinkStage::Ask);
    run.record(LinkEvent::Answered(false));
    let e = run.end.unwrap().unwrap_err();
    assert_eq!(e.code, Exit::AccessDenied);
    assert_eq!(e.message, "shortcut deletion was not confirmed");

    let mut run = LinkRun::begin(LinkChange::Manifest, true, false, true);
    assert_eq!(run.stage, LinkStage::OpenLog);
    run.record(LinkEvent::Logged(Ok(())));
    assert_eq!(run.stage, LinkStage::Rehearse);

    let mut run = LinkRun::begin(LinkChange::Manifest, false, true, false);
    run.record(LinkEvent::Logged(Err(text("no log"))));
    assert_eq!(run.stage, LinkStage::Done);
    assert_eq!(run.end.unwrap().unwrap_err().message, "no log");

    let rehearsed = link_record(&Some(text("a")), &Some(text("b")), true);
    assert_eq!(rehearsed.after, None);
    assert_eq!(rehearsed.detail, Some("dry-run"));
    let applied = link_record(&None, &Some(text("b")), false);
    assert_eq!(applied.after.as_deref(), Some("b"));
    assert!(!applied.simulated);
}

#[test]
fn undoing_a_change_of_a_hive_refuses_no_conflict() {
    let flags = || Flags {
        dry_run: false,
        yes: false,
        require_confirm: false,
        prune: false,
        no_backup: false,
    };
    let start = |kind| {
        start_hive_file(
            &Policy::default(),
            kind,
            flags(),
            "hive change",
            vec![KeyBlock {
                path: RegPath::parse("HKCU\\A").unwrap(),
                delete: false,
                values: vec![],
                line: 0,
            }],
            2,
            ConflictPolicy::Error,
        )
    };
    assert!(start(ChangeKind::HiveUndo).is_ok());
    assert!(start(ChangeKind::HiveImport).is_err());
}
