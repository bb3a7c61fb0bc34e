use regx::args::check_remote;
use regx::command::{
    after_operation, check_hive_allowed, json_output_conflict, op_needs_write, route,
    script_needs_write, CommandKind, HiveOpKind, Route, ScriptOutcome,
};
use regx::copy_plan::{
    bind_copy_plan, check_copy_plan_state, check_paired, check_plan_paths, check_plan_view, copy_plan_delete_is_bound,
    CopyPlan, PlanRefusal,
};
use regx::exit::Exit;
use regx::model::{Hive, KeyBlock, RegData, RegPath, ValueEntry, ValueName};
use regx::mutation::{copy_subtree, make_file};
use regx::policy::Policy;
use regx::saved_plan::{file_digest, snapshot_digest, RegistryView, Snapshot};
use regx::selfcheck::{run, Facts, Verdict};

fn path(s: &str) -> RegPath {
    RegPath::parse(s).unwrap()
}

fn keys(data: &str) -> Vec<KeyBlock> {
    vec![KeyBlock {
        path: path("HKCU\\A"),
        delete: false,
        values: vec![ValueEntry {
            name: ValueName::Named("n".to_string()),
            data: RegData::Sz(data.to_string()),
            line: 0,
        }],
        line: 0,
    }]
}

fn snapshot() -> Snapshot {
    Snapshot {
        file: make_file(vec![]),
        new_keys: vec![],
        restored_values: 0,
        unreadable: vec![],
    }
}

fn plan(remove: bool) -> CopyPlan {
    let files = copy_subtree(keys("v"), &path("HKCU\\A"), &path("HKCU\\B"), remove).unwrap();
    CopyPlan {
        operation: if remove { "move" } else { "copy" }.to_string(),
        view: RegistryView::Native,
        source_computer: None,
        source: path("HKCU\\A"),
        destination: path("HKCU\\B"),
        source_value: None,
        destination_value: None,
        overwrite: false,
        source_digest: file_digest(&files.source),
        current_digest: snapshot_digest(&snapshot()),
        copy_file: files.copy,
        delete_file: files.delete,
    }
}

#[test]
fn no_copy_plan_is_written_over_a_file() {
    let paths = vec!["a.json".to_string(), "b.json".to_string()];
    assert!(check_plan_paths(&paths, &vec![false, false]).is_ok());
    let e = check_plan_paths(&paths, &vec![false, true]).unwrap_err();
    assert_eq!(e.code, Exit::Io);
    assert_eq!(
        e.message,
        "b.json already exists; refusing to overwrite a copy/move plan"
    );
    assert!(check_plan_paths(&paths, &vec![true, true])
        .unwrap_err()
        .message
        .starts_with("a.json"));
}

#[test]
fn a_copy_plan_is_applied_to_its_own_view() {
    let mut p = plan(false);
    p.view = RegistryView::Bits32;
    assert!(check_plan_view(&p, RegistryView::Bits32, "a.json").is_ok());
    assert_eq!(
        check_plan_view(&p, RegistryView::Bits64, "a.json").unwrap_err().message,
        "a.json contains view Bits32, expected Bits64"
    );
}

#[test]
fn a_copy_plan_is_bound_to_what_it_was_made_of() {
    let free = Policy::default();
    for remove in [false, true] {
        let p = plan(remove);
        assert!(copy_plan_delete_is_bound(&p));
        let combined = bind_copy_plan(&keys("v"), 0, &p, &free, "plan").unwrap();
        assert_eq!(combined.keys.len(), if remove { 2 } else { 1 });
    }
    assert!(bind_copy_plan(&keys("changed"), 0, &plan(false), &free, "plan").is_err());
    assert!(bind_copy_plan(&keys("v"), 1, &plan(false), &free, "plan").is_err());
    let mut tampered = plan(false);
    tampered.copy_file.keys[0].values[0].data = RegData::Dword(1);
    assert!(bind_copy_plan(&keys("v"), 0, &tampered, &free, "plan").is_err());
    let mut greedy = plan(false);
    greedy.delete_file = plan(true).delete_file;
    assert!(!copy_plan_delete_is_bound(&greedy));
    let strict = Policy {
        deny_keys: vec!["HKCU\\B".to_string()],
        configured: true,
        ..Policy::default()
    };
    match bind_copy_plan(&keys("v"), 0, &plan(false), &strict, "plan") {
        Err(PlanRefusal::Fail(e)) => assert_eq!(e.code, Exit::AccessDenied),
        other => panic!("{other:?}"),
    }
}

#[test]
fn a_copy_plan_is_bound_to_the_state_of_its_destination() {
    assert!(check_copy_plan_state(&snapshot(), &plan(false), "plan").is_ok());
    let other = Snapshot {
        file: make_file(keys("v")),
        ..snapshot()
    };
    assert!(check_copy_plan_state(&other, &plan(false), "plan").is_err());
    let holes = Snapshot {
        unreadable: vec![("k".to_string(), "denied".to_string())],
        ..snapshot()
    };
    assert!(check_copy_plan_state(&holes, &plan(false), "plan").is_err());
    assert!(check_paired(&plan(true), &plan(true)).is_ok());
    assert!(check_paired(&plan(true), &plan(false)).is_err());
}

#[test]
fn only_windows_computers_and_their_shared_hives_are_read() {
    assert!(check_remote("\\\\server", Hive::Hklm).is_ok());
    assert!(check_remote("server", Hive::Hku).is_ok());
    assert!(check_remote("server", Hive::Hkcu).is_err());
    for name in ["", "  ", "a b", "a\\b", "a/b", "a\u{7}b", "a\u{a0}b"] {
        assert_eq!(check_remote(name, Hive::Hklm).unwrap_err().code, Exit::Usage);
    }
}

#[test]
fn json_output_is_one_document() {
    assert!(json_output_conflict(CommandKind::Completions).is_some());
    assert!(json_output_conflict(CommandKind::Query).is_none());
    assert!(matches!(
        route(true, true, Some(CommandKind::Query)),
        Route::Refuse(_)
    ));
    assert!(matches!(
        route(true, false, Some(CommandKind::Completions)),
        Route::Refuse(_)
    ));
    assert!(matches!(
        route(false, false, Some(CommandKind::Completions)),
        Route::Completions
    ));
    assert!(matches!(
        route(false, true, None),
        Route::Run {
            self_check: true,
            command: None
        }
    ));
}

#[test]
fn hives_are_opened_for_writing_where_needed() {
    assert!(op_needs_write(HiveOpKind::Sync));
    assert!(!op_needs_write(HiveOpKind::Search));
    assert!(!script_needs_write(&vec![
        Some(HiveOpKind::Ls),
        Some(HiveOpKind::Export)
    ]));
    assert!(script_needs_write(&vec![Some(HiveOpKind::Ls), None]));
    assert!(check_hive_allowed(CommandKind::HiveOperation, true).is_err());
    assert!(check_hive_allowed(CommandKind::HiveOperation, false).is_ok());
}

#[test]
fn scripts_remember_their_last_failure() {
    let ended = ScriptOutcome::Ended;
    assert_eq!(
        after_operation(Exit::Partial, ended(Exit::Success), false),
        (Exit::Partial, true)
    );
    assert_eq!(
        after_operation(Exit::Success, ended(Exit::NotFound), false),
        (Exit::NotFound, false)
    );
    assert_eq!(
        after_operation(Exit::Success, ScriptOutcome::Unreadable, true),
        (Exit::Usage, true)
    );
    assert_eq!(
        after_operation(Exit::Success, ScriptOutcome::Failed, true),
        (Exit::Io, true)
    );
}

#[test]
fn executables_in_denied_places_are_found_in_any_case() {
    let facts = |exe: &str| Facts {
        wide_process: true,
        elevated: Some(true),
        integrity: None,
        view_64: true,
        view_32: false,
        executable: Some(exe.to_string()),
        zone_stream: Some("[ZoneTransfer]\nZoneId=3\n".to_string()),
        exe_mode: Some(1),
        dll_mode: None,
        msi_mode: Some(0),
        script_mode: None,
        appx_mode: None,
        service_start: Some(2),
        restriction_level: Some(0x1000),
        virtualization: Some(1),
        hypervisor: Some(1),
        active_policies: 2,
        hkcu_error: None,
    };
    let found = run(&facts("C:\\Users\\me\\DOWNLOADS\\regx.exe"));
    let verdict = |area: &str| found.iter().find(|f| f.area == area).unwrap();
    assert_eq!(verdict("image path").verdict, Verdict::Warn);
    assert!(verdict("image path").detail.contains("\\downloads\\"));
    assert_eq!(verdict("mark-of-the-web").verdict, Verdict::Warn);
    assert_eq!(verdict("applocker").verdict, Verdict::Warn);
    assert!(verdict("applocker").detail.contains("Exe=enforce, Msi=audit"));
    assert_eq!(verdict("elevation").verdict, Verdict::Warn);
    assert_eq!(verdict("srp").verdict, Verdict::Warn);
    assert!(verdict("wdac").detail.contains("VBS=Some(1)"));
    let found = run(&facts("C:\\Program Files\\regx.exe"));
    let image = found.iter().find(|f| f.area == "image path").unwrap();
    assert_eq!(image.verdict, Verdict::Fine);
}
