use regx::apply::ApplyReport;
use regx::audit::{
    check_anchor_key, check_anchor_request, AnchorCheck, Break, ChainReport, LogReport, Verification,
};
use regx::change_report::{
    Backup, BatchOperation, BatchReport, CopyReport, ImportReport, ViewApplied, ViewChange,
};
use regx::diff::{within, Change, Diff, KeyDiff};
use regx::exit::Exit;
use regx::find_report::{DiffCounts, DiffReport, Found, WatchEvent};
use regx::hive_report::{HiveChange, HiveFingerprint, HiveInfo, HiveList, HiveStats};
use regx::input::{
    backup_extension, check_stdout, check_validate, output_version, read_pol_root, DataFormat,
    ValidateRequest,
};
use regx::inspection::{
    count_refused, format_table, formats_json, hives_of, self_check_document, self_check_exit,
    Companion, Discovery, Inspection, Risk,
};
use regx::model::{
    Hive, KeyBlock, RegData, RegFile, RegFormat, RegPath, ValueEntry, ValueName, REG_BINARY,
};
use regx::mutation::make_file;
use regx::outcome::{
    diff_exit, export_exit, inspect_step, ls_exit, probe_exit, validate_step, wait_milliseconds,
    watch_step, Inspected, Validated, ViewTally,
};
use regx::planning::{plan_text_lines, PlanReport, PlanViews};
use regx::preparing::search_keys;
use regx::reading::{hive_stats, select_export, select_in_hive};
use regx::read_report::{FingerprintView, PermissionComparison, QueryView, StatsFile};
use regx::report::{
    link_info_json, permission_differences, type_counts, validation_json, PermissionView,
    PlanChange, PlanOp, ViewPlan,
};
use regx::saved_plan::Snapshot;
use regx::search::{Field, Filters, Matcher, Mode, ValueFilters};
use regx::select::{registry_stats, Scope};
use regx::selfcheck::{Finding, Verdict};
use regx::shortcut::{planned_link_info, CreateOptions, ShowStyle};
use regx::shortcut_changes::{
    add_action, apply_failure, link_info_text, manifest_result_json, manifest_result_text,
    requested_options, PreparedShortcutAction,
};
use regx::source::{
    check_expectations, check_hive_scope, expected_of, parse_root_as, read_source, search_query,
    Expectations, SourceKind,
};
use regx::text_report::{
    apply_text, pad, render_query_text, search_matches_text, self_check_text, stats_lines,
    unreadable_text,
};

fn json(text: &str) -> serde_json::Value {
    serde_json::from_str(text).unwrap_or_else(|e| panic!("{e}: {text}"))
}

fn path(s: &str) -> RegPath {
    RegPath::parse(s).unwrap()
}

fn sample() -> Vec<KeyBlock> {
    vec![KeyBlock {
        path: path("HKCU\\Software\\Tools"),
        delete: false,
        values: vec![
            ValueEntry {
                name: ValueName::Named("Server".to_string()),
                data: RegData::Sz("x".to_string()),
                line: 0,
            },
            ValueEntry {
                name: ValueName::Default,
                data: RegData::Hex {
                    ty: REG_BINARY,
                    bytes: vec![1, 2],
                },
                line: 0,
            },
        ],
        line: 0,
    }]
}

fn scope() -> Scope {
    Scope {
        include_keys: vec!["HKCU\\**".to_string()],
        exclude_keys: vec![],
        include_values: vec![],
        exclude_values: vec!["a\"b".to_string()],
    }
}

fn report() -> ApplyReport {
    ApplyReport {
        keys_created: 1,
        keys_deleted: 0,
        values_set: 2,
        values_deleted: 0,
        failures: vec![("k".to_string(), "why".to_string())],
    }
}

fn strings(items: &[&str]) -> Vec<String> {
    items.iter().map(|s| s.to_string()).collect()
}

#[test]
fn hive_reports_are_json() {
    let info = HiveInfo {
        file: "C:\\NTUSER.DAT".to_string(),
        size: 12,
        signature_valid: true,
        readable: false,
        writable: false,
        detail: "locked".to_string(),
        root_subkeys: strings(&["Software", "Console"]),
    };
    let v = json(&info.to_json());
    assert_eq!(v["file"], "C:\\NTUSER.DAT");
    assert_eq!(v["rootSubkeys"][1], "Console");
    assert_eq!(info.exit(), Exit::Io);
    let list = HiveList {
        subkey: "S".to_string(),
        recursive: true,
        include_keys: vec![],
        exclude_keys: vec![],
        limit: 10,
        truncated: false,
        keys: strings(&["S\\A"]),
        skipped: vec![("S\\B".to_string(), "denied".to_string())],
    };
    assert_eq!(json(&list.to_json())["skipped"][0]["problem"], "denied");
}

#[test]
fn statistics_count_types_and_bytes() {
    let keys = sample();
    let stats = registry_stats(&keys, Some(&path("HKCU\\Software")));
    let types = type_counts(&keys);
    assert_eq!(types.len(), 2);
    assert_eq!(types[0].name, "REG_BINARY");
    let lines = stats_lines(&stats, 0, false, &types);
    assert_eq!(lines[0], "keys          1");
    assert_eq!(lines[8], "type REG_BINARY           1");
    let doc = HiveStats {
        subkey: "Software".to_string(),
        root_as: None,
        stats,
        types,
        conflicts: 0,
        matched: true,
        scope: scope(),
        skipped: vec![],
    };
    let v = json(&doc.to_json());
    assert_eq!(v["values"], 2);
    assert_eq!(v["maxDepth"], 1);
    assert_eq!(v["payloadBytes"], 6);
    assert_eq!(v["types"]["REG_SZ"], 1);
    assert_eq!(v["excludeValues"][0], "a\"b");
    assert_eq!(doc.exit(), Exit::Success);
    let file = StatsFile {
        source: "a.reg".to_string(),
        format: "reg".to_string(),
        stats: registry_stats(&sample(), None),
        types: type_counts(&sample()),
        conflicts: 1,
        incomplete: true,
        matched: true,
        scope: scope(),
    };
    assert_eq!(json(&file.to_json())["maxDepth"], 2);
}

#[test]
fn a_fingerprint_meets_its_expectation_only_where_something_matched() {
    let doc = |matched, expected: Option<&str>| HiveFingerprint {
        subkey: "".to_string(),
        root_as: Some(path("HKLM\\X")),
        canonical_version: 1,
        sha256: "ab".to_string(),
        conflicts: 0,
        expected: expected.map(String::from),
        matched,
        keys: 1,
        values: 0,
        scope: scope(),
        skipped: vec![],
    };
    assert_eq!(json(&doc(true, Some("ab")).to_json())["matches"], true);
    assert_eq!(json(&doc(false, Some("ab")).to_json())["matches"], false);
    assert_eq!(json(&doc(true, None).to_json())["matches"], serde_json::Value::Null);
    assert_eq!(doc(true, Some("cd")).exit(), Exit::Partial);
    assert_eq!(doc(false, None).exit(), Exit::NotFound);
    let view = FingerprintView {
        view: "32".to_string(),
        sha256: "ab".to_string(),
        conflicts: 0,
        expected: None,
        matched: true,
        keys: 1,
        values: 1,
        skipped: vec![],
    };
    assert_eq!(json(&view.to_json())["incomplete"], false);
}

#[test]
fn change_reports_are_json() {
    let doc = HiveChange {
        undo: Some("C:\\u.reg".to_string()),
        written: Some((7, "ff".to_string())),
        applied: report(),
        rollback: Some(ApplyReport {
            failures: vec![],
            ..report()
        }),
    };
    let v = json(&doc.to_json());
    assert_eq!(v["undoBytes"], 7);
    assert_eq!(v["apply"]["failures"][0]["problem"], "why");
    assert_eq!(v["rolledBack"], true);
    assert_eq!(doc.exit(), Exit::AccessDenied);
    let import = ImportReport {
        atomic: true,
        views: vec![
            ViewChange {
                view: "32".to_string(),
                undo: None,
                written: None,
                applied: Some(report()),
                rollback: None,
            },
            ViewChange {
                view: "64".to_string(),
                undo: None,
                written: None,
                applied: None,
                rollback: None,
            },
        ],
    };
    let v = json(&import.to_json());
    assert_eq!(v["views"][1]["apply"], serde_json::Value::Null);
    assert_eq!(v["views"][0]["undoSha256"], serde_json::Value::Null);
    let batch = BatchReport {
        schema: "s".to_string(),
        manifest: "m.json".to_string(),
        dry_run: false,
        undo: vec![],
        operations: vec![BatchOperation {
            id: "one".to_string(),
            status: "applied".to_string(),
            views: vec![ViewApplied {
                view: "native".to_string(),
                applied: report(),
            }],
        }],
        rollback: vec![],
    };
    assert_eq!(json(&batch.to_json())["operations"][0]["views"][0]["apply"]["valuesSet"], 2);
    let copy = CopyReport {
        operation: "copy".to_string(),
        source: path("HKCU\\A"),
        destination: path("HKCU\\B"),
        overwrite: false,
        dry_run: false,
        backup: "b.reg".to_string(),
        written: None,
        copied: report(),
        removed: None,
        rollback: None,
    };
    assert_eq!(json(&copy.to_json())["destination"], "HKEY_CURRENT_USER\\B");
    let backup = |dry_run| Backup {
        source: path("HKCU\\A"),
        source_computer: None,
        file: "b.hiv".to_string(),
        dry_run,
        keys: 1,
        values: 2,
        written: None,
    };
    assert_eq!(json(&backup(false).to_json())["limitations"][0], "ACLs");
    assert!(json(&backup(true).to_json()).get("limitations").is_none());
}

#[test]
fn plans_are_shown_and_redacted() {
    let plan = || ViewPlan {
        label: "native".to_string(),
        denied: vec![("HKEY_CURRENT_USER\\A".to_string(), "HKCU\\A".to_string())],
        changes: vec![PlanChange {
            op: PlanOp::ValueSet,
            path: path("HKCU\\B"),
            name: Some(ValueName::Named("n".to_string())),
            before: None,
            after: Some(RegData::Dword(1)),
        }],
        failures: vec![],
        rollback: Snapshot {
            file: make_file(vec![]),
            new_keys: vec![],
            restored_values: 0,
            unreadable: vec![],
        },
        rollback_path: "u.reg".to_string(),
        desired: make_file(vec![]),
    };
    let lines = plan_text_lines(&plan().changes, &plan().denied, false);
    assert_eq!(
        lines,
        vec![
            "  SET        HKEY_CURRENT_USER\\B\\n  <absent> -> REG_DWORD 0x00000001 (1)",
            "  FAILED    HKEY_CURRENT_USER\\A: HKCU\\A",
            "  1 mutation(s); nothing written",
        ]
    );
    let doc = PlanReport {
        files: strings(&["a.reg", "b.reg"]),
        prune: false,
        redacted: true,
        saved: Some(("p.json".to_string(), 9, "ee".to_string())),
        skipped: 0,
        refused: 0,
        configured: true,
        decisions: strings(&["x"]),
        blocked: false,
        plan: ViewPlan {
            failures: vec![("HKEY_CURRENT_USER\\B".to_string(), "odd".to_string())],
            ..plan()
        },
    };
    let v = json(&doc.to_json());
    assert_eq!(v["savedPlanBytes"], 9);
    assert_eq!(v["blocked"], false);
    assert_eq!(v["failures"][0]["problem"], "odd");
    assert_eq!(v["changes"][0]["after"]["redacted"], true);
    assert_eq!(v["policy"]["denied"][0]["rule"], "HKCU\\A");
    let both = PlanViews {
        files: vec![],
        prune: true,
        redacted: false,
        saved: None,
        skipped: 1,
        refused: 2,
        configured: false,
        decisions: vec![],
        views: vec![plan(), plan()],
    };
    let v = json(&both.to_json());
    assert_eq!(v["views"][1]["changes"][0]["after"]["exact"]["typeId"], 4);
    assert_eq!(v["redirect"]["refused"], 2);
}

#[test]
fn queries_and_searches_are_shown() {
    let keys = sample();
    let lines = render_query_text(&keys, &None);
    assert_eq!(lines[0], "HKEY_CURRENT_USER\\Software\\Tools");
    assert_eq!(
        lines[1],
        format!("    {:<28} {:<14} {}", "Server", "REG_SZ", "x")
    );
    assert_eq!(pad("abc", 5), "abc  ");
    assert_eq!(pad("abcdef", 5), "abcdef");
    let view = QueryView {
        view: "64".to_string(),
        root: None,
        keys: sample(),
        incomplete: false,
    };
    assert_eq!(json(&view.to_json())["keys"][0]["values"][0]["name"], "Server");
    let q = search_query("s", Matcher::compile("s", Mode::Substring, false)).unwrap_or_else(|e| {
        panic!("{}", e.message)
    });
    let filters = Filters {
        include_queries: vec![],
        exclude_queries: vec![],
    };
    let values = ValueFilters {
        include_queries: vec![],
        exclude_queries: vec![],
    };
    let (found, more) = search_keys(&keys, &q, &[Field::Name, Field::Key], &filters, &values, 1);
    assert_eq!(found.len(), 1);
    assert!(more);
    let text = search_matches_text(&found);
    assert_eq!(text[0], "key  HKEY_CURRENT_USER\\Software\\Tools");
    let doc = Found {
        source: "a.reg".to_string(),
        remote_computer: None,
        query: "s".to_string(),
        mode: Mode::Glob,
        case_sensitive: false,
        scope: scope(),
        limit: 1,
        truncated: true,
        incomplete: false,
        matches: found,
    };
    let v = json(&doc.to_json());
    assert_eq!(v["mode"], "glob");
    assert_eq!(v["matches"][0]["field"], "key");
    let e = match search_query("(", Matcher::compile("(", Mode::Regex, false)) {
        Ok(_) => panic!("compiled"),
        Err(e) => e,
    };
    assert!(e.message.starts_with("invalid search pattern \"(\": "));
}

#[test]
fn differences_are_reported() {
    let difference = || Diff {
        keys: vec![
            KeyDiff {
                path: path("HKCU\\A"),
                change: Change::Added,
            },
            KeyDiff {
                path: path("HKCU\\B"),
                change: Change::Removed,
            },
        ],
        values: vec![],
    };
    let filters = Filters::compile_globs(&strings(&["HKCU\\A"]), &[], false)
        .unwrap_or_else(|e| panic!("{e}"));
    assert_eq!(within(&difference(), &filters).keys.len(), 1);
    let counts = DiffCounts {
        added: 1,
        modified: 0,
        removed: 1,
    };
    let doc = DiffReport {
        a: "a.reg".to_string(),
        computer_a: None,
        b: "HKCU\\X".to_string(),
        computer_b: Some("pc".to_string()),
        map_a: None,
        map_b: None,
        incomplete: false,
        summary_only: false,
        scope: scope(),
        counts,
        patch: None,
        patch_format: DataFormat::Reg,
        patch_written: false,
        dry_run: false,
        written: None,
        difference: difference(),
    };
    let v = json(&doc.to_json());
    assert_eq!(v["changes"][1]["change"], "removed");
    assert_eq!(v["computerB"], "pc");
    let event = WatchEvent {
        sequence: 3,
        path: path("HKCU\\X"),
        recursive: true,
        key_removed: false,
        incomplete: false,
        counts,
        changes: difference(),
    };
    assert_eq!(json(&event.to_json())["changes"][0]["kind"], "key");
    assert_eq!(diff_exit(false, true, true), Exit::Partial);
    assert_eq!(diff_exit(false, false, true), Exit::Success);
}

#[test]
fn permissions_are_compared_field_by_field() {
    let p = |delete| PermissionView {
        label: "native".to_string(),
        owner_sid: "S-1-5-18".to_string(),
        inheritance_enabled: true,
        sddl: "O:SY".to_string(),
        query: true,
        enumerate: true,
        notify: true,
        set_value: false,
        create_subkey: false,
        delete,
    };
    assert!(permission_differences(&p(true), &p(true)).is_empty());
    assert_eq!(permission_differences(&p(true), &p(false)), vec!["effective.delete"]);
    let doc = PermissionComparison {
        view: "native".to_string(),
        source: p(true),
        target: p(false),
    };
    let v = json(&doc.to_json());
    assert_eq!(v["equal"], false);
    assert_eq!(v["differences"][0], "effective.delete");
    assert_eq!(v["source"]["effective"]["delete"], true);
}

#[test]
fn audit_logs_are_judged() {
    assert!(check_anchor_request(true, false, false).is_err());
    assert!(check_anchor_request(true, true, false).is_ok());
    assert!(check_anchor_key(&[0; 31]).is_err());
    assert!(check_anchor_key(&[0; 32]).is_ok());
    assert!(check_anchor_key(&vec![0; 65_537]).is_err());
    let broken = || Verification {
        records: 3,
        sessions: 1,
        broken: vec![Break {
            place: 2,
            problem: "hash".to_string(),
        }],
    };
    assert!(!broken().may_rotate());
    assert!(!broken().may_anchor());
    let empty = Verification {
        records: 0,
        sessions: 0,
        broken: vec![],
    };
    assert!(empty.may_rotate());
    assert!(!empty.may_anchor());
    assert_eq!(broken().exit(), Exit::Partial);
    let chain = ChainReport {
        files: strings(&["a", "b"]),
        verification: broken(),
    };
    assert_eq!(json(&chain.to_json())["broken"][0]["segment"], 2);
    let log = LogReport {
        file: "a".to_string(),
        verification: broken(),
    };
    assert_eq!(json(&log.to_json())["broken"][0]["line"], 2);
    let check = AnchorCheck {
        file: "a".to_string(),
        anchor: "b".to_string(),
        records: 1,
        chain_intact: true,
        anchor_matches: false,
        expected_sha256: "x".to_string(),
        actual_sha256: "y".to_string(),
        expected_tail: "t".to_string(),
        actual_tail: "u".to_string(),
        signed: true,
    };
    assert_eq!(json(&check.to_json())["intact"], false);
    assert_eq!(check.exit(), Exit::Partial);
}

#[test]
fn files_are_inspected() {
    let mut keys = sample();
    keys.push(KeyBlock {
        path: path("HKLM\\SYSTEM\\X"),
        delete: true,
        values: vec![],
        line: 0,
    });
    assert_eq!(hives_of(&keys), vec!["HKEY_CURRENT_USER", "HKEY_LOCAL_MACHINE"]);
    assert_eq!(count_refused(&keys), 1);
    let doc = Inspection {
        label: "a.reg".to_string(),
        format: "reg".to_string(),
        dialect: Some(RegFormat::V5.header().to_string()),
        encoding: None,
        data: RegFile {
            format: RegFormat::V5,
            encoding: regx::encoding::SourceEncoding::Utf8,
            keys,
        },
        notes: vec![],
        losses: vec![],
        conflicts: vec![],
    };
    let v = json(&doc.to_json());
    assert_eq!(v["keyDeletes"], 1);
    assert_eq!(v["hives"][1], "HKEY_LOCAL_MACHINE");
    assert_eq!(v["data"]["keys"][0]["values"][1]["raw"], "01 02");
    let read = |inexact, refused| Inspected::Read { inexact, refused };
    assert_eq!(inspect_step(Exit::Success, read(false, 1), false), Exit::Partial);
    assert_eq!(inspect_step(Exit::Success, read(false, 1), true), Exit::Success);
    assert_eq!(inspect_step(Exit::Success, Inspected::Unreadable, true), Exit::Parse);
}

#[test]
fn formats_are_listed() {
    assert_eq!(format_table().len(), 9);
    let v = json(&formats_json());
    assert_eq!(v[0]["format"], "reg");
    assert_eq!(v[8]["typical"], "NTUSER.DAT");
}

#[test]
fn discoveries_count_risks() {
    let doc = |strict| Discovery {
        executable: None,
        anchor: "C:\\app".to_string(),
        stem: "app".to_string(),
        policy: false,
        registry_pointer: false,
        strict,
        notes: vec![],
        searched: vec![],
        risky: 1,
        found: vec![Companion {
            path: "C:\\app.reg".to_string(),
            resolved_path: "C:\\app.reg".to_string(),
            origin: "beside".to_string(),
            rank: 1,
            format: Some("reg".to_string()),
            size: 10,
            risks: vec![Risk {
                kind: "Writable".to_string(),
                explanation: "anyone can write it".to_string(),
            }],
        }],
    };
    let v = json(&doc(true).to_json());
    assert_eq!(v["found"][0]["riskDetails"][0]["kind"], "Writable");
    assert_eq!(doc(true).exit(), Exit::Partial);
    assert_eq!(doc(false).exit(), Exit::Success);
}

#[test]
fn a_self_check_is_told_in_both_ways() {
    let findings = vec![
        Finding {
            area: "process",
            verdict: Verdict::Fine,
            detail: "64-bit".to_string(),
        },
        Finding {
            area: "hkcu",
            verdict: Verdict::Warn,
            detail: "denied".to_string(),
        },
    ];
    let policy = strings(&["none"]);
    let v = json(&self_check_document(&findings, &policy));
    assert_eq!(v["findings"][1]["verdict"], "warn");
    assert_eq!(v["policy"][0], "none");
    assert_eq!(self_check_exit(&findings), Exit::Partial);
    let lines = self_check_text(&findings, &policy);
    assert_eq!(lines[1], "  [pol ] administration   none");
    assert_eq!(lines[3], "  [WARN] hkcu             denied");
}

#[test]
fn applied_changes_are_told() {
    let lines = apply_text(&report(), true);
    assert_eq!(
        lines[0],
        "regx: would create 1 key(s), would delete 0 key(s), would set 2 value(s), would delete 0 value(s)"
    );
    assert_eq!(lines[1], "  failed k: why");
    let many: Vec<(String, String)> = (0..9).map(|i| (format!("k{i}"), "no".to_string())).collect();
    assert_eq!(unreadable_text("32", &many).len(), 6);
}

#[test]
fn requests_are_checked() {
    assert!(output_version(true, DataFormat::Json).is_err());
    assert_eq!(output_version(true, DataFormat::Reg).unwrap(), RegFormat::V4);
    assert!(check_stdout(true, false, DataFormat::Csv, "no").is_err());
    assert!(check_stdout(true, true, DataFormat::Csv, "no").is_ok());
    assert_eq!(read_pol_root("hklm").unwrap(), Hive::Hklm);
    assert!(read_pol_root("x").is_err());
    let q = ValidateRequest {
        files: 2,
        stream: false,
        fix: true,
        has_out: false,
        backup: false,
    };
    assert!(check_validate(q).is_err());
    assert!(check_validate(ValidateRequest { files: 1, ..q }).is_ok());
    assert_eq!(backup_extension(Some("reg")), "reg.bak");
    assert_eq!(backup_extension(None), ".bak");
    assert_eq!(wait_milliseconds(0), u32::MAX);
    assert_eq!(wait_milliseconds(2), 2_000);
    assert_eq!(watch_step(false, false), None);
}

#[test]
fn sources_are_keys_or_inputs() {
    assert!(matches!(
        read_source("HKCU\\A", None, true),
        Ok(SourceKind::Live(_))
    ));
    assert!(matches!(read_source("a.reg", None, true), Ok(SourceKind::Input)));
    assert_eq!(read_source("a.reg", Some("pc"), true).unwrap_err().code, Exit::Usage);
    assert_eq!(read_source("a.reg", None, false).unwrap_err().code, Exit::Io);
    assert!(parse_root_as(Some("nowhere")).is_err());
    assert!(parse_root_as(None).unwrap().is_none());
    let keys = sample();
    assert!(check_hive_scope(&keys, &path("HKCU\\Software")).is_ok());
    assert!(check_hive_scope(&keys, &path("HKCU\\Console")).is_err());
}

#[test]
fn expectations_fit_their_views() {
    let e = |any: Option<&str>, a: Option<&str>, b: Option<&str>| Expectations {
        any: any.map(String::from),
        bits32: a.map(String::from),
        bits64: b.map(String::from),
    };
    assert!(check_expectations(&e(Some("x"), None, None), true, true).is_err());
    assert!(check_expectations(&e(None, Some("x"), None), true, true).is_err());
    assert!(check_expectations(&e(None, Some("x"), Some("y")), true, true).is_ok());
    assert!(check_expectations(&e(None, Some("x"), None), true, false).is_err());
    assert!(check_expectations(&e(None, Some("x"), None), false, false).is_err());
    assert!(check_expectations(&e(Some("x"), None, None), false, false).is_ok());
    assert_eq!(
        expected_of(&e(None, Some("x"), Some("y")), true, true).as_deref(),
        Some("y")
    );
}

#[test]
fn runs_end_as_documented() {
    let t = ViewTally {
        views: 0,
        first_failure: None,
        incomplete: false,
    };
    assert_eq!(ls_exit(&t), Exit::NotFound);
    assert_eq!(probe_exit(1, 2), Exit::Partial);
    assert_eq!(export_exit(true, 0, 0), Exit::NotFound);
    assert_eq!(export_exit(true, 0, 1), Exit::Partial);
    let v = Validated {
        has_errors: false,
        diagnostics: 1,
        strict: true,
        fix: false,
        repairs: 0,
        unfixable: 0,
        dry_run: false,
    };
    assert_eq!(validate_step(Exit::Success, &v), Exit::Parse);
    let outcome = regx::parser::parse_str(
        "REGEDIT4\r\n[HKEY_CURRENT_USER\\A]\r\n",
        regx::encoding::SourceEncoding::Ansi,
    );
    let doc = validation_json(
        "a.reg",
        &outcome,
        false,
        false,
        &vec![],
        &vec![],
        None,
        &None,
        &None,
    );
    assert_eq!(json(&doc)["valid"], true);
}

#[test]
fn shortcuts_are_changed_once_each() {
    let mut actions = vec![];
    add_action(&mut actions, PreparedShortcutAction::Delete("C:\\A.lnk".to_string())).unwrap();
    let e = add_action(&mut actions, PreparedShortcutAction::Delete("c:\\a.LNK".to_string()))
        .unwrap_err();
    assert!(e.message.contains("more than once"));
    assert_eq!(actions.len(), 1);
    let v = json(&manifest_result_json(&actions, true, false));
    assert_eq!(v["actions"][0]["operation"], "delete");
    assert_eq!(
        manifest_result_text(&actions, false, true),
        vec![
            "Applied 1 shortcut action(s) (failed and rolled back)",
            "  delete C:\\A.lnk"
        ]
    );
    let e = apply_failure(0, "x", &vec![]);
    assert_eq!(
        e.message,
        "shortcut action 1 failed: x; all earlier shortcut actions were rolled back"
    );
    let e = apply_failure(1, "x", &strings(&["a", "b"]));
    assert!(e.message.ends_with("rollback failures: a; b"));
    let o: CreateOptions = requested_options(
        "C:\\t.exe".to_string(),
        "C:\\o.lnk".to_string(),
        None,
        None,
        None,
        Some("C:\\i.dll,4"),
        ShowStyle::Normal,
    )
    .unwrap();
    assert_eq!(o.icon_index, 4);
    let info = planned_link_info(&o);
    assert_eq!(
        link_info_text("create", &info, true),
        "Would create -> C:\\o.lnk (target: C:\\t.exe)"
    );
    assert_eq!(link_info_text("delete", &info, false), "Shortcut delete -> C:\\o.lnk");
    let v = json(&link_info_json("create", &info, false, true, &Some("ff".to_string())));
    assert_eq!(v["iconIndex"], 4);
    assert_eq!(v["style"], "normal");
}

#[test]
fn exports_are_selected_and_rooted() {
    let none = || Scope {
        include_keys: vec![],
        exclude_keys: vec![],
        include_values: vec![],
        exclude_values: vec![],
    };
    let from = path("HKCU\\Software");
    let root = Some(path("HKLM\\Copy"));
    let x = select_export(sample(), &from, &root, &none(), RegFormat::V5, 0).unwrap();
    assert_eq!(x.file.keys[0].path.to_string(), "HKEY_LOCAL_MACHINE\\Copy\\Tools");
    assert_eq!(x.exit, Exit::Success);
    let nothing = Scope {
        include_values: strings(&["absent"]),
        ..none()
    };
    let x = select_export(sample(), &from, &None, &nothing, RegFormat::V4, 0).unwrap();
    assert!(x.file.keys.is_empty());
    assert_eq!(x.exit, Exit::NotFound);
    assert!(select_export(sample(), &path("HKCU\\Other"), &root, &none(), RegFormat::V5, 0).is_err());
    let inner = Scope {
        include_keys: strings(&["Software\\*"]),
        ..none()
    };
    let s = select_in_hive(sample(), &None, &inner).unwrap();
    assert!(s.matched);
    assert_eq!(s.value_count, 2);
    assert_eq!(hive_stats(&s.keys, "Software", &None).max_depth, 1);
}
