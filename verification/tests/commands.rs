use regx::args::{
    audit_logs, audit_redacts, confirmation, confirms, ensure_single_stdin, input_label,
    normalize_lnk_output_args, read_bounded, read_langid, resolve_shell_cli_args, script_lines,
    split_argv, stream_blocks, Argument, Confirmation,
};
use regx::diff::{
    diff_changes_json, filtered_diff, watch_changes_json, Change, Diff, KeyDiff, ValueDiff,
};
use regx::encoding::SourceEncoding;
use regx::exit::Exit;
use regx::model::{
    KeyBlock, RegData, RegFile, RegFormat, RegPath, ValueEntry, ValueName, REG_BINARY,
};
use regx::paths::{
    apply_diff_mapping, hive_path, joined_reg_path, path_is_within, rebase_subtree, strip_hive_root,
};
use regx::reconcile::{add_prune_deletes, add_prune_key_deletes, undeclared_subtree_roots, LiveKey};
use regx::report::{json_of, plan_data_json, plan_data_text, plan_digest};
use regx::search::{Filters, ValueFilters};
use regx::select::{
    filter_key_paths, filter_value_names, fingerprint_selection, normalize_expected_sha256,
    select_compiled, Scope,
};
use regx::shell::Folders;
use regx::saved_plan::{RegistryView, Snapshot};
use regx::views::{
    direct_mutation_undo_paths, hive_undo_path, incomplete_views, selected_views, undo_bundle_base,
    view_undo_path, UndoPlace, ViewChoice,
};
use std::path::{Path, PathBuf};

fn undo_base(path: &str) -> PathBuf {
    let path = Path::new(path);
    match undo_bundle_base(
        path.file_name().and_then(|s| s.to_str()),
        path.file_stem().and_then(|s| s.to_str()),
        path.extension().and_then(|s| s.to_str()),
    ) {
        Some(name) => path.with_file_name(name),
        None => path.to_path_buf(),
    }
}

fn key(path: &str, values: Vec<ValueEntry>) -> KeyBlock {
    KeyBlock {
        path: RegPath::parse(path).unwrap(),
        delete: false,
        values,
        line: 0,
    }
}

fn text(name: &str, data: &str) -> ValueEntry {
    ValueEntry {
        name: ValueName::Named(name.to_string()),
        data: RegData::Sz(data.to_string()),
        line: 0,
    }
}

#[test]
fn bundle_base_accepts_base_or_either_view_member() {
    assert_eq!(
        undo_base(r"C:\snapshots\change.reg"),
        Path::new(r"C:\snapshots\change.reg")
    );
    assert_eq!(
        undo_base(r"C:\snapshots\change.32.reg"),
        Path::new(r"C:\snapshots\change.reg")
    );
    assert_eq!(
        undo_base(r"C:\snapshots\change.64.reg"),
        Path::new(r"C:\snapshots\change.reg")
    );
    assert_eq!(
        undo_base(r"C:\snapshots\change.32"),
        Path::new(r"C:\snapshots\change")
    );
}

#[test]
fn a_member_of_a_bundle_is_named_by_its_view() {
    assert_eq!(
        view_undo_path(Some("change"), Some("reg"), "32", true).as_deref(),
        Some("change.32.reg")
    );
    assert_eq!(view_undo_path(Some("change"), Some("reg"), "32", false), None);
    assert_eq!(
        view_undo_path(Some("change"), None, "64", true).as_deref(),
        Some("change.64")
    );
    assert_eq!(selected_views(ViewChoice::Both).len(), 2);
}

#[test]
fn lnk_create_output_path_and_global_json_remain_unambiguous() {
    let args: Vec<String> = [
        "regx",
        "lnk",
        "create",
        "--output",
        r"shell:Startup\App.lnk",
        "--output",
        "json",
    ]
    .into_iter()
    .map(String::from)
    .collect();
    let normalized = normalize_lnk_output_args(&args)
        .into_iter()
        .map(|value| match value {
            Argument::Given(i) => args[i].clone(),
            Argument::Text(text) => text,
        })
        .collect::<Vec<_>>();
    assert_eq!(normalized[3], "--shortcut-output");
    assert_eq!(normalized[5], "--output");
}

#[test]
fn shell_tokens_are_resolved_in_any_unicode_cli_argument() {
    let args: Vec<Option<String>> = ["regx", "lnk", "create", r"shell:Desktop\App.lnk"]
        .into_iter()
        .map(|s| Some(s.to_string()))
        .collect();
    let folders = Folders {
        startup: Err("none".to_string()),
        desktop: Ok("/home/me/Desktop".to_string()),
        programs: Err("none".to_string()),
    };
    let resolved = resolve_shell_cli_args(&args, &folders).unwrap();
    let path = match &resolved[3] {
        Argument::Given(i) => args[*i].clone().unwrap(),
        Argument::Text(text) => text.clone(),
    };
    assert!(!path.to_ascii_lowercase().contains("shell:desktop"));
    assert!(Path::new(&path).is_absolute(), "{path}");
}

#[test]
fn stream_reader_enforces_the_registry_input_limit() {
    let error = read_bounded(vec![0_u8; 5], 4, "<test-stream>").unwrap_err();
    assert!(error.message.contains("4-byte size limit"), "{}", error.message);
    assert_eq!(read_bounded(vec![7_u8; 4], 4, "x").unwrap(), vec![7_u8; 4]);
}

#[test]
fn value_selection_never_leaks_whole_key_operations() {
    let path = RegPath::parse("HKCU\\Software\\Selection").unwrap();
    let mut file = RegFile {
        format: RegFormat::V5,
        encoding: SourceEncoding::Utf16Le,
        keys: vec![
            KeyBlock {
                path: path.clone(),
                delete: false,
                values: vec![
                    ValueEntry {
                        name: ValueName::Default,
                        data: RegData::Sz("default".into()),
                        line: 1,
                    },
                    ValueEntry {
                        name: ValueName::Named("Keep".into()),
                        data: RegData::Sz("yes".into()),
                        line: 2,
                    },
                    ValueEntry {
                        name: ValueName::Named("KeepSecret".into()),
                        data: RegData::Sz("no".into()),
                        line: 3,
                    },
                ],
                line: 1,
            },
            KeyBlock {
                path: RegPath::parse("HKCU\\Software\\Selection\\Delete").unwrap(),
                delete: true,
                values: vec![],
                line: 4,
            },
            KeyBlock {
                path: RegPath::parse("HKCU\\Software\\Selection\\Empty").unwrap(),
                delete: false,
                values: vec![],
                line: 5,
            },
        ],
    };
    let report = filter_value_names(
        &mut file,
        &["@".to_string(), "keep*".to_string()],
        &["*secret".to_string()],
    )
    .unwrap()
    .unwrap();
    assert_eq!(report.selected, 2);
    assert_eq!(report.omitted, 1);
    assert_eq!(report.key_operations_omitted, 2);
    assert_eq!(file.keys.len(), 1);
    assert_eq!(file.keys[0].values.len(), 2);
    assert!(!file.keys.iter().any(|key| key.delete));
}

#[test]
fn plan_json_preserves_exact_data_without_weakening_redaction() {
    let name = ValueName::Named("Raw".into());
    let data = RegData::Hex {
        ty: REG_BINARY,
        bytes: vec![0x00, 0xff, 0x7a],
    };
    let (name, data) = (Some(name), Some(data));
    let clear: serde_json::Value =
        serde_json::from_str(&plan_data_json(&name, &data, false)).unwrap();
    assert_eq!(clear["type"], "REG_BINARY");
    assert_eq!(clear["exact"]["name"], "Raw");
    assert_eq!(clear["exact"]["typeId"], REG_BINARY);
    assert_eq!(clear["exact"]["raw"], "00 ff 7a");

    let redacted: serde_json::Value =
        serde_json::from_str(&plan_data_json(&name, &data, true)).unwrap();
    assert_eq!(redacted["redacted"], true);
    assert_eq!(redacted["sha256"].as_str().unwrap().len(), 64);
    assert!(redacted.get("exact").is_none());
    assert!(redacted.get("data").is_none());
}

#[test]
fn copy_rebases_every_child_and_preserves_data() {
    let source = RegPath::parse("HKCU\\Software\\Source").unwrap();
    let dest = RegPath::parse("HKLM\\Software\\Dest").unwrap();
    let keys = vec![
        KeyBlock {
            path: source.clone(),
            delete: false,
            values: vec![ValueEntry {
                name: ValueName::Named("Name".into()),
                data: RegData::Sz("value".into()),
                line: 1,
            }],
            line: 1,
        },
        KeyBlock {
            path: RegPath::parse("HKCU\\Software\\Source\\Child").unwrap(),
            delete: false,
            values: Vec::new(),
            line: 2,
        },
    ];
    let rebased = rebase_subtree(&keys, &source, &dest).unwrap();
    assert_eq!(
        rebased[0].path,
        RegPath::parse("HKLM\\Software\\Dest").unwrap()
    );
    assert_eq!(
        rebased[1].path,
        RegPath::parse("HKLM\\Software\\Dest\\Child").unwrap()
    );
    assert_eq!(rebased[0].values[0].data, keys[0].values[0].data);

    let wrong_hive = vec![KeyBlock {
        path: RegPath::parse("HKLM\\Software\\Source").unwrap(),
        delete: false,
        values: Vec::new(),
        line: 0,
    }];
    assert!(rebase_subtree(
        &wrong_hive,
        &RegPath::parse("HKCU").unwrap(),
        &RegPath::parse("HKCU\\Offline").unwrap()
    )
    .unwrap_err()
    .to_string()
    .contains("hives differ"));
}

#[test]
fn copy_path_guard_uses_components_and_hives() {
    let source = RegPath::parse("HKCU\\Software\\Source").unwrap();
    assert!(path_is_within(
        &RegPath::parse("HKCU\\Software\\Source\\Child").unwrap(),
        &source
    ));
    assert!(!path_is_within(
        &RegPath::parse("HKCU\\Software\\SourceOther").unwrap(),
        &source
    ));
    assert!(!path_is_within(
        &RegPath::parse("HKLM\\Software\\Source\\Child").unwrap(),
        &source
    ));
    assert!(path_is_within(
        &RegPath::parse("HKCU\\Software").unwrap(),
        &RegPath::parse("HKCU").unwrap()
    ));
}

#[test]
fn key_reconciliation_deletes_only_topmost_unrepresented_branches() {
    let paths = |items: &[&str]| {
        items
            .iter()
            .map(|path| RegPath::parse(path).unwrap())
            .collect::<Vec<_>>()
    };
    let declared = paths(&[
        "HKCU\\Software\\Desired",
        "HKCU\\Software\\Desired\\Keep\\Leaf",
    ]);
    let live = paths(&[
        "HKCU\\Software\\Desired",
        "HKCU\\Software\\Desired\\Keep",
        "HKCU\\Software\\Desired\\Keep\\Leaf",
        "HKCU\\Software\\Desired\\Drop",
        "HKCU\\Software\\Desired\\Drop\\Nested",
    ]);
    assert_eq!(
        undeclared_subtree_roots(&declared, &live),
        paths(&["HKCU\\Software\\Desired\\Drop"])
    );
}

#[test]
fn declared_child_is_itself_reconciled_when_listed() {
    let declared = [
        RegPath::parse("HKCU\\Software\\Desired").unwrap(),
        RegPath::parse("HKCU\\Software\\Desired\\Keep").unwrap(),
    ];
    let live = [
        RegPath::parse("HKCU\\Software\\Desired\\Keep").unwrap(),
        RegPath::parse("HKCU\\Software\\Desired\\Keep\\Extra").unwrap(),
    ];
    assert_eq!(
        undeclared_subtree_roots(&declared, &live),
        vec![RegPath::parse("HKCU\\Software\\Desired\\Keep\\Extra").unwrap()]
    );
}

#[test]
fn watch_json_preserves_exact_value_state_on_both_sides() {
    let changes = Diff {
        keys: Vec::new(),
        values: vec![ValueDiff {
            path: RegPath::parse("HKCU\\Software\\Watch").unwrap(),
            name: ValueName::Named("Raw".into()),
            change: Change::Modified,
            left: Some(RegData::Hex {
                ty: 0x1234,
                bytes: vec![0x00, 0xff],
            }),
            right: Some(RegData::Hex {
                ty: 0x1234,
                bytes: vec![0x01, 0xff],
            }),
        }],
    };
    let json: serde_json::Value = serde_json::from_str(&watch_changes_json(&changes)).unwrap();
    assert_eq!(json[0]["leftExact"]["typeId"], 0x1234);
    assert_eq!(json[0]["leftExact"]["raw"], "00 ff");
    assert_eq!(json[0]["rightExact"]["typeId"], 0x1234);
    assert_eq!(json[0]["rightExact"]["raw"], "01 ff");
}

#[test]
fn differences_are_listed_keys_first() {
    let difference = Diff {
        keys: vec![KeyDiff {
            path: RegPath::parse("HKCU\\A").unwrap(),
            change: Change::Added,
        }],
        values: vec![ValueDiff {
            path: RegPath::parse("HKCU\\A").unwrap(),
            name: ValueName::Default,
            change: Change::Removed,
            left: Some(RegData::Dword(1)),
            right: None,
        }],
    };
    let changes = diff_changes_json(&difference, false);
    assert_eq!(
        changes[0],
        "{\"kind\":\"key\",\"change\":\"added\",\"path\":\"HKEY_CURRENT_USER\\\\A\"}"
    );
    let value: serde_json::Value = serde_json::from_str(&changes[1]).unwrap();
    assert_eq!(value["change"], "removed");
    assert_eq!(value["right"], serde_json::Value::Null);
    assert!(diff_changes_json(&difference, true).is_empty());
}

#[test]
fn filtered_differences_are_of_values_alone() {
    let value = |name: &str| ValueDiff {
        path: RegPath::parse("HKCU\\A").unwrap(),
        name: ValueName::Named(name.to_string()),
        change: Change::Added,
        left: None,
        right: Some(RegData::Dword(1)),
    };
    let full = || Diff {
        keys: vec![KeyDiff {
            path: RegPath::parse("HKCU\\A").unwrap(),
            change: Change::Added,
        }],
        values: vec![value("Keep"), value("Drop")],
    };
    let all = filtered_diff(full(), vec![], &[], &[]).unwrap();
    assert_eq!(all.keys.len(), 1);
    let some = filtered_diff(
        full(),
        vec![value("Keep"), value("Drop")],
        &["keep".to_string()],
        &[],
    )
    .unwrap();
    assert!(some.keys.is_empty());
    assert_eq!(some.values.len(), 1);
    let huge = "x".repeat(400_000);
    let e = filtered_diff(full(), vec![], &[huge], &[]).unwrap_err();
    assert_eq!(e.code, Exit::Usage);
}

#[test]
fn redacted_data_is_a_digest() {
    let a = RegData::Sz("secret".to_string());
    assert_eq!(
        plan_data_text(&Some(RegData::Sz("secret".to_string())), true),
        format!("<redacted sha256:{}>", plan_digest(&a))
    );
    assert_eq!(plan_data_text(&None, true), "<absent>");
    assert_eq!(plan_data_text(&Some(a), false), "REG_SZ secret");
    assert_eq!(plan_data_json(&None, &None, false), "null");
}

#[test]
fn queries_are_rendered_key_by_key() {
    let keys = vec![
        key("HKCU\\A", vec![text("n", "v")]),
        key("HKCU\\B", vec![]),
    ];
    let json: serde_json::Value = serde_json::from_str(&json_of(&keys, &None)).unwrap();
    assert_eq!(json[0]["key"], "HKEY_CURRENT_USER\\A");
    assert_eq!(json[0]["values"][0]["data"], "v");
    assert_eq!(json[1]["values"], serde_json::Value::Array(vec![]));
    assert_eq!(json_of(&vec![], &None), "[\n]");
    let json: serde_json::Value =
        serde_json::from_str(&json_of(&keys, &Some("file.hiv".to_string()))).unwrap();
    assert_eq!(json[0]["key"], "file.hiv\\A");
}

#[test]
fn arguments_are_split_as_in_a_shell() {
    assert_eq!(
        split_argv("set  \"c d\" e"),
        vec!["set", "c d", "e"]
    );
    assert_eq!(
        script_lines("# comment\n\nset a\n  get b  \n"),
        vec!["set a", "get b"]
    );
}

#[test]
fn only_one_input_may_be_standard_input() {
    let once = vec!["a.reg".to_string(), "-".to_string()];
    let twice = vec!["-".to_string(), "-".to_string()];
    assert!(ensure_single_stdin(&once).is_ok());
    assert_eq!(ensure_single_stdin(&twice).unwrap_err().code, Exit::Usage);
    assert_eq!(input_label("-", None), "<stdin>");
    assert_eq!(input_label("a.reg", None), "a.reg");
}

#[test]
fn a_policy_forces_the_question() {
    assert_eq!(confirmation(true, false, true), Confirmation::Proceed);
    assert_eq!(confirmation(false, true, false), Confirmation::Proceed);
    assert_eq!(confirmation(false, true, true), Confirmation::AskDespiteYes);
    assert_eq!(confirmation(false, false, false), Confirmation::Ask);
    assert!(confirms("y\n"));
    assert!(confirms(" YES "));
    assert!(!confirms("no"));
    assert!(!confirms(""));
    assert!(stream_blocks(true, false, false, false));
    assert!(!stream_blocks(false, false, false, false));
}

#[test]
fn required_logs_come_beside_the_asked_one() {
    let required = Some("C:\\policy.jsonl".to_string());
    let asked = Some("mine.jsonl".to_string());
    assert_eq!(audit_logs(&required, &asked).len(), 2);
    assert_eq!(audit_logs(&None, &asked), vec!["mine.jsonl"]);
    assert!(audit_redacts(false, true));
    assert!(!audit_redacts(false, false));
}

#[test]
fn languages_are_numbers() {
    assert_eq!(read_langid("0409").unwrap(), 0x409);
    assert!(read_langid("zz").is_err());
}

#[test]
fn hive_paths_are_joined_and_stripped() {
    assert_eq!(hive_path("\\Software\\").to_string(), "HKEY_CURRENT_USER\\Software");
    let root = RegPath::parse("HKCU\\A").unwrap();
    assert_eq!(joined_reg_path(&root, "B").to_string(), "HKEY_CURRENT_USER\\A\\B");
    assert_eq!(joined_reg_path(&root, "").to_string(), "HKEY_CURRENT_USER\\A");
    let mut file = RegFile {
        format: RegFormat::V5,
        encoding: SourceEncoding::Utf8,
        keys: vec![key("HKCU\\Root\\Software", vec![])],
    };
    strip_hive_root(&mut file, Some("HKCU\\Root")).unwrap();
    assert_eq!(file.keys[0].path.sub, "Software");
    assert!(strip_hive_root(&mut file, Some("HKCU\\Elsewhere")).is_err());
}

#[test]
fn mappings_rebase_one_side() {
    let keys = vec![key("HKCU\\A\\B", vec![])];
    let mapped = apply_diff_mapping(keys.clone(), Some("HKCU\\A=HKLM\\Z"), "left").unwrap();
    assert_eq!(mapped[0].path.to_string(), "HKEY_LOCAL_MACHINE\\Z\\B");
    let e = apply_diff_mapping(keys.clone(), Some("nonsense"), "left").unwrap_err();
    assert_eq!(e.code, Exit::Usage);
    assert_eq!(apply_diff_mapping(keys, None, "left").unwrap().len(), 1);
}

#[test]
fn pruning_deletes_undeclared_values_and_branches() {
    let keys = vec![key("HKCU\\A", vec![text("Keep", "1")])];
    let live = vec![LiveKey::Read {
        blocks: vec![key("HKCU\\A", vec![text("keep", "0"), text("Drop", "0")])],
        skipped: vec![],
    }];
    let deletes = add_prune_deletes(&keys, &live).unwrap();
    let dropped: Vec<&ValueEntry> = deletes
        .iter()
        .flat_map(|k| k.values.iter())
        .filter(|v| v.data == RegData::Delete)
        .collect();
    assert_eq!(dropped.len(), 1);
    assert_eq!(dropped[0].name, ValueName::Named("Drop".to_string()));

    let live = vec![LiveKey::Read {
        blocks: vec![key("HKCU\\A", vec![]), key("HKCU\\A\\Gone", vec![])],
        skipped: vec![],
    }];
    let deletes = add_prune_key_deletes(&keys, &live).unwrap();
    assert!(deletes
        .iter()
        .any(|k| k.delete && k.path.sub == "A\\Gone"));
    assert!(add_prune_deletes(&keys, &vec![LiveKey::Failed("denied".to_string())]).is_err());
}

#[test]
fn keys_are_selected_by_their_paths() {
    let mut file = RegFile {
        format: RegFormat::V5,
        encoding: SourceEncoding::Utf8,
        keys: vec![key("HKCU\\A\\B", vec![]), key("HKCU\\C", vec![])],
    };
    assert!(filter_key_paths(&mut file, &["HKCU\\A\\**".to_string()], &[]).is_ok());
    assert_eq!(file.keys.len(), 1);
    assert_eq!(file.keys[0].path.sub, "A\\B");
}

#[test]
fn expected_digests_are_normalised() {
    let upper = "AB".repeat(32);
    assert_eq!(
        normalize_expected_sha256(&upper).unwrap(),
        "ab".repeat(32)
    );
    assert_eq!(normalize_expected_sha256("12").unwrap_err().code, Exit::Usage);
}

#[test]
fn every_view_has_its_own_undo_file() {
    let both = vec![RegistryView::Bits32, RegistryView::Bits64];
    assert_eq!(
        direct_mutation_undo_paths(&both, Some("change"), Some("reg")),
        vec![
            view_undo_path(Some("change"), Some("reg"), "32", true),
            view_undo_path(Some("change"), Some("reg"), "64", true)
        ]
    );
    assert_eq!(
        direct_mutation_undo_paths(&vec![RegistryView::Native], Some("change"), Some("reg")),
        vec![None]
    );
    assert_eq!(hive_undo_path(true, true, true), UndoPlace::Nowhere);
    assert_eq!(hive_undo_path(false, true, true), UndoPlace::Requested);
    assert_eq!(hive_undo_path(false, false, true), UndoPlace::BesideInput);
    assert_eq!(hive_undo_path(false, false, false), UndoPlace::Temporary);
}

#[test]
fn snapshots_with_holes_are_listed() {
    let snapshot = |holes: &[&str]| Snapshot {
        file: regx::mutation::make_file(vec![]),
        new_keys: vec![],
        restored_values: 0,
        unreadable: holes
            .iter()
            .map(|h| (h.to_string(), "denied".to_string()))
            .collect(),
    };
    assert_eq!(
        incomplete_views(&vec![snapshot(&[]), snapshot(&["HKCU\\A"]), snapshot(&[])]),
        vec![1]
    );
    assert!(incomplete_views(&vec![snapshot(&[])]).is_empty());
}

#[test]
fn refused_patterns_of_a_scope_are_told() {
    let huge = "x".repeat(400_000);
    let scope = |include_keys: &[&str], exclude_values: &[&str]| Scope {
        include_keys: include_keys.iter().map(|s| s.to_string()).collect(),
        exclude_keys: vec![],
        include_values: vec![],
        exclude_values: exclude_values.iter().map(|s| s.to_string()).collect(),
    };
    let e = fingerprint_selection(vec![], &scope(&[&huge], &[&huge]), false).unwrap_err();
    assert_eq!(e.code, Exit::Usage);
    assert!(e.message.starts_with("invalid include pattern"));
    let e = fingerprint_selection(vec![], &scope(&["HKCU\\**"], &[&huge]), false).unwrap_err();
    assert_eq!(e.code, Exit::Io);
    assert_eq!(
        e.message,
        "Compiled regex exceeds size limit of 2097152 bytes."
    );
    let none = fingerprint_selection(vec![], &scope(&["HKCU\\**"], &[]), false).unwrap();
    assert!(!none.matched);
    let e = select_compiled(vec![], Some(Err("k".to_string())), Some(Err("v".to_string())), false)
        .unwrap_err();
    assert_eq!((e.code, e.message.as_str()), (Exit::Usage, "k"));
    let filters = Filters {
        include_queries: vec![],
        exclude_queries: vec![],
    };
    let e = select_compiled(vec![], Some(Ok(filters)), Some(Err("v".to_string())), false)
        .unwrap_err();
    assert_eq!((e.code, e.message.as_str()), (Exit::Io, "v"));
    let names = ValueFilters {
        include_queries: vec![],
        exclude_queries: vec![],
    };
    assert!(!select_compiled(vec![], None, Some(Ok(names)), false).unwrap().matched);
    assert!(select_compiled(vec![], None, None, false).unwrap().matched);
}
