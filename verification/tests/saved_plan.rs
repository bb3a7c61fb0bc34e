use regx::encoding::SourceEncoding;
use regx::model::{
    Hive, KeyBlock, RegData, RegFile, RegFormat, RegPath, ValueEntry, ValueName,
};
use regx::saved_plan::{
    file_digest, load, load_with, save, seal, snapshot_digest, verify_sources, PlanSource,
    PlanState, RegistryView, Snapshot,
};
use regx::state_reader::read_keys;

fn empty_file() -> RegFile {
    RegFile {
        format: RegFormat::V5,
        encoding: SourceEncoding::Utf8,
        keys: vec![KeyBlock {
            path: RegPath {
                hive: Hive::Hkcu,
                sub: "Software\\SavedPlan".into(),
            },
            delete: false,
            values: vec![],
            line: 0,
        }],
    }
}

fn snapshot() -> Snapshot {
    Snapshot {
        file: empty_file(),
        new_keys: vec![],
        restored_values: 0,
        unreadable: vec![],
    }
}

fn source(bytes: &[u8]) -> PlanSource {
    PlanSource {
        name: "desired.reg".to_string(),
        stream: false,
        canonical: Ok("/tmp/desired.reg".to_string()),
        bytes: Ok(bytes.to_vec()),
    }
}

fn states(labels: &[&str]) -> Vec<PlanState> {
    labels
        .iter()
        .map(|label| PlanState {
            label: label.to_string(),
            desired: empty_file(),
            current: snapshot(),
        })
        .collect()
}

fn document(labels: &[&str]) -> Vec<u8> {
    save(
        "plan.json",
        false,
        &vec![source(b"source bytes")],
        false,
        false,
        &states(labels),
        "regx",
        "1.0.0",
    )
    .unwrap()
}

fn desired(count: usize) -> Vec<Result<Vec<KeyBlock>, String>> {
    (0..count).map(|_| Ok(empty_file().keys)).collect()
}

#[test]
fn canonical_file_digest_is_stable() {
    let file = empty_file();
    assert_eq!(file_digest(&file), file_digest(&file.clone()));
}

#[test]
fn artifact_binds_payload_source_and_desired_state() {
    let written = document(&["native"]);
    let loaded = load(&written).unwrap();
    assert_eq!(loaded.views.len(), 1);
    assert_eq!(
        file_digest(&loaded.views[0].desired),
        file_digest(&empty_file())
    );
    verify_sources(&loaded, &vec![Ok(b"source bytes".to_vec())]).unwrap();

    assert!(
        verify_sources(&loaded, &vec![Ok(b"changed source bytes".to_vec())])
            .unwrap_err()
            .contains("changed")
    );

    let mut artifact: serde_json::Value = serde_json::from_slice(&written).unwrap();
    artifact["payload"]["toolVersion"] = serde_json::Value::String("tampered".into());
    let tampered = serde_json::to_vec_pretty(&artifact).unwrap();
    assert!(load(&tampered)
        .unwrap_err()
        .contains("payload digest mismatch"));
}

#[test]
fn both_views_come_back_in_order() {
    let written = document(&["64", "32"]);
    let loaded = load(&written).unwrap();
    assert_eq!(loaded.views[0].view, RegistryView::Bits32);
    assert_eq!(loaded.views[1].view, RegistryView::Bits64);
    assert_eq!(loaded.views[0].current_digest, snapshot_digest(&snapshot()));
    assert_eq!(loaded.sources.len(), 1);
    assert_eq!(loaded.sources[0].path, "/tmp/desired.reg");
}

#[test]
fn unsound_view_sets_are_refused() {
    for labels in [vec!["native", "32"], vec!["32", "32"], vec!["odd"], vec![]] {
        let written = document(&labels);
        assert!(load(&written).is_err());
        assert!(load_with(&written, &desired(labels.len())).is_err());
    }
}

#[test]
fn a_desired_state_must_have_its_digest() {
    let written = document(&["native"]);
    let mut other = empty_file().keys;
    other[0].path.sub.push('X');
    let e = load_with(&written, &vec![Ok(other)]).unwrap_err();
    assert!(e.contains("digest"), "{e}");
    let e = load_with(&written, &vec![Err("broken".to_string())]).unwrap_err();
    assert!(e.contains("broken"), "{e}");
}

#[test]
fn plans_are_not_saved_over_files_or_from_streams() {
    let none: Vec<PlanSource> = vec![];
    assert!(save("p", true, &none, false, false, &states(&["native"]), "regx", "1").is_err());
    let stream = PlanSource {
        stream: true,
        ..source(b"")
    };
    assert!(save("p", false, &vec![stream], false, false, &states(&["native"]), "regx", "1").is_err());
    let mut incomplete = states(&["native"]);
    incomplete[0]
        .current
        .unreadable
        .push(("k".to_string(), "denied".to_string()));
    assert!(save("p", false, &none, false, false, &incomplete, "regx", "1").is_err());
}

#[test]
fn documents_that_are_no_plans_are_refused() {
    assert!(load(b"not json").is_err());
    assert!(load(b"{}").is_err());
    let sealed = seal("{\"a\": 1}").unwrap();
    assert!(sealed.ends_with(b"}\n"));
    assert!(load(&sealed).is_err());
    assert!(seal("{").is_err());
}

#[test]
fn views_have_labels() {
    for view in [
        RegistryView::Native,
        RegistryView::Bits32,
        RegistryView::Bits64,
    ] {
        assert_eq!(RegistryView::from_label(view.label()), Some(view));
    }
    assert_eq!(RegistryView::from_label("16"), None);
}

#[test]
fn data_of_every_kind_is_loaded_as_it_is_stored() {
    let value = |name: Option<&str>, data: RegData| ValueEntry {
        name: match name {
            Some(n) => ValueName::Named(n.to_string()),
            None => ValueName::Default,
        },
        data,
        line: 7,
    };
    let mut file = empty_file();
    file.keys[0].values = vec![
        value(None, RegData::Sz("a \u{1f600} b".to_string())),
        value(Some("n/~1"), RegData::Dword(0x0102_0304)),
        value(
            Some("odd"),
            RegData::Hex {
                ty: 1,
                bytes: vec![0x41, 0, 0x42],
            },
        ),
        value(
            Some("none"),
            RegData::Hex {
                ty: 0xffff_ffff,
                bytes: vec![],
            },
        ),
        value(Some("gone"), RegData::Delete),
    ];
    file.keys.push(KeyBlock {
        path: RegPath {
            hive: Hive::Hklm,
            sub: "Software\\Old \\".into(),
        },
        delete: true,
        values: vec![],
        line: 3,
    });
    let written = save(
        "plan.json",
        false,
        &vec![source(b"x")],
        true,
        false,
        &vec![PlanState {
            label: "native".to_string(),
            desired: file.clone(),
            current: snapshot(),
        }],
        "regx",
        "1.0.0",
    )
    .unwrap();
    let loaded = load(&written).unwrap();
    let keys = &loaded.views[0].desired.keys;
    assert_eq!(keys.len(), 2);
    assert!(keys[1].delete);
    assert_eq!(keys[1].path.sub, "Software\\Old \\");
    for (was, is) in file.keys[0].values.iter().zip(&keys[0].values) {
        assert_eq!(was.name, is.name);
        assert_eq!(was.data, is.data);
    }
    assert_eq!(file_digest(&loaded.views[0].desired), file_digest(&file));
}

#[test]
fn states_that_are_no_states_are_refused() {
    let reading = |doc: &str| read_keys(doc.as_bytes(), "");
    assert_eq!(reading("{}").unwrap_err(), "a state has no keys");
    assert_eq!(reading("{\"keys\":[{}]}").unwrap_err(), "a key has no path");
    assert_eq!(
        reading("{\"keys\":[{\"path\":\"X\"}]}").unwrap_err(),
        "invalid registry path \"X\""
    );
    assert_eq!(
        reading("{\"keys\":[{\"path\":\"HKCU\\\\A\"}]}").unwrap_err(),
        "a key does not tell whether it is deleted"
    );
    assert_eq!(
        reading("{\"keys\":[{\"path\":\"HKCU\",\"delete\":true}]}").unwrap_err(),
        "a key has no values"
    );
    let value = |fields: &str| {
        reading(&format!(
            "{{\"keys\":[{{\"path\":\"HKCU\",\"delete\":false,\"values\":[{{{fields}}}]}}]}}"
        ))
    };
    assert_eq!(
        value("\"typeId\":4294967296").unwrap_err(),
        "a value has an impossible type"
    );
    assert_eq!(
        value("\"name\":\"a\\u0000b\"").unwrap_err(),
        "value name contains an embedded NUL"
    );
    assert!(reading("{\"keys\":[{\"path\":\"HKCU\\\\A\\u0000\"}]}")
        .unwrap_err()
        .starts_with("invalid registry path"));
    assert_eq!(value("\"typeId\":1").unwrap_err(), "a value has no data");
    assert_eq!(
        value("\"typeId\":1,\"raw\":\"zz\"").unwrap_err(),
        "invalid byte \"zz\""
    );
    assert_eq!(value("\"name\":\"v\"").unwrap()[0].values[0].data, RegData::Delete);
}
