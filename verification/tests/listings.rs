use regx::audit::{Break, Verification};
use regx::diff::{Change, Diff, KeyDiff, ValueDiff};
use regx::find_report::DiffCounts;
use regx::inspection::{Companion, Discovery, FoundConflict, Inspection, Risk};
use regx::listing::{
    chain_lines, difference_lines, discovery_lines, formats_lines, inspection_lines, log_lines,
    record_lines, watched_lines, Signs,
};
use regx::model::{KeyBlock, RegData, RegPath, ValueName};
use regx::mutation::make_file;
use regx::notice::{Listing, Progress, Refusal};
use regx::redirecting::{redirection_lines, MinConfidence, RedirectMode};

fn path(s: &str) -> RegPath {
    RegPath::parse(s).unwrap()
}

fn text(s: &str) -> String {
    s.to_string()
}

fn block(s: &str) -> KeyBlock {
    KeyBlock {
        path: path(s),
        delete: false,
        values: vec![],
        line: 0,
    }
}

fn signs() -> Signs {
    Signs {
        added: text("+"),
        modified: text("~"),
        removed: text("-"),
    }
}

fn difference() -> Diff {
    let value = |name: &str, change, left: Option<u32>, right: Option<u32>| ValueDiff {
        path: path("HKCU\\A"),
        name: ValueName::Named(text(name)),
        change,
        left: left.map(RegData::Dword),
        right: right.map(RegData::Dword),
    };
    Diff {
        keys: vec![KeyDiff {
            path: path("HKCU\\New"),
            change: Change::Added,
        }],
        values: vec![
            value("m", Change::Modified, Some(1), Some(2)),
            value("r", Change::Removed, Some(3), None),
        ],
    }
}

#[test]
fn differences_are_listed_with_their_signs() {
    let counts = DiffCounts {
        added: 1,
        modified: 1,
        removed: 1,
    };
    let shown = |n: u32| RegData::Dword(n).preview();
    assert_eq!(
        difference_lines(&difference(), "a.reg", "b.reg", counts, &signs(), false),
        vec![
            text("--- a.reg"),
            text("+++ b.reg"),
            text(""),
            text("+ [HKEY_CURRENT_USER\\New]"),
            text("~ HKEY_CURRENT_USER\\A\\m"),
            format!("    - {}", shown(1)),
            format!("    + {}", shown(2)),
            format!("- HKEY_CURRENT_USER\\A\\r = {}", shown(3)),
            text(""),
            text("1 added, 1 modified, 1 removed"),
        ]
    );
    assert_eq!(
        difference_lines(&difference(), "a", "b", counts, &signs(), true),
        vec!["1 added, 1 modified, 1 removed"]
    );
    let none = Diff {
        keys: vec![],
        values: vec![],
    };
    assert_eq!(
        difference_lines(&none, "a", "b", counts, &signs(), false),
        vec!["No differences."]
    );
    assert_eq!(
        watched_lines(&difference(), &signs()),
        vec![
            "  + key HKEY_CURRENT_USER\\New",
            "  ~ value HKEY_CURRENT_USER\\A\\m",
            "  - value HKEY_CURRENT_USER\\A\\r",
        ]
    );
}

#[test]
fn breaks_of_logs_are_listed() {
    let sound = Verification {
        records: 3,
        sessions: 1,
        broken: vec![],
    };
    assert_eq!(
        chain_lines(2, &sound),
        vec![
            "2 segment(s), 3 record(s), 1 session(s)",
            "  Chain intact across every rotated segment.",
        ]
    );
    assert_eq!(
        log_lines("a.log", &sound, &Some(text("ab"))),
        vec![
            "a.log",
            "  records   3",
            "  sessions  1",
            "  sha256    ab",
            "",
            "  Chain intact: no record has been altered or removed.",
        ]
    );
    let broken = Verification {
        records: 3,
        sessions: 1,
        broken: vec![Break {
            place: 2,
            problem: text("hash"),
        }],
    };
    assert_eq!(
        chain_lines(1, &broken)[1..],
        ["  CHAIN BROKEN at 1 point(s):", "    segment 2: hash"]
    );
    let lines = log_lines("a.log", &broken, &None);
    assert_eq!(lines.len(), 9);
    assert_eq!(lines[4], "  CHAIN BROKEN at 1 point(s):");
    assert_eq!(lines[5], "    line 2: hash");
    assert_eq!(
        lines[8],
        "  before the first break are still trustworthy; those after it are not."
    );
    assert_eq!(
        record_lines(&vec![text("{}"), text(" \t"), text("{1}")]),
        vec!["     1  {}", "     3  {1}"]
    );
}

#[test]
fn companion_files_are_listed() {
    let mut d = Discovery {
        executable: Some(text("app.exe")),
        anchor: text("C:\\app"),
        stem: text("app"),
        policy: false,
        registry_pointer: false,
        strict: false,
        notes: vec![text("n")],
        searched: vec![text("x.reg")],
        risky: 1,
        found: vec![Companion {
            path: text("a.reg"),
            resolved_path: text("b.reg"),
            origin: text("beside"),
            rank: 2,
            format: None,
            size: 10,
            risks: vec![Risk {
                kind: text("Reparse"),
                explanation: text("a link"),
            }],
        }],
    };
    assert_eq!(
        discovery_lines(&d, true),
        vec![
            "executable  app.exe",
            "anchor      C:\\app",
            "stem        app",
            "note        n",
            "",
            "1 companion file(s), in search order:",
            "",
            "  [2] beside                 a.reg",
            "      unknown    10 bytes",
            "      resolved  b.reg",
            "      RISK   Reparse: a link",
            "",
            "Probed and absent (1):",
            "  x.reg",
            "",
            "1 of 1 hit(s) carry a risk. Read them with `regx inspect`, and confirm the application really uses that rung before trusting it.",
        ]
    );
    d.executable = None;
    d.notes.clear();
    d.found.clear();
    d.risky = 0;
    assert_eq!(
        discovery_lines(&d, false),
        vec![
            "anchor      C:\\app",
            "stem        app",
            "",
            "No companion files found.",
        ]
    );
}

#[test]
fn an_inspected_file_is_described() {
    let d = Inspection {
        label: text("a.reg"),
        format: text("reg"),
        dialect: None,
        encoding: Some(text("UTF-8")),
        data: make_file(vec![block("HKLM\\SYSTEM\\X"), block("HKCU\\A")]),
        notes: vec![text("one")],
        losses: vec![text("two")],
        conflicts: vec![FoundConflict {
            path: text("HKCU\\A"),
            value: text("v"),
            first_line: 3,
            last_line: 5,
            old: text("a"),
            new: text("b"),
            old_exact: None,
            new_exact: None,
        }],
    };
    assert_eq!(
        inspection_lines(&d, "REG"),
        vec![
            "a.reg",
            "  format      REG",
            "  encoding    UTF-8",
            "  key blocks  2 (0 whole-key delete(s))",
            "  values      0",
            "  hives       HKEY_CURRENT_USER, HKEY_LOCAL_MACHINE",
            "  note        one",
            "  loss        two",
            "  conflict    HKCU\\A\\v: line 3 \"a\" overridden by line 5 \"b\"",
            "  1 key(s) have no per-user equivalent; `regx convert` shows which",
        ]
    );
}

#[test]
fn formats_are_listed_in_columns() {
    let lines = formats_lines();
    assert_eq!(lines.len(), 15);
    assert_eq!(
        lines[2],
        "  reg    .reg           regedit's own text format, UTF-16 or ANSI REGEDIT4"
    );
    assert_eq!(lines[14], "User\\ path component, or set with --pol-root.");
}

#[test]
fn redirections_are_told() {
    let keys = vec![
        block("HKLM\\Software\\Classes\\.x"),
        block("HKLM\\SYSTEM\\CurrentControlSet\\Services\\X"),
        block("HKCU\\A"),
    ];
    let quiet = redirection_lines(&keys, RedirectMode::Auto, MinConfidence::Low, &None, false);
    assert_eq!(quiet.len(), 1);
    assert!(quiet[0].starts_with(
        "  refuse HKEY_LOCAL_MACHINE\\SYSTEM\\CurrentControlSet\\Services\\X  ("
    ));
    let told = redirection_lines(
        &keys,
        RedirectMode::Auto,
        MinConfidence::Low,
        &Some(text("high")),
        true,
    );
    assert_eq!(told[0], "  policy raises the redirection floor to high");
    assert!(told[1].starts_with(
        "  redirect [high] HKEY_LOCAL_MACHINE\\Software\\Classes\\.x -> HKEY_CURRENT_USER\\SOFTWARE\\Classes\\.x  ("
    ));
    assert_eq!(told.len(), 3);
}

#[test]
fn notices_are_worded() {
    assert_eq!(
        Refusal::NoState {
            in_view: Some(text("32")),
            hive: false,
            scope: text("stats"),
        }
        .text(),
        "regx: view 32: no registry state matched the stats scope"
    );
    assert_eq!(
        Refusal::OperationUnclear {
            position: 2,
            line: text("set \"a"),
            error: text("unclosed"),
        }
        .text(),
        "regx: op 2 (\"set \\\"a\"): unclosed"
    );
    assert_eq!(
        Refusal::NoSourceValue {
            source: text("A"),
            value: text("v"),
            in_view: None,
        }
        .text(),
        "regx: source value A\\v does not exist"
    );
    assert_eq!(
        Progress::Exported {
            keys: 2,
            values: 3,
            format: text("Reg"),
            file: text("o.reg"),
            skipped: 0,
        }
        .text(),
        "regx: exported 2 key(s), 3 value(s) as Reg -> o.reg"
    );
    assert_eq!(
        Progress::Exported {
            keys: 2,
            values: 3,
            format: text("Reg"),
            file: text("o.reg"),
            skipped: 4,
        }
        .text(),
        "regx: exported 2 key(s), 3 value(s) as Reg -> o.reg (4 subkey(s) skipped)"
    );
    assert_eq!(Progress::Rollback { change: None }.text(), "regx: rollback:");
    assert_eq!(
        Progress::Rollback {
            change: Some(text("hive sync"))
        }
        .text(),
        "regx: hive sync rollback:"
    );
    assert_eq!(
        Listing::Probed {
            key: text(""),
            computer: None,
            exists: true,
            readable: true,
            writable: false,
            creatable: false,
            detail: text("denied"),
        }
        .text(),
        "\\\n  exists    true\n  readable  true\n  writable  false\n  creatable false\n  detail    denied"
    );
    assert_eq!(
        Listing::Place {
            key: text("HKLM\\A"),
            computer: Some(text("host"))
        }
        .text(),
        "HKLM\\A on \\\\host"
    );
}
