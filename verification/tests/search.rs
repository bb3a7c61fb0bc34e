use regx::model::{Hive, KeyBlock, RegData, RegPath, ValueEntry, ValueName, REG_BINARY};
use regx::search::{
    expand_root_alias, find, glob_matchers, glob_regex, searchable_data, Field, Filters, Matcher,
    Mode, ValueFilters,
};

fn sample() -> Vec<KeyBlock> {
    vec![KeyBlock {
        path: RegPath {
            hive: Hive::Hkcu,
            sub: "Software\\Tools".into(),
        },
        delete: false,
        values: vec![
            ValueEntry {
                name: ValueName::Named("ServerName".into()),
                data: RegData::Sz("example.test".into()),
                line: 0,
            },
            ValueEntry {
                name: ValueName::Named("Blob".into()),
                data: RegData::Hex {
                    ty: REG_BINARY,
                    bytes: vec![0xde, 0xad, 0xbe, 0xef],
                },
                line: 0,
            },
        ],
        line: 0,
    }]
}

fn no_filters() -> Filters {
    Filters {
        include_queries: vec![],
        exclude_queries: vec![],
    }
}

fn no_value_filters() -> ValueFilters {
    ValueFilters {
        include_queries: vec![],
        exclude_queries: vec![],
    }
}

#[test]
fn searches_each_field_case_insensitively() {
    let keys = sample();
    for (query, field) in [
        ("TOOLS", Field::Key),
        ("servername", Field::Name),
        ("reg_binary", Field::Type),
        ("ad be", Field::Data),
        ("example.TEST", Field::Data),
    ] {
        let matcher = Matcher::compile(query, Mode::Substring, false).unwrap_or_else(|e| panic!("{e}"));
        assert_eq!(
            find(
                &keys,
                &matcher,
                &[field],
                &no_filters(),
                &no_value_filters(),
                10
            )
            .len(),
            1
        );
    }
}

#[test]
fn limit_applies_across_fields() {
    let keys = sample();
    let matcher = Matcher::compile("e", Mode::Substring, false).unwrap_or_else(|e| panic!("{e}"));
    assert_eq!(
        find(&keys, &matcher, &[], &no_filters(), &no_value_filters(), 2).len(),
        2
    );
}

#[test]
fn glob_regex_and_path_filters_are_composed() {
    let keys = sample();
    let glob = Matcher::compile("Server*", Mode::Glob, false).unwrap_or_else(|e| panic!("{e}"));
    let filters = Filters::compile_globs(&["HKCU\\Software\\**".into()], &[], false)
        .unwrap_or_else(|e| panic!("{e}"));
    assert_eq!(
        find(
            &keys,
            &glob,
            &[Field::Name],
            &filters,
            &no_value_filters(),
            10
        )
        .len(),
        1
    );

    let regex = Matcher::compile(r"^example\.(test|invalid)$", Mode::Regex, false)
        .unwrap_or_else(|e| panic!("{e}"));
    assert_eq!(
        find(
            &keys,
            &regex,
            &[Field::Data],
            &filters,
            &no_value_filters(),
            10
        )
        .len(),
        1
    );

    let excluded = Filters {
        include_queries: vec![],
        exclude_queries: vec![Matcher::compile("**\\Tools", Mode::Glob, false)
            .unwrap_or_else(|e| panic!("{e}"))],
    };
    assert!(find(
        &keys,
        &glob,
        &[Field::Name],
        &excluded,
        &no_value_filters(),
        10
    )
    .is_empty());
}

#[test]
fn value_filters_scope_matches_and_suppress_key_only_results() {
    let keys = sample();
    let query = Matcher::compile("*", Mode::Glob, false).unwrap_or_else(|e| panic!("{e}"));
    let only_blob =
        ValueFilters::compile_globs(&["blob".into()], &[]).unwrap_or_else(|e| panic!("{e}"));
    let matches = find(&keys, &query, &[], &no_filters(), &only_blob, 10);
    assert_eq!(matches.len(), 3);
    assert!(matches.iter().all(|item| {
        item.field != Field::Key && item.name == Some(ValueName::Named("Blob".into()))
    }));

    let excluded =
        ValueFilters::compile_globs(&[], &["Server*".into()]).unwrap_or_else(|e| panic!("{e}"));
    let matches = find(&keys, &query, &[Field::Name], &no_filters(), &excluded, 10);
    assert_eq!(matches.len(), 1);
    assert_eq!(matches[0].name, Some(ValueName::Named("Blob".into())));
}

#[test]
fn invalid_regex_is_reported() {
    assert!(Matcher::compile("(", Mode::Regex, false).is_err());
}

#[test]
fn malformed_utf16_is_searchable_as_bytes_not_fabricated_text() {
    let data = RegData::Hex {
        ty: regx::model::REG_EXPAND_SZ,
        bytes: vec![0x00, 0xd8, 0x00, 0x00],
    };
    let forms = searchable_data(&data);
    assert_eq!(forms, vec!["00 d8 00 00"]);
    assert!(!forms.iter().any(|form| form.contains('\u{fffd}')));
}

#[test]
fn globs_become_anchored_expressions() {
    assert_eq!(glob_regex("a*b?c**d"), r"^a[^\\]*b[^\\]c.*d$");
    assert_eq!(glob_regex("x.y\\z"), r"^x\.y\\z$");
}

#[test]
fn a_plain_glob_matches_itself_alone() {
    let m = Matcher::compile("a.b", Mode::Glob, true).unwrap_or_else(|e| panic!("{e}"));
    assert!(m.matches("a.b"));
    assert!(!m.matches("axb"));
    assert!(!m.matches("A.B"));
    assert!(!m.matches("xa.b"));
}

#[test]
fn a_star_stops_at_a_separator() {
    let m = Matcher::compile("HKCU\\*", Mode::Glob, false).unwrap_or_else(|e| panic!("{e}"));
    assert!(m.matches("hkcu\\Software"));
    assert!(!m.matches("HKCU\\Software\\Tools"));
    let m = Matcher::compile("HKCU\\**", Mode::Glob, false).unwrap_or_else(|e| panic!("{e}"));
    assert!(m.matches("HKCU\\Software\\Tools"));
}

#[test]
fn abbreviated_roots_are_written_in_full() {
    assert_eq!(expand_root_alias("hkcu\\Software"), "HKEY_CURRENT_USER\\Software");
    assert_eq!(expand_root_alias("HKLM"), "HKEY_LOCAL_MACHINE");
    assert_eq!(expand_root_alias("**\\Tools"), "**\\Tools");
}

#[test]
fn no_patterns_compile_to_no_queries() {
    assert!(matches!(glob_matchers(&[], true), Ok(ms) if ms.is_empty()));
    let f = ValueFilters::compile_globs(&[], &[]).unwrap_or_else(|e| panic!("{e}"));
    assert!(!f.is_active());
    assert!(f.allows(&ValueName::Default));
}

#[test]
fn the_search_ends_with_the_match_that_reaches_the_limit() {
    let keys = sample();
    let matcher = Matcher::compile("e", Mode::Substring, false).unwrap_or_else(|e| panic!("{e}"));
    for limit in [0, 1] {
        let found = find(&keys, &matcher, &[], &no_filters(), &no_value_filters(), limit);
        assert_eq!(found.len(), 1);
    }
}

#[test]
fn a_refused_pattern_is_told_as_it_was_written() {
    let huge = "x".repeat(400_000);
    let m = match Filters::compile_globs(&[huge.clone()], &[], false) {
        Ok(_) => panic!("compiled"),
        Err(m) => m,
    };
    assert!(m.starts_with("invalid include pattern \"xxx"));
    assert!(m.ends_with("\": Compiled regex exceeds size limit of 2097152 bytes."));
    let m = match ValueFilters::compile_globs(&[], &[huge]) {
        Ok(_) => panic!("compiled"),
        Err(m) => m,
    };
    assert_eq!(
        m,
        "invalid exclude value pattern: Compiled regex exceeds size limit of 2097152 bytes."
    );
}

#[test]
fn a_refusal_is_one_of_syntax_or_of_size() {
    let told = |pattern: &str| match Matcher::compile(pattern, Mode::Regex, true) {
        Ok(_) => panic!("compiled"),
        Err(m) => m,
    };
    assert!(told("(").contains("unclosed group"));
    assert_eq!(
        told("(?:a{1000}){1000}"),
        "Compiled regex exceeds size limit of 2097152 bytes."
    );
    let nested = format!("{}a{}", "(".repeat(200), ")".repeat(200));
    assert!(told(&nested).contains("nest"));
    let fine = format!("{}a{}", "(".repeat(100), ")".repeat(100));
    assert!(Matcher::compile(&fine, Mode::Regex, true).is_ok());
    let huge = "x".repeat(400_000);
    let m = match glob_matchers(&["ok".to_string(), huge], false) {
        Ok(_) => panic!("compiled"),
        Err(m) => m,
    };
    assert_eq!(m, "Compiled regex exceeds size limit of 2097152 bytes.");
}
