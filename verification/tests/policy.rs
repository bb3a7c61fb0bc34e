use regx::model::{RegData, RegPath};
use regx::policy::{Policy, PolicyValues};

fn policy_with(deny: &[&str]) -> Policy {
    Policy {
        deny_keys: deny.iter().map(|s| s.to_string()).collect(),
        configured: true,
        ..Policy::default()
    }
}

#[test]
fn a_deny_rule_covers_the_key_and_its_subtree() {
    let p = policy_with(&["HKEY_CURRENT_USER\\Software\\Acme"]);
    let denied = |s: &str| p.denies(&RegPath::parse(s).unwrap()).is_some();

    assert!(denied("HKCU\\Software\\Acme"));
    assert!(denied("HKCU\\Software\\Acme\\Sub\\Deeper"));
}

#[test]
fn a_deny_rule_does_not_leak_onto_a_similarly_named_key() {
    let p = policy_with(&["HKEY_CURRENT_USER\\Software\\Acme"]);
    assert!(p
        .denies(&RegPath::parse("HKCU\\Software\\AcmeOther").unwrap())
        .is_none());
    assert!(p
        .denies(&RegPath::parse("HKCU\\Software\\Acme2").unwrap())
        .is_none());
}

#[test]
fn deny_matching_is_case_insensitive_like_the_registry() {
    let p = policy_with(&["hkey_current_user\\software\\ACME"]);
    assert!(p
        .denies(&RegPath::parse("HKCU\\Software\\Acme\\Child").unwrap())
        .is_some());
}

#[test]
fn a_trailing_backslash_in_a_rule_is_tolerated() {
    let p = policy_with(&["HKEY_CURRENT_USER\\Software\\Acme\\"]);
    assert!(p
        .denies(&RegPath::parse("HKCU\\Software\\Acme\\X").unwrap())
        .is_some());
}

#[test]
fn a_deny_rule_reaches_inside_a_mounted_hive() {
    let p = policy_with(&["HKEY_CURRENT_USER\\Software\\Finance"]);
    assert!(p.denies_hive_subkey("Software\\Finance").is_some());
    assert!(p.denies_hive_subkey("Software\\Finance\\Payroll").is_some());
    assert!(p.denies_hive_subkey("\\Software\\Finance\\").is_some());

    // The rule's own hive is irrelevant for a file, so an HKLM rule still
    // protects the same subkey path.
    let p = policy_with(&["HKLM\\Software\\Finance"]);
    assert!(p.denies_hive_subkey("Software\\Finance").is_some());

    // And it still must not leak onto a neighbour.
    assert!(p.denies_hive_subkey("Software\\FinanceOther").is_none());
    assert!(p.denies_hive_subkey("Software\\Other").is_none());
}

#[test]
fn a_hive_deny_rule_naming_only_a_root_matches_nothing() {
    let p = policy_with(&["HKEY_CURRENT_USER"]);
    assert!(p.denies_hive_subkey("Software\\Anything").is_none());
}

#[test]
fn an_unconfigured_policy_constrains_nothing_and_says_so() {
    let p = Policy::default();
    assert!(!p.constrains_anything());
    assert!(p
        .denies(&RegPath::parse("HKCU\\Software\\Anything").unwrap())
        .is_none());
    assert!(p.describe()[0].contains("no administrative policy"));
}

#[test]
fn loading_on_an_unconfigured_machine_does_not_fail() {
    let p = Policy::load(None);
    assert!(!p.configured);
    if !p.configured {
        assert!(!p.constrains_anything());
    }
}

#[test]
fn describe_lists_every_active_constraint() {
    let p = Policy {
        audit_log: Some("C:\\logs\\regx.jsonl".to_string()),
        audit_redact: true,
        min_confidence: Some("high".into()),
        deny_keys: vec!["HKCU\\Software\\Finance".into()],
        disable_hive: true,
        require_confirm: true,
        configured: true,
    };
    let lines = p.describe().join("\n");
    for expected in [
        "audit log required",
        "redacted",
        "high",
        "denied key prefix",
        "hive engine is disabled",
        "-y is ignored",
    ] {
        assert!(
            lines.contains(expected),
            "missing {expected:?} in:\n{lines}"
        );
    }
}

#[test]
fn an_abbreviated_rule_denies_what_the_full_one_does() {
    let p = policy_with(&["HKCU\\Software\\Acme"]);
    assert_eq!(
        p.denies(&RegPath::parse("HKCU\\Software\\Acme\\Sub").unwrap()),
        Some("HKCU\\Software\\Acme")
    );
    assert_eq!(
        p.denies(&RegPath::parse("HKLM\\Software\\Acme").unwrap()),
        None
    );
}

#[test]
fn policy_values_are_read_by_their_types() {
    let wide = |s: &str| -> Vec<u8> { s.encode_utf16().flat_map(u16::to_le_bytes).collect() };
    let p = Policy::load(Some(PolicyValues {
        audit_log: Some(RegData::Sz("C:\\log.jsonl".to_string())),
        audit_redact: Some(RegData::Dword(1)),
        min_confidence: Some(RegData::Sz("High".to_string())),
        deny_keys: Some(wide("HKCU\\A\0HKLM\\B\0\0")),
        disable_hive: Some(RegData::Dword(0)),
        require_confirm: None,
    }));
    assert!(p.configured);
    assert_eq!(p.audit_log.as_deref(), Some("C:\\log.jsonl"));
    assert!(p.audit_redact);
    assert_eq!(p.min_confidence.as_deref(), Some("high"));
    assert_eq!(p.deny_keys, vec!["HKCU\\A", "HKLM\\B"]);
    assert!(!p.disable_hive);
    assert!(!p.require_confirm);
    assert!(p.constrains_anything());
}
