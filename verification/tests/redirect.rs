use regx::model::{KeyBlock, RegPath};
use regx::redirect::{strip_ci, strip_wow6432, Confidence, Mapping, Policy};
use regx::redirecting::{redirect_floor, redirect_keys, MinConfidence, RedirectMode};

fn p(s: &str) -> RegPath {
    RegPath::parse(s).unwrap()
}

fn mapped(path: &RegPath, policy: Policy) -> Mapping {
    regx::redirect::map(path, policy)
}

#[test]
fn classes_map_with_high_confidence() {
    let m = mapped(
        &p("HKEY_LOCAL_MACHINE\\SOFTWARE\\Classes\\.txt"),
        Policy::Auto,
    );
    assert_eq!(m.confidence, Confidence::High);
    assert_eq!(
        m.to.unwrap().to_string(),
        "HKEY_CURRENT_USER\\SOFTWARE\\Classes\\.txt"
    );
}

#[test]
fn system_hive_is_refused() {
    let m = mapped(
        &p("HKLM\\SYSTEM\\CurrentControlSet\\Services\\Foo"),
        Policy::Auto,
    );
    assert_eq!(m.confidence, Confidence::Refuse);
    assert!(m.to.is_none());
}

#[test]
fn machine_policy_is_low_confidence() {
    let m = mapped(
        &p("HKLM\\SOFTWARE\\Policies\\Microsoft\\Windows Defender"),
        Policy::Auto,
    );
    assert_eq!(m.confidence, Confidence::Low);
}

#[test]
fn wow6432node_is_normalised() {
    let m = mapped(&p("HKLM\\SOFTWARE\\WOW6432Node\\Acme\\App"), Policy::Auto);
    assert_eq!(m.to.unwrap().sub, "SOFTWARE\\Acme\\App");
}

#[test]
fn userchoice_is_refused() {
    let m = mapped(&p("HKEY_CLASSES_ROOT\\.pdf\\UserChoice"), Policy::Auto);
    assert_eq!(m.confidence, Confidence::Refuse);
}

#[test]
fn active_setup_is_recognised_and_refused() {
    let m = mapped(
        &p("HKLM\\Software\\Microsoft\\Active Setup\\Installed Components\\{ABC}"),
        Policy::Auto,
    );
    assert_eq!(m.confidence, Confidence::Refuse);
    assert!(m.to.is_none());
    assert!(m.reason.contains("Active Setup"));
}

#[test]
fn active_setup_wow6432_alias_is_recognised() {
    let m = mapped(
        &p("HKLM\\SOFTWARE\\WOW6432Node\\Microsoft\\Active Setup\\Installed Components\\{ABC}"),
        Policy::Auto,
    );
    assert_eq!(m.confidence, Confidence::Refuse);
    assert!(m.reason.contains("Active Setup"));
}

#[test]
fn user_shell_folders_are_recognised_and_refused() {
    let m = mapped(
        &p("HKLM\\software\\microsoft\\windows\\currentversion\\explorer\\user shell folders"),
        Policy::Auto,
    );
    assert_eq!(m.confidence, Confidence::Refuse);
    assert!(m.to.is_none());
    assert!(m.reason.contains("Known Folder"));
}

#[test]
fn winlogon_is_recognised_and_refused() {
    let m = mapped(
        &p("HKLM\\SOFTWARE\\Microsoft\\Windows NT\\CurrentVersion\\Winlogon"),
        Policy::Auto,
    );
    assert_eq!(m.confidence, Confidence::Refuse);
    assert!(m.to.is_none());
    assert!(m.reason.contains("Winlogon"));
}

#[test]
fn unrelated_explorer_key_is_not_overstated_as_high_confidence() {
    let m = mapped(
        &p("HKLM\\SOFTWARE\\Microsoft\\Windows\\CurrentVersion\\Explorer\\Advanced"),
        Policy::Auto,
    );
    assert_eq!(m.confidence, Confidence::Medium);
}

#[test]
fn partial_component_does_not_match() {
    assert_eq!(strip_ci("SOFTWAREX\\A", "SOFTWARE"), None);
    assert_eq!(strip_ci("SOFTWARE\\A", "SOFTWARE").as_deref(), Some("A"));
    assert_eq!(strip_ci("software", "SOFTWARE").as_deref(), Some(""));
}

#[test]
fn off_leaves_every_path_alone() {
    for path in ["HKLM\\SYSTEM\\X", "HKCC\\X", "HKCU\\X", "HKCR\\.txt"] {
        let m = mapped(&p(path), Policy::Off);
        assert!(m.to.is_none());
        assert_eq!(m.confidence, Confidence::High);
    }
}

#[test]
fn a_redirected_path_stays_where_it_is() {
    let first = mapped(&p("HKLM\\SOFTWARE\\Acme"), Policy::Auto).to.unwrap();
    let second = mapped(&first, Policy::Auto);
    assert!(second.to.is_none());
    assert_eq!(second.confidence, Confidence::High);
}

#[test]
fn the_alias_is_stripped_in_any_case() {
    assert_eq!(strip_wow6432("software\\wow6432node\\Acme"), "SOFTWARE\\Acme");
    assert_eq!(strip_wow6432("SOFTWARE\\Acme"), "SOFTWARE\\Acme");
}

#[test]
fn a_policy_can_only_raise_the_floor() {
    let loose = redirect_floor(RedirectMode::Auto, MinConfidence::Low, &None);
    let strict = redirect_floor(
        RedirectMode::Auto,
        MinConfidence::Low,
        &Some("high".to_string()),
    );
    assert!(strict.rank() >= loose.rank());
    assert_eq!(strict, Confidence::High);
}

#[test]
fn keys_are_kept_skipped_or_refused() {
    let block = |s: &str| KeyBlock {
        path: p(s),
        delete: false,
        values: vec![],
        line: 0,
    };
    let keys = vec![
        block("HKLM\\SOFTWARE\\Classes\\.txt"),
        block("HKLM\\SOFTWARE\\Policies\\Acme"),
        block("HKLM\\SYSTEM\\Acme"),
    ];
    let r = redirect_keys(&keys, RedirectMode::Auto, MinConfidence::High, &None);
    assert_eq!(r.kept.len(), 1);
    assert_eq!(r.kept[0].path.to_string(), "HKEY_CURRENT_USER\\SOFTWARE\\Classes\\.txt");
    assert_eq!(r.skipped, 1);
    assert_eq!(r.refused, 1);
    let r = redirect_keys(&keys, RedirectMode::Off, MinConfidence::High, &None);
    assert_eq!(r.kept.len(), 3);
}
