use regx::shortcut::{
    check_hr, create_steps, has_lnk_extension, inspect, may_create, parse_icon_spec,
    planned_link_info, resolve_options, same_path, validate, verify, wide_text, CreateOptions,
    LinkFacts, LinkFields, OptionsFacts, ShowStyle,
};
use regx::shell::Folders;

fn options() -> CreateOptions {
    CreateOptions {
        target: "C:\\app.exe".to_string(),
        output: "C:\\out\\app.lnk".to_string(),
        working_directory: Some("C:\\work".to_string()),
        arguments: Some("--version \"Unicode ✓\"".to_string()),
        description: Some("regx native shortcut test".to_string()),
        icon_path: Some("C:\\app.exe".to_string()),
        icon_index: 0,
        style: ShowStyle::Hidden,
    }
}

fn facts() -> OptionsFacts {
    OptionsFacts {
        target_absolute: true,
        target_file: Ok(true),
        output_absolute: true,
        output_extension: Some("LNK".to_string()),
        output_parent: Some(("C:\\out".to_string(), true)),
        workdir_usable: true,
        icon_usable: true,
    }
}

#[test]
fn refuses_non_lnk_output_and_missing_target() {
    let missing = CreateOptions {
        target: "/tmp/missing.exe".to_string(),
        output: "/tmp/bad.txt".to_string(),
        working_directory: None,
        arguments: None,
        description: None,
        icon_path: None,
        icon_index: 0,
        style: ShowStyle::Normal,
    };
    let found = OptionsFacts {
        target_file: Err("not found".to_string()),
        output_extension: Some("txt".to_string()),
        ..facts()
    };
    assert!(validate(&missing, &found)
        .unwrap_err()
        .contains("cannot inspect shortcut target"));
    let found = OptionsFacts {
        output_extension: Some("txt".to_string()),
        ..facts()
    };
    assert!(validate(&missing, &found).is_err());
}

#[test]
fn icon_spec_uses_the_last_comma_only_when_it_has_an_integer_index() {
    assert_eq!(
        parse_icon_spec(r"C:\\Icons, Set\\app.dll,-2").unwrap(),
        (r"C:\\Icons, Set\\app.dll".to_string(), -2)
    );
    assert_eq!(
        parse_icon_spec(r"C:\\Icons, Set\\app.dll").unwrap(),
        (r"C:\\Icons, Set\\app.dll".to_string(), 0)
    );
}

#[test]
fn usable_options_pass() {
    assert_eq!(validate(&options(), &facts()), Ok(()));
    assert_eq!(may_create(&options(), &facts(), false, false), Ok(()));
    assert!(may_create(&options(), &facts(), true, false).is_err());
    assert_eq!(may_create(&options(), &facts(), true, true), Ok(()));
    assert!(has_lnk_extension(Some("lnk")));
    assert!(!has_lnk_extension(Some("txt")));
    assert!(!has_lnk_extension(None));
}

#[test]
fn a_written_link_verifies() {
    let o = options();
    let info = planned_link_info(&o);
    assert_eq!(verify(&o, &info), Ok(()));
    let read = inspect(
        "C:\\out\\app.lnk",
        Some("lnk"),
        LinkFacts {
            regular: Ok(true),
            fields: Ok(LinkFields {
                target: "C:\\APP.EXE".to_string(),
                working_directory: "C:\\work".to_string(),
                arguments: "--version \"Unicode ✓\"".to_string(),
                description: "regx native shortcut test".to_string(),
                icon_path: "C:\\app.exe".to_string(),
                icon_index: 0,
                show: 7,
            }),
        },
    )
    .unwrap();
    assert_eq!(read.style, ShowStyle::Minimized);
    assert_eq!(verify(&o, &read), Ok(()));
    assert!(same_path("C:\\a", "c:\\A"));
    assert!(!same_path("C:\\a", "C:\\b"));
    let other = CreateOptions {
        arguments: None,
        ..options()
    };
    assert!(verify(&other, &read).is_err());
}

#[test]
fn a_link_is_written_step_by_step() {
    let steps = create_steps(&options());
    assert_eq!(steps.len(), 6);
    assert_eq!(format!("{:?}", steps[0]), "Target(\"C:\\\\app.exe\")");
}

#[test]
fn shell_folders_are_resolved_in_options() {
    let folders = Folders {
        startup: Ok("C:\\Start".to_string()),
        desktop: Ok("C:\\Desk".to_string()),
        programs: Ok("C:\\Prog".to_string()),
    };
    let o = CreateOptions {
        output: "shell:Startup\\app.lnk".to_string(),
        ..options()
    };
    let r = resolve_options(&o, &folders).unwrap();
    assert_eq!(r.output, "C:\\Start\\app.lnk");
    assert_eq!(r.target, "C:\\app.exe");
}

#[test]
fn styles_are_shown_as_the_system_has_them() {
    assert_eq!(ShowStyle::Normal.win32(), 1);
    assert_eq!(ShowStyle::Hidden.win32(), 7);
    assert_eq!(ShowStyle::from_win32(1), ShowStyle::Normal);
    assert_eq!(ShowStyle::Hidden.as_str(), "hidden");
}

#[test]
fn wide_text_holds_no_zero() {
    assert_eq!(wide_text("ab", "field"), Ok(vec![0x61, 0x62, 0]));
    assert!(wide_text("a\0b", "field").is_err());
}

#[test]
fn negative_results_are_failures() {
    assert_eq!(check_hr("open", 0), Ok(()));
    assert_eq!(check_hr("open", 1), Ok(()));
    let m = check_hr("open", -2147024891).unwrap_err();
    assert!(m.contains("0x80070005"), "{m}");
}
