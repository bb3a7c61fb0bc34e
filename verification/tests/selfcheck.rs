use regx::selfcheck::{any_warning, integrity_label, read_dword, read_zone, run, Facts, Verdict};

fn facts() -> Facts {
    Facts {
        wide_process: true,
        elevated: Some(false),
        integrity: Some(0x2000),
        view_64: true,
        view_32: true,
        executable: Some("C:\\tools\\regx.exe".to_string()),
        zone_stream: None,
        exe_mode: None,
        dll_mode: None,
        msi_mode: None,
        script_mode: None,
        appx_mode: None,
        service_start: None,
        restriction_level: None,
        virtualization: None,
        hypervisor: None,
        active_policies: 0,
        hkcu_error: None,
    }
}

#[test]
fn self_check_reports_every_area_without_panicking() {
    let f = run(&facts());
    for area in [
        "process",
        "elevation",
        "wow64",
        "image path",
        "mark-of-the-web",
        "applocker",
        "srp",
        "wdac",
        "hkcu",
    ] {
        assert!(f.iter().any(|x| x.area == area), "missing area {area}");
    }
}

#[test]
fn an_unwritable_user_key_warns() {
    let f = run(&Facts {
        hkcu_error: Some("denied".to_string()),
        ..facts()
    });
    assert!(any_warning(&f));
    let found = f.iter().find(|x| x.area == "hkcu").unwrap();
    assert_eq!(found.verdict, Verdict::Warn);
    assert!(found.detail.contains("denied"));
}

#[test]
fn integrity_levels_have_names() {
    assert_eq!(integrity_label(None), "integrity unknown");
    assert_eq!(integrity_label(Some(0x1000)), "low integrity");
    assert_eq!(integrity_label(Some(0x2000)), "medium integrity");
    assert_eq!(integrity_label(Some(0x3000)), "high integrity");
    assert_eq!(integrity_label(Some(0x4000)), "system integrity");
    assert_eq!(integrity_label(Some(1)), "custom integrity");
}

#[test]
fn numbers_are_read_by_type_and_size() {
    assert_eq!(read_dword(4, &[1, 2, 0, 0]), Some(0x201));
    assert_eq!(read_dword(3, &[1, 2, 0, 0]), None);
    assert_eq!(read_dword(4, &[1, 2]), None);
}

#[test]
fn the_zone_is_read_from_its_stream() {
    assert_eq!(read_zone("[ZoneTransfer]\r\nZoneId=3\r\n"), "3");
}
