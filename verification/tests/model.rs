use regx::model::{
    fold_str, parse_hive, strict_utf16_strings, utf16_from_bytes, value_name_matches, Hive,
    RegData, RegFormat, RegPath, ValueName, REG_BINARY, REG_DWORD, REG_EXPAND_SZ, REG_LINK,
    REG_MULTI_SZ, REG_QWORD,
};

fn wide(text: &str) -> Vec<u8> {
    text.encode_utf16().flat_map(u16::to_le_bytes).collect()
}

#[test]
fn string_like_hex_preview_never_invents_malformed_unicode() {
    let malformed_surrogate = RegData::Hex {
        ty: REG_EXPAND_SZ,
        bytes: vec![0x00, 0xd8, 0x00, 0x00],
    };
    let odd = RegData::Hex {
        ty: REG_MULTI_SZ,
        bytes: vec![b'A', 0, 0, 0, 0],
    };
    assert_eq!(malformed_surrogate.preview(), "00 d8 00 00 [4 bytes]");
    assert_eq!(odd.preview(), "41 00 00 00 00 [5 bytes]");
    assert!(utf16_from_bytes(&[0x00, 0xd8]).is_empty());
    assert!(utf16_from_bytes(&[b'A', 0, 0]).is_empty());
}

#[test]
fn well_formed_string_like_hex_preview_stays_human_readable() {
    let expand = RegData::Hex {
        ty: REG_EXPAND_SZ,
        bytes: wide("%TEMP%\0"),
    };
    let multi = RegData::Hex {
        ty: REG_MULTI_SZ,
        bytes: wide("alpha\0beta\0\0"),
    };
    assert_eq!(expand.preview(), "%TEMP%");
    assert_eq!(multi.preview(), "alpha | beta");
}

#[test]
fn hives_are_read_by_either_name_in_any_case() {
    for (name, hive) in [
        ("HKCR", Hive::Hkcr),
        ("hkcu", Hive::Hkcu),
        ("HkLm", Hive::Hklm),
        ("HKU", Hive::Hku),
        ("HKCC", Hive::Hkcc),
        ("hkey_classes_root", Hive::Hkcr),
        ("HKEY_CURRENT_USER", Hive::Hkcu),
        ("HKEY_LOCAL_MACHINE", Hive::Hklm),
        ("HKEY_USERS", Hive::Hku),
        ("HKEY_CURRENT_CONFIG", Hive::Hkcc),
    ] {
        assert_eq!(Hive::parse(name), Some(hive));
        assert_eq!(Hive::parse(hive.long_name()), Some(hive));
    }
    assert_eq!(Hive::parse("HKXX"), None);
    assert_eq!(parse_hive(&['H', 'K', 'U']), Some(Hive::Hku));
}

#[test]
fn a_path_reads_back_from_its_text() {
    let path = RegPath::parse("hklm\\Software\\Größe").unwrap();
    assert_eq!(path.to_string(), "HKEY_LOCAL_MACHINE\\Software\\Größe");
    assert!(RegPath::parse(&path.to_string()).unwrap().is_same_key(&path));
    assert_eq!(RegPath::parse("HKCU").unwrap().to_string(), "HKEY_CURRENT_USER");
    assert!(RegPath::parse("NOPE\\Software").is_none());
}

#[test]
fn keys_are_the_same_in_any_case() {
    let a = RegPath::parse("HKCU\\Software\\STRASSE\\Éa").unwrap();
    let b = RegPath::parse("HKCU\\software\\strasse\\éA").unwrap();
    assert!(a.is_same_key(&b));
    assert_eq!(a.fold(), b.fold());
    // A character whose uppercase form takes several stays as it is.
    assert_eq!(fold_str("straße"), "STRAßE");
}

#[test]
fn value_names_are_shown_and_compared() {
    assert_eq!(ValueName::Default.to_string(), "(Default)");
    assert_eq!(ValueName::Named("Name".to_string()).to_string(), "Name");
    assert_eq!(ValueName::Default.api(), "");
    assert!(value_name_matches(
        &ValueName::Named("Path".to_string()),
        &ValueName::Named("PATH".to_string())
    ));
    assert!(!value_name_matches(
        &ValueName::Named("Path".to_string()),
        &ValueName::Default
    ));
}

#[test]
fn data_is_shown_by_its_type() {
    assert_eq!(RegData::Sz("text".to_string()).preview(), "text");
    assert_eq!(RegData::Sz("text".to_string()).type_label(), "REG_SZ");
    assert_eq!(RegData::Dword(255).type_id(), Some(REG_DWORD));
    assert_eq!(RegData::Dword(255).preview(), "0x000000ff (255)");
    assert_eq!(RegData::Delete.type_label(), "(delete)");
    assert_eq!(RegData::Delete.type_id(), None);
    let quad = RegData::Hex {
        ty: REG_QWORD,
        bytes: vec![1, 0, 0, 0, 0, 0, 0, 0],
    };
    assert_eq!(quad.type_label(), "REG_QWORD");
    let link = RegData::Hex {
        ty: REG_LINK,
        bytes: vec![],
    };
    assert_eq!(link.type_label(), "REG_LINK");
    let strange = RegData::Hex {
        ty: 0x1234,
        bytes: vec![1],
    };
    assert_eq!(strange.type_label(), "REG_<other>");
    let bytes = RegData::Hex {
        ty: REG_BINARY,
        bytes: vec![0xde, 0xad],
    };
    assert_eq!(bytes.preview(), "de ad [2 bytes]");
}

#[test]
fn lists_are_read_up_to_their_end() {
    assert_eq!(
        strict_utf16_strings(&wide("a\0bc\0\0")),
        Some(vec!["a".to_string(), "bc".to_string()])
    );
    assert_eq!(strict_utf16_strings(&[0x00, 0xd8]), None);
    assert_eq!(strict_utf16_strings(&[0x41]), None);
}

#[test]
fn formats_have_their_headers() {
    assert_eq!(RegFormat::V4.header(), "REGEDIT4");
    assert_eq!(RegFormat::V5.header(), "Windows Registry Editor Version 5.00");
}

#[test]
fn a_list_of_strings_is_read_back() {
    let parts = ["one", "zwei \u{1f600}", "3"];
    let mut bytes = Vec::new();
    for part in parts {
        for unit in part.encode_utf16() {
            bytes.extend_from_slice(&unit.to_le_bytes());
        }
        bytes.extend_from_slice(&[0, 0]);
    }
    bytes.extend_from_slice(&[0, 0]);
    assert_eq!(regx::model::utf16_from_bytes(&bytes), parts);
}
