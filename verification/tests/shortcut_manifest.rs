use regx::encoding::{decode_shortcut_manifest, encode_utf16le_bom};
use regx::shortcut::ShowStyle;
use regx::shortcut_manifest::{parse, Action, MAX_ACTIONS};

#[test]
fn parses_repeated_create_and_delete_blocks() {
    let manifest = parse(
        r#"
        [SHORTCUT]
        Target="C:\Program Files\Acme\Acme.exe"
        Output=shell:Startup\Acme.lnk
        Arguments=--background
        Style=hidden

        [DELETE_SHORTCUT]
        Path=shell:Desktop\Old.lnk
        "#,
    )
    .unwrap();
    assert_eq!(manifest.actions.len(), 2);
    let Action::Create(create) = &manifest.actions[0] else {
        panic!("first action is not create")
    };
    assert_eq!(create.style, ShowStyle::Hidden);
    assert_eq!(create.arguments.as_deref(), Some("--background"));
}

#[test]
fn rejects_unknown_duplicate_and_incomplete_fields() {
    assert!(parse("[SHORTCUT]\nTarget=x\nMystery=y\nOutput=z.lnk")
        .unwrap_err()
        .contains("unknown field"));
    assert!(parse("[SHORTCUT]\nTarget=x\nTarget=y\nOutput=z.lnk")
        .unwrap_err()
        .contains("duplicate field"));
    assert!(parse("[DELETE_SHORTCUT]\n")
        .unwrap_err()
        .contains("requires Path"));
}

#[test]
fn shortcut_manifest_prefers_utf8_and_accepts_utf16_bom() {
    let utf8 = "[SHORTCUT]\nDescription=Tiếng Việt ✓\n";
    assert_eq!(decode_shortcut_manifest(utf8.as_bytes()).unwrap(), utf8);
    assert_eq!(
        decode_shortcut_manifest(&encode_utf16le_bom(utf8)).unwrap(),
        utf8
    );
}

#[test]
fn bytes_that_are_no_text_are_refused() {
    assert!(decode_shortcut_manifest(&[0x66, 0xff, 0x66]).is_err());
    assert!(decode_shortcut_manifest(&[0xff, 0xfe, 0x00, 0xd8]).is_err());
}

#[test]
fn manifests_hold_a_bounded_number_of_actions() {
    let block = "[DELETE_SHORTCUT]\nPath=C:\\a.lnk\n";
    let full = block.repeat(MAX_ACTIONS);
    assert_eq!(parse(&full).unwrap().actions.len(), MAX_ACTIONS);
    assert!(parse(&block.repeat(MAX_ACTIONS + 1)).is_err());
}

#[test]
fn icons_and_styles_are_read() {
    let manifest = parse(
        "[SHORTCUT]\nTarget=C:\\a.exe\nOutput=C:\\a.lnk\nIcon=C:\\a.dll,3\nStyle=minimized\n",
    )
    .unwrap();
    let Action::Create(create) = &manifest.actions[0] else {
        panic!("not create")
    };
    assert_eq!(create.icon_path.as_deref(), Some("C:\\a.dll"));
    assert_eq!(create.icon_index, 3);
    assert_eq!(create.style, ShowStyle::Minimized);
}
