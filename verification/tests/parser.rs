use regx::encoding::SourceEncoding;
use regx::model::{RegData, RegFormat, ValueName, REG_BINARY, REG_QWORD};
use regx::parser::{
    is_hex_continuation, parse_bytes, parse_str, parse_value_name, unquote, ParseOutcome, Parser,
    Severity,
};

fn parse(s: &str) -> ParseOutcome {
    parse_str(s, SourceEncoding::Utf16Le)
}

fn chars(s: &str) -> Vec<char> {
    s.chars().collect()
}

#[test]
fn backslash_in_string_is_not_a_continuation() {
    let out = parse("Windows Registry Editor Version 5.00\r\n\r\n[HKEY_CURRENT_USER\\A]\r\n\"p\"=\"C:\\\\Temp\\\\\"\r\n");
    assert!(!out.has_errors(), "{:?}", out.diagnostics);
    let v = &out.file.keys[0].values[0];
    assert_eq!(v.data, RegData::Sz("C:\\Temp\\".into()));
}

#[test]
fn hex_continuation_is_folded() {
    let out = parse(
        "Windows Registry Editor Version 5.00\r\n\r\n[HKEY_CURRENT_USER\\A]\r\n\"b\"=hex:01,02,\\\r\n  03,04\r\n",
    );
    assert!(!out.has_errors(), "{:?}", out.diagnostics);
    assert_eq!(
        out.file.keys[0].values[0].data,
        RegData::Hex {
            ty: REG_BINARY,
            bytes: vec![1, 2, 3, 4]
        }
    );
}

#[test]
fn typed_hex_and_delete_forms() {
    let out = parse(
        "REGEDIT4\r\n[-HKEY_CURRENT_USER\\Gone]\r\n[HKEY_CURRENT_USER\\A]\r\n@=\"def\"\r\n\"q\"=hex(b):01,00,00,00,00,00,00,00\r\n\"drop\"=-\r\n",
    );
    assert!(!out.has_errors(), "{:?}", out.diagnostics);
    assert_eq!(out.file.format, RegFormat::V4);
    assert!(out.file.keys[0].delete);
    let a = &out.file.keys[1];
    assert_eq!(a.values[0].name, ValueName::Default);
    assert_eq!(a.values[1].data.type_id(), Some(REG_QWORD));
    assert_eq!(a.values[2].data, RegData::Delete);
}

#[test]
fn missing_multi_sz_terminator_warns() {
    let out = parse(
        "Windows Registry Editor Version 5.00\r\n[HKEY_CURRENT_USER\\A]\r\n\"m\"=hex(7):61,00\r\n",
    );
    assert!(!out.has_errors());
    assert!(out
        .diagnostics
        .iter()
        .any(|d| d.message.contains("double NUL")));
}

#[test]
fn rejects_embedded_nul_and_counts_win32_utf16_limits() {
    let key = parse(
        "Windows Registry Editor Version 5.00\r\n\
         [HKEY_CURRENT_USER\\Visible\0Hidden]\r\n",
    );
    assert!(key.has_errors());
    assert!(key.file.keys.is_empty());

    let value = parse(
        "Windows Registry Editor Version 5.00\r\n\
         [HKEY_CURRENT_USER\\A]\r\n\
         \"Visible\0Hidden\"=\"x\"\r\n",
    );
    assert!(value.has_errors());
    assert!(value.file.keys[0].values.is_empty());

    let too_long = "😀".repeat(8_192); // 16,384 UTF-16 code units.
    let value = parse(&format!(
        "Windows Registry Editor Version 5.00\r\n\
         [HKEY_CURRENT_USER\\A]\r\n\
         \"{too_long}\"=\"x\"\r\n"
    ));
    assert!(value.has_errors());
    assert!(value
        .diagnostics
        .iter()
        .any(|diagnostic| diagnostic.message.contains("16,383 UTF-16")));
}

#[test]
fn a_file_without_a_header_is_reported() {
    let out = parse("[HKEY_CURRENT_USER\\A]\r\n");
    assert!(!out.diagnostics.is_empty());
    assert_eq!(out.diagnostics[0].line, 1);
}

#[test]
fn a_bad_value_is_reported_with_its_line() {
    let out = parse("REGEDIT4\r\n[HKEY_CURRENT_USER\\A]\r\n\"x\"=dword:zz\r\n\"y\"=dword:0a\r\n");
    assert!(out.has_errors());
    assert!(out
        .diagnostics
        .iter()
        .any(|d| d.line == 3 && d.severity == Severity::Error));
    assert_eq!(out.file.keys[0].values.len(), 1);
    assert_eq!(out.file.keys[0].values[0].data, RegData::Dword(10));
    assert_eq!(out.file.keys[0].values[0].line, 4);
}

#[test]
fn quoted_text_is_unescaped() {
    assert_eq!(
        unquote(&chars("\"a\\\\b\\\"c\"rest")),
        Ok((chars("a\\b\"c"), 9))
    );
    assert!(unquote(&chars("\"open")).is_err());
}

#[test]
fn value_names_end_at_the_equals_sign() {
    let line = chars("\"Na=me\"=dword:1");
    let (name, rest) = parse_value_name(&line).unwrap();
    assert_eq!(name, ValueName::Named("Na=me".to_string()));
    assert_eq!(rest, &chars("=dword:1")[..]);
    let line = chars("@=-");
    let (name, rest) = parse_value_name(&line).unwrap();
    assert_eq!(name, ValueName::Default);
    assert_eq!(rest, &['=', '-']);
    assert!(parse_value_name(&chars("plain=1")).is_err());
}

#[test]
fn only_hex_lines_go_on() {
    assert!(is_hex_continuation(&chars("\"b\"=hex:01,\\")));
    assert!(is_hex_continuation(&chars("\"b\"=hex(2):01,\\")));
    assert!(!is_hex_continuation(&chars("\"b\"=\"x\\")));
    assert!(is_hex_continuation(&chars("@ = HEX:01,\\")));
    assert!(!is_hex_continuation(&chars("\"b\"=hex:01,")));
    assert!(!is_hex_continuation(&chars("[HKEY_CURRENT_USER\\a=hex:\\")));
}

#[test]
fn an_equals_sign_in_a_name_does_not_begin_the_payload() {
    assert!(is_hex_continuation(&chars("\"a=b\"=hex:01,\\")));
    assert!(!is_hex_continuation(&chars("\"x=hex\"=\"..\\")));
    let out = parse_str(
        "Windows Registry Editor Version 5.00\r\n\r\n[HKEY_CURRENT_USER\\A]\r\n\"a=b\"=hex:01,\\\r\n  02\r\n",
        SourceEncoding::Utf8,
    );
    assert!(!out.has_errors(), "{:?}", out.diagnostics);
    assert_eq!(
        out.file.keys[0].values[0].data,
        RegData::Hex {
            ty: 3,
            bytes: vec![1, 2]
        }
    );
}

#[test]
fn bytes_are_decoded_by_their_mark() {
    let text = "REGEDIT4\r\n[HKEY_CURRENT_USER\\Ünïcode]\r\n";
    let mut wide = vec![0xff, 0xfe];
    for unit in text.encode_utf16() {
        wide.extend_from_slice(&unit.to_le_bytes());
    }
    let out = parse_bytes(&wide, None);
    assert!(!out.has_errors(), "{:?}", out.diagnostics);
    assert_eq!(out.file.encoding, SourceEncoding::Utf16Le);
    assert_eq!(out.file.keys[0].path.sub, "Ünïcode");

    let out = parse_bytes(&[0xff, 0xfe, 0x00, 0xd8], None);
    assert!(out.has_errors());
}

#[test]
fn every_kind_of_data_reads_back_from_its_line() {
    let text = "Windows Registry Editor Version 5.00\r\n\
                [HKEY_CURRENT_USER\\A\\B]\r\n\
                @=\"say \\\"hi\\\" \\\\o\"\r\n\
                \"a\\\\b\"=dword:0000002a\r\n\
                \"bin\"=hex:00,ff\r\n\
                \"none\"=hex:\r\n\
                \"odd\"=hex(1234):01\r\n\
                \"gone\"=-\r\n\
                [-HKEY_LOCAL_MACHINE\\Gone]\r\n";
    let out = parse(text);
    assert!(!out.has_errors(), "{:?}", out.diagnostics);
    assert_eq!(out.file.keys.len(), 2);
    let v = &out.file.keys[0].values;
    assert_eq!(v[0].data, RegData::Sz("say \"hi\" \\o".to_string()));
    assert_eq!(v[1].name, ValueName::Named("a\\b".to_string()));
    assert_eq!(v[1].data, RegData::Dword(42));
    assert_eq!(
        v[2].data,
        RegData::Hex {
            ty: REG_BINARY,
            bytes: vec![0, 255]
        }
    );
    assert_eq!(
        v[3].data,
        RegData::Hex {
            ty: REG_BINARY,
            bytes: vec![]
        }
    );
    assert_eq!(
        v[4].data,
        RegData::Hex {
            ty: 0x1234,
            bytes: vec![1]
        }
    );
    assert_eq!(v[5].data, RegData::Delete);
    assert_eq!(v[5].line, 8);
    assert!(out.file.keys[1].delete);
}

#[test]
fn typed_bytes_are_kept_whatever_their_shape() {
    let out = parse(
        "Windows Registry Editor Version 5.00\r\n\r\n[HKEY_CURRENT_USER\\A]\r\n\"d\"=hex(4):01\r\n\"s\"=HEX(1):41,00,FF\r\n\"x\"=hex(ffffffff):\r\n\"b\"=hex(3):0a\r\n",
    );
    assert!(!out.has_errors(), "{:?}", out.diagnostics);
    assert_eq!(out.diagnostics.len(), 2);
    assert!(out.diagnostics.iter().all(|d| d.severity == Severity::Warning));
    let data: Vec<_> = out.file.keys[0].values.iter().map(|v| &v.data).collect();
    let hex = |ty: u32, bytes: &[u8]| RegData::Hex {
        ty,
        bytes: bytes.to_vec(),
    };
    assert_eq!(data[0], &hex(4, &[1]));
    assert_eq!(data[1], &hex(1, &[0x41, 0, 0xff]));
    assert_eq!(data[2], &hex(0xffff_ffff, &[]));
    assert_eq!(data[3], &hex(3, &[10]));
}

#[test]
fn data_is_read_from_the_right_hand_side() {
    let mut p = Parser::new();
    assert_eq!(
        p.parse_data(1, &chars("hex(7):00,ff")),
        Some(RegData::Hex {
            ty: 7,
            bytes: vec![0, 0xff]
        })
    );
    assert_eq!(p.parse_data(1, &chars("-")), Some(RegData::Delete));
    assert_eq!(p.parse_data(1, &chars("hex(:00")), None);
}
