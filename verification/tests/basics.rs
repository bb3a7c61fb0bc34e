use regx::encoding::{decode_strict, encode_utf16le_bom, source_encoding, SourceEncoding};
use regx::json::{jstr, json_strings};
use regx::model::{RegData, ValueEntry, ValueName, REG_EXPAND_SZ};
use regx::number::{read_i32, read_unsigned, to_dec};
use regx::sha256::hash_hex;
use regx::utf16::{decode, encode};
use regx::writer::{data_to_raw, value_to_json};

fn chars(s: &str) -> Vec<char> {
    s.chars().collect()
}

#[test]
fn digests_are_those_of_the_standard() {
    assert_eq!(
        hash_hex(b""),
        "e3b0c44298fc1c149afbf4c8996fb92427ae41e4649b934ca495991b7852b855"
    );
    assert_eq!(
        hash_hex(b"abc"),
        "ba7816bf8f01cfea414140de5dae2223b00361a396177a9cb410ff61f20015ad"
    );
    assert_eq!(
        hash_hex(b"abcdbcdecdefdefgefghfghighijhijkijkljklmklmnlmnomnopnopq"),
        "248d6a61d20638b8e5c026930c3e6039a33ce45964ff2167f6ecedd419db06c1"
    );
    assert_eq!(
        hash_hex(&vec![b'a'; 1000]),
        "41edece42d63e8d9bf515a9ba6932e1c20cbc9f5a5d134645adb5db1b9737ea3"
    );
}

#[test]
fn text_reads_back_from_json() {
    for text in ["", "plain", "q\"b\\", "\u{0}\u{1f}\n\r\t", "Ünï😀", "\u{7f}\u{2028}"] {
        let read: serde_json::Value = serde_json::from_str(&jstr(text)).unwrap();
        assert_eq!(read, text);
    }
    assert_eq!(json_strings(&["a".to_string(), "b".to_string()]), "\"a\",\"b\"");
}

#[test]
fn text_reads_back_from_units() {
    for text in ["", "abc", "Ünï", "😀x😀"] {
        let units = encode(&chars(text));
        assert_eq!(units, text.encode_utf16().collect::<Vec<_>>());
        assert_eq!(decode(&units), Some(chars(text)));
    }
    assert_eq!(decode(&[0xd800]), None);
    assert_eq!(decode(&[0xdc00, 0x41]), None);
}

#[test]
fn files_are_decoded_by_their_marks() {
    let bytes = encode_utf16le_bom("aé😀");
    assert_eq!(source_encoding(&bytes), SourceEncoding::Utf16Le);
    assert_eq!(
        decode_strict(&bytes, None),
        Ok(("aé😀".to_string(), SourceEncoding::Utf16Le))
    );
    let mut utf8 = vec![0xef, 0xbb, 0xbf];
    utf8.extend_from_slice("é".as_bytes());
    assert_eq!(
        decode_strict(&utf8, None).map(|(text, _)| text),
        Ok("é".to_string())
    );
    assert!(decode_strict(&[0xff, 0xfe, 0x41], None).is_err());
    assert!(decode_strict(&[0xef, 0xbb, 0xbf, 0xff], None).is_err());
}

#[test]
fn numbers_are_read_within_their_bounds() {
    assert_eq!(to_dec(18_446_744_073_709_551_615), "18446744073709551615");
    assert_eq!(read_unsigned(&chars("ffffffff"), 16, u32::MAX), Some(u32::MAX));
    assert_eq!(read_unsigned(&chars("100000000"), 16, u32::MAX), None);
    assert_eq!(read_unsigned(&chars("+1f"), 16, 255), Some(31));
    assert_eq!(read_unsigned(&chars(""), 16, 255), None);
    assert_eq!(read_i32(&chars("-2147483648")), Some(i32::MIN));
    assert_eq!(read_i32(&chars("2147483648")), None);
    assert_eq!(read_i32(&chars("x")), None);
}

#[test]
fn data_is_stored_as_the_registry_has_it() {
    assert_eq!(
        data_to_raw(&RegData::Sz("A".to_string())),
        Some((1, vec![0x41, 0, 0, 0]))
    );
    assert_eq!(data_to_raw(&RegData::Dword(258)), Some((4, vec![2, 1, 0, 0])));
    assert_eq!(data_to_raw(&RegData::Delete), None);
    let entry = ValueEntry {
        name: ValueName::Default,
        data: RegData::Hex {
            ty: REG_EXPAND_SZ,
            bytes: vec![0xab, 0],
        },
        line: 0,
    };
    assert_eq!(
        value_to_json(&entry),
        "{\"name\":null,\"type\":\"REG_EXPAND_SZ\",\"typeId\":2,\"raw\":\"ab 00\"}"
    );
}
