//! Values and files as JSON, and the bytes that the registry stores.
use vstd::prelude::*;

use crate::doc::{
    array, doc_text, doc_texts, field, field_texts, fields_text, list_text, object, sound, Doc,
};
use crate::json::{jbool, jopt_string, jstr};
use crate::model::{
    copy_bytes, path_text, type_id_of, type_name_of, BlockView, DataView, EntryView, FileView,
    KeyBlock, RegData, RegFile, ValueEntry, ValueName, REG_DWORD, REG_SZ,
};
use crate::number::{hex_of, push_hex, to_dec};
use crate::text::{chars_of, join, joined, views, views_push};
use crate::utf16::{bytes_le, encode, push_units_le, units_of};

verus! {

/// The four bytes of a number, lowest first.
pub open spec fn dword_bytes(v: u32) -> Seq<u8> {
    seq![
        (v % 256) as u8,
        (v / 0x100 % 256) as u8,
        (v / 0x1_0000 % 256) as u8,
        (v / 0x100_0000 % 256) as u8,
    ]
}

/// Appends the four bytes of a number, lowest first.
pub fn push_dword(out: &mut Vec<u8>, v: u32)
    ensures
        final(out)@ == old(out)@ + dword_bytes(v),
{
    let ghost before = out@;
    out.push((v % 256) as u8);
    out.push((v / 0x100 % 256) as u8);
    out.push((v / 0x1_0000 % 256) as u8);
    out.push((v / 0x100_0000 % 256) as u8);
    assert(out@ =~= before + dword_bytes(v));
}

/// The type id and the bytes under which the registry stores data; none for a
/// deletion.
pub open spec fn raw_of(d: DataView) -> Option<(u32, Seq<u8>)> {
    match d {
        DataView::Delete => None,
        DataView::Sz(s) => Some((REG_SZ, bytes_le(units_of(s).push(0)))),
        DataView::Dword(v) => Some((REG_DWORD, dword_bytes(v))),
        DataView::Hex { ty, bytes } => Some((ty, bytes)),
    }
}

/// Stored data as a view.
pub open spec fn raw_view(r: Option<(u32, Vec<u8>)>) -> Option<(u32, Seq<u8>)> {
    match r {
        Some((ty, bytes)) => Some((ty, bytes@)),
        None => None,
    }
}

/// The type id and the bytes under which the registry stores data.
pub fn data_to_raw(data: &RegData) -> (r: Option<(u32, Vec<u8>)>)
    ensures
        raw_view(r) == raw_of(data@),
{
    match data {
        RegData::Delete => None,
        RegData::Sz(s) => {
            let chars = chars_of(s.as_str());
            let mut units = encode(chars.as_slice());
            units.push(0);
            let mut bytes: Vec<u8> = Vec::new();
            push_units_le(&mut bytes, units.as_slice());
            assert(bytes@ =~= bytes_le(units@));
            Some((REG_SZ, bytes))
        },
        RegData::Dword(v) => {
            let mut bytes: Vec<u8> = Vec::new();
            push_dword(&mut bytes, *v);
            assert(bytes@ =~= dword_bytes(*v));
            Some((REG_DWORD, bytes))
        },
        RegData::Hex { ty, bytes } => Some((*ty, copy_bytes(bytes.as_slice()))),
    }
}

/// Bytes in hexadecimal with spaces between them.
pub open spec fn spaced_hex(bytes: Seq<u8>) -> Seq<char> {
    joined(bytes.map_values(|b: u8| hex_of(b as nat, 2)), " "@)
}

/// Bytes in hexadecimal with spaces between them.
pub fn to_spaced_hex(bytes: &[u8]) -> (out: String)
    ensures
        out@ == spaced_hex(bytes@),
{
    broadcast use views_push;

    let mut parts: Vec<String> = Vec::new();
    for i in 0..bytes.len()
        invariant
            views(parts@) =~= bytes@.take(i as int).map_values(|b: u8| hex_of(b as nat, 2)),
    {
        let mut one = String::new();
        push_hex(&mut one, bytes[i] as u64, 2);
        assert(one@ =~= hex_of(bytes@[i as int] as nat, 2));
        let ghost before = parts@;
        parts.push(one);
        assert(views(parts@) == views(before).push(one@));
    }
    assert(bytes@.take(bytes@.len() as int) =~= bytes@);
    join(parts.as_slice(), " ")
}

/// A text, or nothing.
pub open spec fn opt_doc(s: Option<Seq<char>>) -> Doc {
    match s {
        Some(t) => Doc::Text(t),
        None => Doc::Null,
    }
}

/// The fields of a value: its name, nothing for the default value, and the exact
/// type and bytes under which it is stored, nothing for a deletion.
pub open spec fn value_fields(v: EntryView) -> Seq<(Seq<char>, Doc)> {
    let (id, raw) = match raw_of(v.data) {
        Some((ty, bytes)) => (Doc::Number(ty as nat), Doc::Text(spaced_hex(bytes))),
        None => (Doc::Null, Doc::Null),
    };
    seq![
        ("name"@, opt_doc(v.name)),
        ("type"@, Doc::Text(type_name_of(type_id_of(v.data)))),
        ("typeId"@, id),
        ("raw"@, raw),
    ]
}

/// A value as a document.
pub open spec fn value_doc(v: EntryView) -> Doc {
    Doc::Fields(value_fields(v))
}

/// A value as JSON.
pub open spec fn value_json(v: EntryView) -> Seq<char> {
    doc_text(value_doc(v))
}

/// A value as JSON.
pub fn value_to_json(v: &ValueEntry) -> (out: String)
    ensures
        out@ == value_json(v@),
{
    let name = match &v.name {
        ValueName::Default => None,
        ValueName::Named(n) => Some(n.clone()),
    };
    let (id, raw) = match data_to_raw(&v.data) {
        Some((ty, bytes)) => (
            to_dec(ty as u64),
            jstr(to_spaced_hex(bytes.as_slice()).as_str()),
        ),
        None => ("null".to_owned(), "null".to_owned()),
    };
    let fields = vec![
        field("name", jopt_string(&name).as_str()),
        field("type", jstr(v.data.type_label()).as_str()),
        field("typeId", id.as_str()),
        field("raw", raw.as_str()),
    ];
    proof {
        fields_text(value_fields(v@));
        assert(views(fields@) =~= field_texts(value_fields(v@)));
    }
    object(fields.as_slice())
}

/// Values as documents.
pub open spec fn value_docs(values: Seq<EntryView>) -> Seq<Doc> {
    values.map_values(|v: EntryView| value_doc(v))
}

/// The fields of a key block.
pub open spec fn block_fields(b: BlockView) -> Seq<(Seq<char>, Doc)> {
    seq![
        ("path"@, Doc::Text(path_text(b.path))),
        ("delete"@, Doc::Flag(b.delete)),
        ("values"@, Doc::List(value_docs(b.values))),
    ]
}

/// A key block as a document.
pub open spec fn block_doc(b: BlockView) -> Doc {
    Doc::Fields(block_fields(b))
}

/// Key blocks as documents.
pub open spec fn block_docs(keys: Seq<BlockView>) -> Seq<Doc> {
    keys.map_values(|b: BlockView| block_doc(b))
}

/// A file as a document. Line numbers, dialect and encoding are no part of it.
pub open spec fn file_doc(f: FileView) -> Doc {
    Doc::Fields(seq![("keys"@, Doc::List(block_docs(f.keys)))])
}

/// A file as JSON.
pub open spec fn file_json(f: FileView) -> Seq<char> {
    doc_text(file_doc(f))
}

fn block_to_json(b: &KeyBlock) -> (out: String)
    ensures
        out@ == doc_text(block_doc(b@)),
{
    broadcast use views_push;

    let ghost all = views(b.values@);
    let mut parts: Vec<String> = Vec::new();
    for i in 0..b.values.len()
        invariant
            all == views(b.values@),
            views(parts@) =~= doc_texts(value_docs(all.take(i as int))),
    {
        let one = value_to_json(&b.values[i]);
        let ghost before = parts@;
        parts.push(one);
        assert(views(parts@) == views(before).push(one@));
    }
    assert(all.take(all.len() as int) =~= all);
    let fields = vec![
        field("path", jstr(b.path.to_string().as_str()).as_str()),
        field("delete", jbool(b.delete)),
        field("values", array(parts.as_slice()).as_str()),
    ];
    proof {
        list_text(value_docs(all));
        fields_text(block_fields(b@));
        assert(views(fields@) =~= field_texts(block_fields(b@)));
    }
    object(fields.as_slice())
}

/// A file as JSON.
pub fn to_json(file: &RegFile) -> (out: String)
    ensures
        out@ == file_json(file@),
{
    broadcast use views_push;

    let ghost all = views(file.keys@);
    let mut parts: Vec<String> = Vec::new();
    for i in 0..file.keys.len()
        invariant
            all == views(file.keys@),
            views(parts@) =~= doc_texts(block_docs(all.take(i as int))),
    {
        let one = block_to_json(&file.keys[i]);
        let ghost before = parts@;
        parts.push(one);
        assert(views(parts@) == views(before).push(one@));
    }
    assert(all.take(all.len() as int) =~= all);
    let fields = vec![field("keys", array(parts.as_slice()).as_str())];
    proof {
        let fs = seq![("keys"@, Doc::List(block_docs(all)))];
        list_text(block_docs(all));
        fields_text(fs);
        assert(views(fields@) =~= field_texts(fs));
    }
    object(fields.as_slice())
}

// ---------------------------------------------------------------------------
// Soundness
// ---------------------------------------------------------------------------

/// A value can be written as a document and read again.
pub proof fn values_are_sound(v: EntryView)
    ensures
        sound(value_doc(v), 1),
{
    let fs = value_fields(v);
    reveal_strlit("name");
    reveal_strlit("type");
    reveal_strlit("typeId");
    reveal_strlit("raw");
    assert("name"@.len() == 4 && "type"@.len() == 4 && "typeId"@.len() == 6 && "raw"@.len() == 3);
    assert("name"@[0] == 'n' && "type"@[0] == 't');
    assert forall|i: int| 0 <= i < fs.len() implies sound((#[trigger] fs[i]).1, 0) by {}
}

/// A key block can be written as a document and read again.
pub proof fn blocks_are_sound(b: BlockView)
    ensures
        sound(block_doc(b), 3),
{
    let fs = block_fields(b);
    reveal_strlit("path");
    reveal_strlit("delete");
    reveal_strlit("values");
    assert("path"@.len() == 4 && "delete"@.len() == 6 && "values"@.len() == 6);
    assert("delete"@[0] == 'd' && "values"@[0] == 'v');
    let items = value_docs(b.values);
    assert forall|i: int| 0 <= i < items.len() implies sound(#[trigger] items[i], 1) by {
        values_are_sound(b.values[i]);
    }
    assert(sound(Doc::List(items), 2));
    assert forall|i: int| 0 <= i < fs.len() implies sound((#[trigger] fs[i]).1, 2) by {}
}

/// A file can be written as a document and read again.
pub proof fn files_are_sound(f: FileView)
    ensures
        sound(file_doc(f), 5),
{
    let items = block_docs(f.keys);
    assert forall|i: int| 0 <= i < items.len() implies sound(#[trigger] items[i], 3) by {
        blocks_are_sound(f.keys[i]);
    }
    assert(sound(Doc::List(items), 4));
    let fs = seq![("keys"@, Doc::List(items))];
    assert forall|i: int| 0 <= i < fs.len() implies sound((#[trigger] fs[i]).1, 4) by {}
    assert(file_doc(f) == Doc::Fields(fs));
}

} // verus!
