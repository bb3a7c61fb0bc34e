//! Reading the key blocks that a document records, as `writer` writes them.
use vstd::prelude::*;
use vstd::slice::slice_subrange;

use crate::doc::{
    at, child, count_in, decimals_are_slash_free, field_found, flag_in, item_found, number_in,
    slash_free, step_behind, text_in, Doc,
};
use crate::document::{
    count_at, flag_at, json_count_at, json_flag_at, json_number_at, json_text_at, number_at, plain,
    reads_as, text_at,
};
use crate::model::{
    hive_named, hive_names_are_upper_case, hive_reads_back, long_name_of, path_text, BlockView,
    DataView, EntryView, FileView, Hive, KeyBlock, PathView, RegData, RegPath, ValueEntry,
    ValueName, REG_DWORD, REG_SZ,
};
use crate::number::{dec_of, push_dec};
use crate::parser::{read_tokens, token_bytes};
use crate::parser_laws::{first_of_concat, no_separator, separated_bytes_read_back};
use crate::text::{
    chars_of, concat, contains_char, debug_text, find_char, first_of, split, split_by, string_of, to_debug, views,
    views_push,
};
use crate::utf16::{decode, decoded, read_units_le, units_le};
use crate::writer::{
    block_doc, block_docs, block_fields, data_to_raw, dword_bytes, file_doc, raw_of, value_doc,
    value_docs, value_fields,
};

verus! {

// ---------------------------------------------------------------------------
// Data
// ---------------------------------------------------------------------------

/// The number that four bytes store, lowest first.
pub open spec fn dword_of(bytes: Seq<u8>) -> u32 {
    (bytes[0] + bytes[1] * 0x100 + bytes[2] * 0x1_0000 + bytes[3] * 0x100_0000) as u32
}

/// The text that bytes store with a terminator behind it.
pub open spec fn stored_text(bytes: Seq<u8>) -> Option<Seq<char>> {
    let units = units_le(bytes);
    if units.len() == 0 {
        None
    } else {
        decoded(units.drop_last())
    }
}

/// The data that a type and bytes stand for: text or a number where these are
/// stored as exactly those bytes, and the bytes themselves otherwise.
pub open spec fn data_stored(ty: u32, bytes: Seq<u8>) -> DataView {
    if ty == REG_DWORD && bytes.len() == 4 && dword_bytes(dword_of(bytes)) == bytes {
        DataView::Dword(dword_of(bytes))
    } else if ty == REG_SZ && stored_text(bytes) is Some && raw_of(
        DataView::Sz(stored_text(bytes)->0),
    ) == Some((ty, bytes)) {
        DataView::Sz(stored_text(bytes)->0)
    } else {
        DataView::Hex { ty, bytes }
    }
}

/// Data is stored as it was read.
pub proof fn data_is_stored_as_read(ty: u32, bytes: Seq<u8>)
    ensures
        raw_of(data_stored(ty, bytes)) == Some((ty, bytes)),
{
}

fn same_bytes(a: &[u8], b: &[u8]) -> (r: bool)
    ensures
        r == (a@ == b@),
{
    if a.len() != b.len() {
        return false;
    }
    for i in 0..a.len()
        invariant
            a@.len() == b@.len(),
            forall|j: int| 0 <= j < i ==> a@[j] == b@[j],
    {
        if a[i] != b[i] {
            return false;
        }
    }
    assert(a@ =~= b@);
    true
}

fn read_dword(bytes: &[u8]) -> (r: u32)
    requires
        bytes@.len() == 4,
    ensures
        r == dword_of(bytes@),
{
    bytes[0] as u32 + bytes[1] as u32 * 0x100 + bytes[2] as u32 * 0x1_0000 + bytes[3] as u32
        * 0x100_0000
}

fn read_text(bytes: &[u8]) -> (r: Option<String>)
    ensures
        crate::text::opt_text(r) == stored_text(bytes@),
{
    let mut units = read_units_le(bytes);
    if units.len() == 0 {
        return None;
    }
    let ghost all = units@;
    units.pop();
    assert(units@ =~= all.drop_last());
    match decode(units.as_slice()) {
        Some(chars) => Some(string_of(chars.as_slice())),
        None => None,
    }
}

fn stored_data(ty: u32, bytes: Vec<u8>) -> (r: RegData)
    ensures
        r@ == data_stored(ty, bytes@),
{
    if ty == REG_DWORD && bytes.len() == 4 {
        let v = read_dword(bytes.as_slice());
        if let Some((_, raw)) = data_to_raw(&RegData::Dword(v)) {
            if same_bytes(raw.as_slice(), bytes.as_slice()) {
                return RegData::Dword(v);
            }
        }
    } else if ty == REG_SZ {
        if let Some(text) = read_text(bytes.as_slice()) {
            let data = RegData::Sz(text);
            if let Some((_, raw)) = data_to_raw(&data) {
                if same_bytes(raw.as_slice(), bytes.as_slice()) {
                    return data;
                }
            }
        }
    }
    RegData::Hex { ty, bytes }
}

// ---------------------------------------------------------------------------
// Values
// ---------------------------------------------------------------------------

/// The value at a place of a document. Without a type it is deleted.
pub open spec fn value_at(bytes: Seq<u8>, place: Seq<char>) -> Result<EntryView, Seq<char>> {
    let name = json_text_at(bytes, place + "/"@ + "name"@);
    if name is Some && name->0.contains('\0') {
        Err("value name contains an embedded NUL"@)
    } else {
        match json_number_at(bytes, place + "/"@ + "typeId"@) {
            None => Ok(EntryView { name, data: DataView::Delete, line: 0 }),
            Some(id) => if id > u32::MAX {
                Err("a value has an impossible type"@)
            } else {
                match json_text_at(bytes, place + "/"@ + "raw"@) {
                    None => Err("a value has no data"@),
                    Some(raw) => match token_bytes(Seq::empty(), split_by(raw, ' ')) {
                        Err(token) => Err("invalid byte "@ + debug_text(token)),
                        Ok(data) => Ok(
                            EntryView { name, data: data_stored(id as u32, data), line: 0 },
                        ),
                    },
                }
            },
        }
    }
}

/// A value, or why it cannot be read.
pub open spec fn entry_result(r: Result<ValueEntry, String>) -> Result<EntryView, Seq<char>> {
    match r {
        Ok(v) => Ok(v@),
        Err(e) => Err(e@),
    }
}

fn place_of(place: &str, name: &str) -> (r: String)
    ensures
        r@ == place@ + "/"@ + name@,
{
    let mut out = concat(place, "/");
    out.append(name);
    out
}

fn read_value(bytes: &[u8], place: &str) -> (r: Result<ValueEntry, String>)
    ensures
        entry_result(r) == value_at(bytes@, place@),
{
    let name = match text_at(bytes, place_of(place, "name").as_str()) {
        Some(n) => {
            if contains_char(chars_of(n.as_str()).as_slice(), '\0') {
                return Err("value name contains an embedded NUL".to_owned());
            }
            ValueName::Named(n)
        },
        None => ValueName::Default,
    };
    let id = match number_at(bytes, place_of(place, "typeId").as_str()) {
        Some(id) => id,
        None => {
            return Ok(ValueEntry { name, data: RegData::Delete, line: 0 });
        },
    };
    if id > u32::MAX as u64 {
        return Err("a value has an impossible type".to_owned());
    }
    let raw = match text_at(bytes, place_of(place, "raw").as_str()) {
        Some(raw) => raw,
        None => {
            return Err("a value has no data".to_owned());
        },
    };
    let chars = chars_of(raw.as_str());
    let tokens = split(chars.as_slice(), ' ');
    match read_tokens(&tokens) {
        Ok(data) => Ok(ValueEntry { name, data: stored_data(id as u32, data), line: 0 }),
        Err(token) => Err(concat("invalid byte ", to_debug(token.as_str()).as_str())),
    }
}

/// The values of a list from `i` on, behind those already read.
pub open spec fn values_from(
    bytes: Seq<u8>,
    list: Seq<char>,
    done: Seq<EntryView>,
    i: nat,
    count: nat,
) -> Result<Seq<EntryView>, Seq<char>>
    decreases count - i,
{
    if i >= count {
        Ok(done)
    } else {
        match value_at(bytes, list + "/"@ + dec_of(i)) {
            Err(e) => Err(e),
            Ok(v) => values_from(bytes, list, done.push(v), i + 1, count),
        }
    }
}

fn numbered(list: &str, i: usize) -> (r: String)
    ensures
        r@ == list@ + "/"@ + dec_of(i as nat),
{
    let mut out = concat(list, "/");
    push_dec(&mut out, i as u64);
    out
}

fn read_values(bytes: &[u8], list: &str, count: usize) -> (r: Result<Vec<ValueEntry>, String>)
    ensures
        match r {
            Ok(vs) => values_from(bytes@, list@, Seq::empty(), 0, count as nat) == Ok::<
                Seq<EntryView>,
                Seq<char>,
            >(views(vs@)),
            Err(e) => values_from(bytes@, list@, Seq::empty(), 0, count as nat) == Err::<
                Seq<EntryView>,
                Seq<char>,
            >(e@),
        },
{
    broadcast use views_push;

    let mut out: Vec<ValueEntry> = Vec::new();
    assert(views(out@) =~= Seq::<EntryView>::empty());
    for i in 0..count
        invariant
            values_from(bytes@, list@, Seq::empty(), 0, count as nat) == values_from(
                bytes@,
                list@,
                views(out@),
                i as nat,
                count as nat,
            ),
    {
        let place = numbered(list, i);
        match read_value(bytes, place.as_str()) {
            Ok(v) => {
                let ghost before = out@;
                out.push(v);
                assert(views(out@) == views(before).push(v@));
            },
            Err(e) => {
                return Err(e);
            },
        }
    }
    Ok(out)
}

// ---------------------------------------------------------------------------
// Keys
// ---------------------------------------------------------------------------

/// The path that a document records: the name of the hive up to the first
/// backslash, and the subkey path as it stands behind it. A path with a NUL is
/// none.
pub open spec fn recorded_path(text: Seq<char>) -> Option<PathView> {
    let i = first_of(text, '\\');
    if text.contains('\0') {
        None
    } else {
        match hive_named(text.take(i)) {
            Some(hive) => Some(
                PathView {
                    hive,
                    sub: if i < text.len() {
                        text.skip(i + 1)
                    } else {
                        Seq::empty()
                    },
                },
            ),
            None => None,
        }
    }
}

fn read_path(text: &str) -> (r: Option<RegPath>)
    ensures
        match r {
            Some(p) => recorded_path(text@) == Some(p@),
            None => recorded_path(text@) is None,
        },
{
    let chars = chars_of(text);
    let s = chars.as_slice();
    if contains_char(s, '\0') {
        return None;
    }
    let i = find_char(s, '\\');
    match Hive::parse(string_of(slice_subrange(s, 0, i)).as_str()) {
        None => None,
        Some(hive) => {
            let sub = if i < s.len() {
                string_of(slice_subrange(s, i + 1, s.len()))
            } else {
                String::new()
            };
            assert(i >= s.len() ==> sub@ =~= Seq::<char>::empty());
            Some(RegPath { hive, sub })
        },
    }
}

/// Every path without a NUL is read back from its text.
pub proof fn recorded_paths_read_back(p: PathView)
    requires
        !p.sub.contains('\0'),
    ensures
        recorded_path(path_text(p)) == Some(p),
{
    reveal_strlit("\\");
    let name = long_name_of(p.hive);
    let t = path_text(p);
    hive_reads_back(p.hive);
    hive_names_are_upper_case(p.hive);
    assert forall|j: int| 0 <= j < name.len() implies #[trigger] name[j] != '\\' by {
        assert(name.contains(name[j]));
    }
    no_separator(name, '\\');
    assert(!t.contains('\0')) by {
        if t.contains('\0') {
            let k = choose|k: int| 0 <= k < t.len() && t[k] == '\0';
            if k < name.len() {
                assert(name[k] == '\0');
                assert(name.contains('\0'));
            } else if k > name.len() {
                assert(p.sub[k - name.len() - 1] == '\0');
                assert(p.sub.contains('\0'));
            }
        }
    }
    if p.sub.len() > 0 {
        first_of_concat(name, "\\"@ + p.sub, '\\');
        assert(t =~= name + ("\\"@ + p.sub));
        assert(("\\"@ + p.sub)[0] == '\\');
        assert(t.take(name.len() as int) =~= name);
        assert(t.skip(name.len() as int + 1) =~= p.sub);
    } else {
        assert(t.take(name.len() as int) =~= name);
        assert(p.sub =~= Seq::<char>::empty());
    }
}

/// The key block at a place of a document.
pub open spec fn block_at(bytes: Seq<u8>, place: Seq<char>) -> Result<BlockView, Seq<char>> {
    match json_text_at(bytes, place + "/"@ + "path"@) {
        None => Err("a key has no path"@),
        Some(text) => match recorded_path(text) {
            None => Err("invalid registry path "@ + debug_text(text)),
            Some(path) => match json_flag_at(bytes, place + "/"@ + "delete"@) {
                None => Err("a key does not tell whether it is deleted"@),
                Some(delete) => match json_count_at(bytes, place + "/"@ + "values"@) {
                    None => Err("a key has no values"@),
                    Some(count) => match values_from(
                        bytes,
                        place + "/"@ + "values"@,
                        Seq::empty(),
                        0,
                        count,
                    ) {
                        Err(e) => Err(e),
                        Ok(values) => Ok(BlockView { path, delete, values, line: 0 }),
                    },
                },
            },
        },
    }
}

fn read_block(bytes: &[u8], place: &str) -> (r: Result<KeyBlock, String>)
    ensures
        match r {
            Ok(b) => block_at(bytes@, place@) == Ok::<BlockView, Seq<char>>(b@),
            Err(e) => block_at(bytes@, place@) == Err::<BlockView, Seq<char>>(e@),
        },
{
    let text = match text_at(bytes, place_of(place, "path").as_str()) {
        Some(t) => t,
        None => {
            return Err("a key has no path".to_owned());
        },
    };
    let path = match read_path(text.as_str()) {
        Some(p) => p,
        None => {
            return Err(concat("invalid registry path ", to_debug(text.as_str()).as_str()));
        },
    };
    let delete = match flag_at(bytes, place_of(place, "delete").as_str()) {
        Some(b) => b,
        None => {
            return Err("a key does not tell whether it is deleted".to_owned());
        },
    };
    let list = place_of(place, "values");
    let count = match count_at(bytes, list.as_str()) {
        Some(n) => n,
        None => {
            return Err("a key has no values".to_owned());
        },
    };
    match read_values(bytes, list.as_str(), count) {
        Ok(values) => Ok(KeyBlock { path, delete, values, line: 0 }),
        Err(e) => Err(e),
    }
}

/// The key blocks of a list from `i` on, behind those already read.
pub open spec fn blocks_from(
    bytes: Seq<u8>,
    list: Seq<char>,
    done: Seq<BlockView>,
    i: nat,
    count: nat,
) -> Result<Seq<BlockView>, Seq<char>>
    decreases count - i,
{
    if i >= count {
        Ok(done)
    } else {
        match block_at(bytes, list + "/"@ + dec_of(i)) {
            Err(e) => Err(e),
            Ok(b) => blocks_from(bytes, list, done.push(b), i + 1, count),
        }
    }
}

/// The key blocks that a document records at a place.
pub open spec fn keys_at(bytes: Seq<u8>, place: Seq<char>) -> Result<Seq<BlockView>, Seq<char>> {
    match json_count_at(bytes, place + "/"@ + "keys"@) {
        None => Err("a state has no keys"@),
        Some(count) => blocks_from(bytes, place + "/"@ + "keys"@, Seq::empty(), 0, count),
    }
}

/// Reads the key blocks that a document records at a place.
pub fn read_keys(bytes: &[u8], place: &str) -> (r: Result<Vec<KeyBlock>, String>)
    ensures
        match r {
            Ok(keys) => keys_at(bytes@, place@) == Ok::<Seq<BlockView>, Seq<char>>(views(keys@)),
            Err(e) => keys_at(bytes@, place@) == Err::<Seq<BlockView>, Seq<char>>(e@),
        },
{
    broadcast use views_push;

    let list = place_of(place, "keys");
    let count = match count_at(bytes, list.as_str()) {
        Some(n) => n,
        None => {
            return Err("a state has no keys".to_owned());
        },
    };
    let mut out: Vec<KeyBlock> = Vec::new();
    assert(views(out@) =~= Seq::<BlockView>::empty());
    for i in 0..count
        invariant
            list@ == place@ + "/"@ + "keys"@,
            json_count_at(bytes@, list@) == Some(count as nat),
            keys_at(bytes@, place@) == blocks_from(
                bytes@,
                list@,
                views(out@),
                i as nat,
                count as nat,
            ),
    {
        let one = numbered(list.as_str(), i);
        match read_block(bytes, one.as_str()) {
            Ok(b) => {
                let ghost before = out@;
                out.push(b);
                assert(views(out@) == views(before).push(b@));
            },
            Err(e) => {
                return Err(e);
            },
        }
    }
    Ok(out)
}

// ---------------------------------------------------------------------------
// What is written reads back
// ---------------------------------------------------------------------------

/// A value as it is read back: its name, and data that is stored alike.
pub open spec fn reread_value(v: EntryView) -> EntryView {
    EntryView {
        name: v.name,
        data: match raw_of(v.data) {
            Some((ty, bytes)) => data_stored(ty, bytes),
            None => DataView::Delete,
        },
        line: 0,
    }
}

/// A key block as it is read back.
pub open spec fn reread_block(b: BlockView) -> BlockView {
    BlockView {
        path: b.path,
        delete: b.delete,
        values: b.values.map_values(|v: EntryView| reread_value(v)),
        line: 0,
    }
}

/// A name without a NUL.
pub open spec fn nul_free_name(name: Option<Seq<char>>) -> bool {
    name is Some ==> !name->0.contains('\0')
}

/// A key block whose path and value names hold no NUL, which no name in the
/// registry can.
pub open spec fn nul_free_block(b: BlockView) -> bool {
    &&& !b.path.sub.contains('\0')
    &&& forall|i: int| 0 <= i < b.values.len() ==> nul_free_name((#[trigger] b.values[i]).name)
}

/// Key blocks whose paths and value names hold no NUL.
pub open spec fn nul_free(keys: Seq<BlockView>) -> bool {
    forall|i: int| 0 <= i < keys.len() ==> nul_free_block(#[trigger] keys[i])
}

/// Key blocks as they are read back.
pub open spec fn reread(keys: Seq<BlockView>) -> Seq<BlockView> {
    keys.map_values(|b: BlockView| reread_block(b))
}

proof fn plain_behind(place: Seq<char>, token: Seq<char>)
    requires
        plain(place),
        plain(token),
    ensures
        plain(place + "/"@ + token),
{
    reveal_strlit("/");
    let whole = place + "/"@ + token;
    assert forall|i: int| 0 <= i < whole.len() implies #[trigger] whole[i] != '~' by {
        if i < place.len() {
            assert(whole[i] == place[i]);
        } else if i > place.len() {
            assert(whole[i] == token[i - place.len() - 1]);
        }
    }
}

proof fn token_names()
    ensures
        slash_free("name"@) && plain("name"@),
        slash_free("type"@) && plain("type"@),
        slash_free("typeId"@) && plain("typeId"@),
        slash_free("raw"@) && plain("raw"@),
        slash_free("path"@) && plain("path"@),
        slash_free("delete"@) && plain("delete"@),
        slash_free("values"@) && plain("values"@),
        slash_free("keys"@) && plain("keys"@),
        "name"@.len() == 4 && "name"@[0] == 'n',
        "type"@.len() == 4 && "type"@[0] == 't',
        "typeId"@.len() == 6,
        "raw"@.len() == 3,
        "path"@.len() == 4,
        "delete"@.len() == 6 && "delete"@[0] == 'd',
        "values"@.len() == 6 && "values"@[0] == 'v',
{
    reveal_strlit("name");
    reveal_strlit("type");
    reveal_strlit("typeId");
    reveal_strlit("raw");
    reveal_strlit("path");
    reveal_strlit("delete");
    reveal_strlit("values");
    reveal_strlit("keys");
}

proof fn value_children(v: EntryView)
    ensures
        ({
            let d = value_doc(v);
            let fs = value_fields(v);
            &&& child(d, "name"@) == Some(fs[0].1)
            &&& child(d, "typeId"@) == Some(fs[2].1)
            &&& child(d, "raw"@) == Some(fs[3].1)
        }),
{
    let fs = value_fields(v);
    token_names();
    assert(fs[0].0 == "name"@ && fs[1].0 == "type"@ && fs[2].0 == "typeId"@ && fs[3].0 == "raw"@);
    field_found(fs, 0);
    field_found(fs, 2);
    field_found(fs, 3);
}

proof fn block_children(b: BlockView)
    ensures
        ({
            let d = block_doc(b);
            &&& child(d, "path"@) == Some(Doc::Text(path_text(b.path)))
            &&& child(d, "delete"@) == Some(Doc::Flag(b.delete))
            &&& child(d, "values"@) == Some(Doc::List(value_docs(b.values)))
        }),
{
    let fs = block_fields(b);
    token_names();
    assert(fs[0].0 == "path"@ && fs[1].0 == "delete"@ && fs[2].0 == "values"@);
    field_found(fs, 0);
    field_found(fs, 1);
    field_found(fs, 2);
}

proof fn value_reads(bytes: Seq<u8>, d: Doc, place: Seq<char>, v: EntryView)
    requires
        reads_as(bytes, d),
        plain(place),
        at(d, place) == Some(value_doc(v)),
        nul_free_name(v.name),
    ensures
        value_at(bytes, place) == Ok::<EntryView, Seq<char>>(reread_value(v)),
{
    token_names();
    value_children(v);
    step_behind(d, place, "name"@);
    step_behind(d, place, "typeId"@);
    step_behind(d, place, "raw"@);
    plain_behind(place, "name"@);
    plain_behind(place, "typeId"@);
    plain_behind(place, "raw"@);
    assert(json_text_at(bytes, place + "/"@ + "name"@) == text_in(d, place + "/"@ + "name"@));
    assert(json_number_at(bytes, place + "/"@ + "typeId"@) == number_in(
        d,
        place + "/"@ + "typeId"@,
    ));
    assert(json_text_at(bytes, place + "/"@ + "raw"@) == text_in(d, place + "/"@ + "raw"@));
    if let Some((ty, raw)) = raw_of(v.data) {
        reveal_strlit(" ");
        assert(" "@ =~= seq![' ']);
        separated_bytes_read_back(raw, " "@, ' ');
    }
}

proof fn values_read(
    bytes: Seq<u8>,
    d: Doc,
    list: Seq<char>,
    values: Seq<EntryView>,
    done: Seq<EntryView>,
    i: nat,
)
    requires
        reads_as(bytes, d),
        plain(list),
        at(d, list) == Some(Doc::List(value_docs(values))),
        forall|k: int| 0 <= k < values.len() ==> nul_free_name((#[trigger] values[k]).name),
        i <= values.len(),
        done == values.take(i as int).map_values(|v: EntryView| reread_value(v)),
    ensures
        values_from(bytes, list, done, i, values.len()) == Ok::<Seq<EntryView>, Seq<char>>(
            values.map_values(|v: EntryView| reread_value(v)),
        ),
    decreases values.len() - i,
{
    if i < values.len() {
        let v = values[i as int];
        item_found(value_docs(values), i as int);
        decimals_are_slash_free(i);
        crate::saved_plan_laws::decimals_are_plain(i);
        step_behind(d, list, dec_of(i));
        plain_behind(list, dec_of(i));
        value_reads(bytes, d, list + "/"@ + dec_of(i), v);
        assert(done.push(reread_value(v)) =~= values.take(i as int + 1).map_values(
            |v: EntryView| reread_value(v),
        ));
        values_read(bytes, d, list, values, done.push(reread_value(v)), i + 1);
    } else {
        assert(values.take(i as int) =~= values);
    }
}

proof fn block_reads(bytes: Seq<u8>, d: Doc, place: Seq<char>, b: BlockView)
    requires
        reads_as(bytes, d),
        plain(place),
        at(d, place) == Some(block_doc(b)),
        nul_free_block(b),
    ensures
        block_at(bytes, place) == Ok::<BlockView, Seq<char>>(reread_block(b)),
{
    token_names();
    block_children(b);
    recorded_paths_read_back(b.path);
    step_behind(d, place, "path"@);
    step_behind(d, place, "delete"@);
    step_behind(d, place, "values"@);
    plain_behind(place, "path"@);
    plain_behind(place, "delete"@);
    plain_behind(place, "values"@);
    let list = place + "/"@ + "values"@;
    assert(json_text_at(bytes, place + "/"@ + "path"@) == text_in(d, place + "/"@ + "path"@));
    assert(json_flag_at(bytes, place + "/"@ + "delete"@) == flag_in(d, place + "/"@ + "delete"@));
    assert(json_count_at(bytes, list) == count_in(d, list));
    assert(value_docs(b.values).len() == b.values.len());
    let none = Seq::<EntryView>::empty();
    assert(none =~= b.values.take(0).map_values(|v: EntryView| reread_value(v)));
    values_read(bytes, d, list, b.values, none, 0);
}

proof fn blocks_read(
    bytes: Seq<u8>,
    d: Doc,
    list: Seq<char>,
    keys: Seq<BlockView>,
    done: Seq<BlockView>,
    i: nat,
)
    requires
        reads_as(bytes, d),
        plain(list),
        at(d, list) == Some(Doc::List(block_docs(keys))),
        nul_free(keys),
        i <= keys.len(),
        done == reread(keys.take(i as int)),
    ensures
        blocks_from(bytes, list, done, i, keys.len()) == Ok::<Seq<BlockView>, Seq<char>>(
            reread(keys),
        ),
    decreases keys.len() - i,
{
    if i < keys.len() {
        let b = keys[i as int];
        item_found(block_docs(keys), i as int);
        decimals_are_slash_free(i);
        crate::saved_plan_laws::decimals_are_plain(i);
        step_behind(d, list, dec_of(i));
        plain_behind(list, dec_of(i));
        block_reads(bytes, d, list + "/"@ + dec_of(i), b);
        assert(done.push(reread_block(b)) =~= reread(keys.take(i as int + 1)));
        blocks_read(bytes, d, list, keys, done.push(reread_block(b)), i + 1);
    } else {
        assert(keys.take(i as int) =~= keys);
    }
}

/// Where a document holds a file, its keys are read back: every path, every
/// name and every deletion as it was, and all data as it is stored.
pub proof fn recorded_keys_read_back(bytes: Seq<u8>, d: Doc, place: Seq<char>, f: FileView)
    requires
        reads_as(bytes, d),
        plain(place),
        at(d, place) == Some(file_doc(f)),
        nul_free(f.keys),
    ensures
        keys_at(bytes, place) == Ok::<Seq<BlockView>, Seq<char>>(reread(f.keys)),
{
    let fs = seq![("keys"@, Doc::List(block_docs(f.keys)))];
    token_names();
    field_found(fs, 0);
    step_behind(d, place, "keys"@);
    plain_behind(place, "keys"@);
    let list = place + "/"@ + "keys"@;
    assert(json_count_at(bytes, list) == count_in(d, list));
    assert(block_docs(f.keys).len() == f.keys.len());
    let none = Seq::<BlockView>::empty();
    assert(none =~= reread(f.keys.take(0)));
    blocks_read(bytes, d, list, f.keys, none, 0);
}

/// What is read back is written as before.
pub proof fn reread_keys_are_written_alike(keys: Seq<BlockView>)
    ensures
        block_docs(reread(keys)) == block_docs(keys),
{
    assert forall|i: int| 0 <= i < keys.len() implies block_doc(reread_block(#[trigger] keys[i]))
        == block_doc(keys[i]) by {
        let b = keys[i];
        let again = reread_block(b).values;
        assert forall|k: int| 0 <= k < b.values.len() implies value_doc(
            reread_value(#[trigger] b.values[k]),
        ) == value_doc(b.values[k]) by {
            if let Some((ty, raw)) = raw_of(b.values[k].data) {
                data_is_stored_as_read(ty, raw);
            }
        }
        assert(value_docs(again) =~= value_docs(b.values));
    }
    assert(block_docs(reread(keys)) =~= block_docs(keys));
}

} // verus!
