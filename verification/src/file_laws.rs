//! A whole file reads back from its text.
use vstd::prelude::*;

use crate::encoding::{utf16_file_reads_back, utf16le_file, SourceEncoding};
use crate::model::{
    long_name_of, path_reads_back, path_text, BlockView, DataView, EntryView, PathView, RegFormat,
    REG_BINARY,
};
use crate::number::{hex_of, short_hex_of};
use crate::parser::{
    after_line, after_lines, announced, component_of, continues, data_of, escaped, header_at,
    is_filler, line_number, lines_of, parse_bytes_of, parse_of, quoted_text_reads_back, trailed,
    trailing_of, value_name_of, DiagView, Severity, StateView,
};
use crate::parser_laws::{
    all_digits, bytes_fit, digits_are_plain, fixed_hex_reads_back, hex_list, is_digit,
    short_hex_reads_back, split_of_concat, no_separator, words_fit, written,
    written_data_reads_back,
};
use crate::text::{
    begins_char, is_white, joined, last_of, lowered, split_by, stripped_end, trimmed,
    trimmed_start,
};
use crate::utf16::unit_count;

verus! {

// ---------------------------------------------------------------------------
// The text of a file
// ---------------------------------------------------------------------------

/// A value name as it is written.
pub open spec fn name_form(name: Option<Seq<char>>) -> Seq<char> {
    match name {
        None => seq!['@'],
        Some(n) => seq!['"'] + escaped(n) + seq!['"'],
    }
}

/// The line of a value.
pub open spec fn value_line(v: EntryView) -> Seq<char> {
    name_form(v.name) + (seq!['='] + written(v.data))
}

/// The line of a key.
pub open spec fn key_line(b: BlockView) -> Seq<char> {
    seq!['['] + (if b.delete {
        seq!['-'] + path_text(b.path)
    } else {
        path_text(b.path)
    }) + seq![']']
}

/// The lines of a key and its values.
pub open spec fn block_lines(b: BlockView) -> Seq<Seq<char>> {
    seq![key_line(b)] + b.values.map_values(|v: EntryView| value_line(v))
}

/// The lines of keys.
pub open spec fn keys_lines(keys: Seq<BlockView>) -> Seq<Seq<char>>
    decreases keys.len(),
{
    if keys.len() == 0 {
        Seq::empty()
    } else {
        block_lines(keys[0]) + keys_lines(keys.skip(1))
    }
}

/// Lines, each with its end.
pub open spec fn text_of(lines: Seq<Seq<char>>) -> Seq<char>
    decreases lines.len(),
{
    if lines.len() == 0 {
        Seq::empty()
    } else {
        lines[0] + seq!['\r'] + seq!['\n'] + text_of(lines.skip(1))
    }
}

/// The first line of a file.
pub open spec fn header_line() -> Seq<char> {
    "Windows Registry Editor Version 5.00"@
}

/// The text of a file with the given keys.
pub open spec fn file_text(keys: Seq<BlockView>) -> Seq<char> {
    text_of(seq![header_line()] + keys_lines(keys))
}

/// A text stays on one line.
pub open spec fn one_line(s: Seq<char>) -> bool {
    forall|i: int| 0 <= i < s.len() ==> #[trigger] s[i] != '\n'
}

/// A value that a line can hold: its name is one that the registry takes, and
/// no text in it breaks the line.
pub open spec fn writable_value(v: EntryView) -> bool {
    &&& v.name matches Some(n) ==> !n.contains('\0') && unit_count(n) <= 16_383 && one_line(n)
    &&& v.data matches DataView::Sz(s) ==> one_line(s)
}

/// A key that lines can hold: its path is one that reads back, and only a key
/// that stays has values.
pub open spec fn writable(b: BlockView) -> bool {
    &&& !b.path.sub.contains('\0')
    &&& b.path.sub.len() > 0 ==> b.path.sub[0] != '\\' && b.path.sub.last() != '\\' && !is_white(
        b.path.sub.last(),
    )
    &&& one_line(b.path.sub)
    &&& b.delete ==> b.values.len() == 0
    &&& forall|i: int| 0 <= i < b.values.len() ==> writable_value(#[trigger] b.values[i])
}

/// A value without its line number.
pub open spec fn bare_value(v: EntryView) -> EntryView {
    EntryView { line: 0, ..v }
}

/// A key without line numbers.
pub open spec fn bare(b: BlockView) -> BlockView {
    BlockView { line: 0, values: b.values.map_values(|v: EntryView| bare_value(v)), ..b }
}

/// Nothing but warnings.
pub open spec fn only_warnings(ds: Seq<DiagView>) -> bool {
    forall|i: int| 0 <= i < ds.len() ==> (#[trigger] ds[i]).severity == Severity::Warning
}

// ---------------------------------------------------------------------------
// Lines hold together
// ---------------------------------------------------------------------------

/// A line that is read as it stands: it neither begins nor ends with white
/// space, is no comment, goes on nowhere and breaks nowhere.
pub open spec fn tight(s: Seq<char>) -> bool {
    &&& s.len() > 0
    &&& !is_white(s[0])
    &&& !is_white(s.last())
    &&& s[0] != ';'
    &&& s.last() != '\\'
    &&& s.last() != '\r'
    &&& one_line(s)
}

proof fn tight_lines_stand(s: Seq<char>)
    requires
        tight(s),
    ensures
        trimmed(s) == s,
        !is_filler(s),
        !continues(s),
{
}

proof fn one_line_concat(a: Seq<char>, b: Seq<char>)
    requires
        one_line(a),
        one_line(b),
    ensures
        one_line(a + b),
{
    assert forall|i: int| 0 <= i < (a + b).len() implies #[trigger] (a + b)[i] != '\n' by {
        if i < a.len() {
            assert((a + b)[i] == a[i]);
        } else {
            assert((a + b)[i] == b[i - a.len()]);
        }
    }
}

proof fn escaped_stays_on_line(s: Seq<char>)
    requires
        one_line(s),
    ensures
        one_line(escaped(s)),
    decreases s.len(),
{
    if s.len() > 0 {
        let rest = s.skip(1);
        assert forall|i: int| 0 <= i < rest.len() implies #[trigger] rest[i] != '\n' by {
            assert(rest[i] == s[i + 1]);
        }
        escaped_stays_on_line(rest);
        assert(s[0] != '\n');
        if s[0] == '\\' || s[0] == '"' {
            one_line_concat(seq!['\\', s[0]], escaped(rest));
        } else {
            one_line_concat(seq![s[0]], escaped(rest));
        }
    }
}

proof fn quoted_is_tight(s: Seq<char>)
    requires
        one_line(s),
    ensures
        tight(seq!['"'] + escaped(s) + seq!['"']),
{
    escaped_stays_on_line(s);
    one_line_concat(seq!['"'], escaped(s));
    one_line_concat(seq!['"'] + escaped(s), seq!['"']);
}

proof fn digits_hold(s: Seq<char>)
    requires
        all_digits(s),
    ensures
        one_line(s),
        s.len() > 0 ==> !is_white(s.last()) && s.last() != '\\' && s.last() != '\r',
{
    assert forall|i: int| 0 <= i < s.len() implies #[trigger] s[i] != '\n' by {
        digits_are_plain(s[i]);
    }
    if s.len() > 0 {
        assert(is_digit(s[s.len() - 1]));
        digits_are_plain(s[s.len() - 1]);
    }
}

/// A list of bytes stays on its line, and ends with a digit.
proof fn lists_hold(parts: Seq<Seq<char>>)
    requires
        forall|i: int|
            0 <= i < parts.len() ==> all_digits(#[trigger] parts[i]) && parts[i].len() > 0,
    ensures
        one_line(joined(parts, ","@)),
        parts.len() > 0 ==> joined(parts, ","@).len() > 0 && is_digit(joined(parts, ","@).last()),
        parts.len() == 0 ==> joined(parts, ","@).len() == 0,
    decreases parts.len(),
{
    reveal_strlit(",");
    if parts.len() == 1 {
        assert(all_digits(parts[0]));
        digits_hold(parts[0]);
    } else if parts.len() > 1 {
        let front = parts.drop_last();
        assert forall|i: int| 0 <= i < front.len() implies all_digits(#[trigger] front[i])
            && front[i].len() > 0 by {
            assert(front[i] == parts[i]);
        }
        lists_hold(front);
        let last = parts.last();
        assert(all_digits(parts[parts.len() - 1]));
        digits_hold(last);
        one_line_concat(joined(front, ","@), ","@);
        one_line_concat(joined(front, ","@) + ","@, last);
        assert(joined(parts, ","@).last() == last.last());
    }
}

proof fn hex_lists_hold(bytes: Seq<u8>)
    ensures
        one_line(hex_list(bytes)),
        bytes.len() > 0 ==> hex_list(bytes).len() > 0 && is_digit(hex_list(bytes).last()),
        bytes.len() == 0 ==> hex_list(bytes).len() == 0,
{
    let parts = bytes.map_values(|b: u8| hex_of(b as nat, 2));
    assert forall|i: int| 0 <= i < parts.len() implies all_digits(#[trigger] parts[i])
        && parts[i].len() > 0 by {
        bytes_fit(bytes[i]);
        fixed_hex_reads_back(bytes[i] as nat, 2);
    }
    lists_hold(parts);
}

/// A head that is one line, and a list behind it.
proof fn headed_list_is_tight(head: Seq<char>, list: Seq<char>)
    requires
        tight(head),
        one_line(list),
        list.len() > 0 ==> is_digit(list.last()),
    ensures
        tight(head + list),
{
    one_line_concat(head, list);
    assert((head + list)[0] == head[0]);
    if list.len() > 0 {
        digits_are_plain(list.last());
        assert((head + list).last() == list.last());
    } else {
        assert(head + list =~= head);
    }
}

proof fn written_is_tight(d: DataView)
    requires
        d matches DataView::Sz(s) ==> one_line(s),
    ensures
        tight(written(d)),
{
    reveal_strlit("-");
    reveal_strlit("dword:");
    reveal_strlit("hex:");
    reveal_strlit("hex(");
    reveal_strlit("):");
    match d {
        DataView::Delete => {},
        DataView::Sz(s) => {
            quoted_is_tight(s);
        },
        DataView::Dword(v) => {
            words_fit(v);
            fixed_hex_reads_back(v as nat, 8);
            digits_hold(hex_of(v as nat, 8));
            assert(tight("dword:"@));
            headed_list_is_tight("dword:"@, hex_of(v as nat, 8));
        },
        DataView::Hex { ty, bytes } => {
            hex_lists_hold(bytes);
            if ty == REG_BINARY {
                assert(tight("hex:"@));
                headed_list_is_tight("hex:"@, hex_list(bytes));
            } else {
                let digits = short_hex_of(ty as nat);
                short_hex_reads_back(ty as nat);
                digits_hold(digits);
                one_line_concat("hex("@, digits);
                one_line_concat("hex("@ + digits, "):"@);
                let head = "hex("@ + digits + "):"@;
                assert(head[0] == 'h' && head.last() == ':');
                assert(tight(head));
                headed_list_is_tight(head, hex_list(bytes));
            }
        },
    }
}

proof fn value_lines_are_tight(v: EntryView)
    requires
        writable_value(v),
    ensures
        tight(value_line(v)),
        !begins_char(value_line(v), '['),
{
    let name = name_form(v.name);
    let tail = seq!['='] + written(v.data);
    written_is_tight(v.data);
    if let Some(n) = v.name {
        quoted_is_tight(n);
    }
    one_line_concat(seq!['='], written(v.data));
    one_line_concat(name, tail);
    assert(value_line(v)[0] == name[0]);
    assert(value_line(v).last() == written(v.data).last());
}

proof fn hive_names_stay_on_line(p: PathView)
    ensures
        one_line(long_name_of(p.hive)),
        long_name_of(p.hive).len() > 0,
        long_name_of(p.hive)[0] == 'H',
{
    reveal_strlit("HKEY_CLASSES_ROOT");
    reveal_strlit("HKEY_CURRENT_USER");
    reveal_strlit("HKEY_LOCAL_MACHINE");
    reveal_strlit("HKEY_USERS");
    reveal_strlit("HKEY_CURRENT_CONFIG");
}

proof fn path_texts_stay_on_line(p: PathView)
    requires
        one_line(p.sub),
    ensures
        one_line(path_text(p)),
        path_text(p).len() > 0,
        path_text(p)[0] == 'H',
{
    reveal_strlit("\\");
    hive_names_stay_on_line(p);
    if p.sub.len() > 0 {
        one_line_concat(long_name_of(p.hive), "\\"@);
        one_line_concat(long_name_of(p.hive) + "\\"@, p.sub);
    }
}

proof fn key_lines_are_tight(b: BlockView)
    requires
        writable(b),
    ensures
        tight(key_line(b)),
{
    let text = path_text(b.path);
    path_texts_stay_on_line(b.path);
    one_line_concat(seq!['-'], text);
    let middle = if b.delete {
        seq!['-'] + text
    } else {
        text
    };
    one_line_concat(seq!['['], middle);
    one_line_concat(seq!['['] + middle, seq![']']);
    assert(key_line(b)[0] == '[' && key_line(b).last() == ']');
}

// ---------------------------------------------------------------------------
// Reading lines
// ---------------------------------------------------------------------------

/// What a value line adds to the open key.
pub open spec fn with_value(k: BlockView, v: EntryView, line: usize) -> BlockView {
    BlockView {
        values: k.values.push(EntryView { name: v.name, data: v.data, line }),
        ..k
    }
}

proof fn value_names_read(v: EntryView)
    requires
        writable_value(v),
    ensures
        value_name_of(value_line(v)) == Ok::<(Option<Seq<char>>, Seq<char>), Seq<char>>(
            (v.name, seq!['='] + written(v.data)),
        ),
{
    let s = value_line(v);
    let tail = seq!['='] + written(v.data);
    assert(!is_white('='));
    assert(trimmed_start(tail) == tail);
    match v.name {
        None => {
            assert(s[0] == '@');
            assert(s.skip(1) =~= tail);
        },
        Some(n) => {
            assert(s =~= seq!['"'] + escaped(n) + seq!['"'] + tail);
            assert(s[0] == '"');
            quoted_text_reads_back(n, tail);
        },
    }
}

proof fn value_lines_read(st: StateView, line: usize, v: EntryView) -> (ds: Seq<DiagView>)
    requires
        writable_value(v),
        st.current is Some,
        !st.current->0.delete,
    ensures
        only_warnings(ds),
        after_line(st, line, value_line(v)) == (StateView {
            current: Some(with_value(st.current->0, v, line)),
            diags: st.diags + ds,
            ..st
        }),
{
    let s = value_line(v);
    let tail = seq!['='] + written(v.data);
    value_lines_are_tight(v);
    value_names_read(v);
    written_is_tight(v.data);
    written_data_reads_back(line, v.data);
    assert(tail.skip(1) =~= written(v.data));
    let ds = data_of(line, written(v.data)).diagnostics;
    assert(st.diags + ds + Seq::<DiagView>::empty() =~= st.diags + ds);
    ds
}

/// The key that a key line opens.
pub open spec fn opened(b: BlockView, line: usize) -> BlockView {
    BlockView { path: b.path, delete: b.delete, values: Seq::empty(), line }
}

proof fn key_lines_read(st: StateView, line: usize, b: BlockView) -> (ds: Seq<DiagView>)
    requires
        writable(b),
    ensures
        only_warnings(ds),
        after_line(st, line, key_line(b)) == (StateView {
            keys: st.flushed().keys,
            current: Some(opened(b, line)),
            diags: st.diags + ds,
        }),
{
    let s = key_line(b);
    let text = path_text(b.path);
    let middle = if b.delete {
        seq!['-'] + text
    } else {
        text
    };
    path_texts_stay_on_line(b.path);
    path_reads_back(b.path);
    let close = s.len() - 1;
    assert(s.last() == ']');
    assert(last_of(s, ']') == close);
    assert(s.subrange(1, close) =~= middle);
    assert(s.skip(close + 1) =~= Seq::<char>::empty());
    assert(trailed(s, close) =~= Seq::<char>::empty());
    if b.delete {
        assert(middle.skip(1) =~= text);
        assert(middle[0] == '-');
    } else {
        assert(middle[0] == 'H');
    }
    assert(s[0] == '[');
    let ds = component_of(line, b.path.sub);
    assert(st.diags + trailing_of(line, trailed(s, close)) + ds =~= st.diags + ds);
    ds
}

/// A tight line is read where it stands.
proof fn line_reads(st: StateView, lines: Seq<Seq<char>>, i: int)
    requires
        0 <= i < lines.len(),
        tight(lines[i]),
    ensures
        after_lines(st, lines, i, None) == after_lines(
            after_line(st, line_number(i), lines[i]),
            lines,
            i + 1,
            None,
        ),
{
    tight_lines_stand(lines[i]);
}

/// A value line is read where it stands.
proof fn value_step(st: StateView, lines: Seq<Seq<char>>, i: int, v: EntryView) -> (r: StateView)
    requires
        0 <= i < lines.len(),
        lines[i] == value_line(v),
        writable_value(v),
        st.current is Some,
        !st.current->0.delete,
        only_warnings(st.diags),
    ensures
        after_lines(st, lines, i, None) == after_lines(r, lines, i + 1, None),
        only_warnings(r.diags),
        r.keys == st.keys,
        r.current == Some(with_value(st.current->0, v, line_number(i))),
{
    value_lines_are_tight(v);
    line_reads(st, lines, i);
    let ds = value_lines_read(st, line_number(i), v);
    after_line(st, line_number(i), value_line(v))
}

/// The open key grows value by value.
proof fn bare_grows(k: BlockView, b: BlockView, j: int, line: usize)
    requires
        0 <= j < b.values.len(),
        bare(k) == bare(BlockView { values: b.values.take(j), ..b }),
    ensures
        bare(with_value(k, b.values[j], line)) == bare(
            BlockView { values: b.values.take(j + 1), ..b },
        ),
        with_value(k, b.values[j], line).delete == k.delete,
{
    let v = b.values[j];
    let grown = with_value(k, v, line);
    let part = BlockView { values: b.values.take(j + 1), ..b };
    let before = BlockView { values: b.values.take(j), ..b };
    assert(bare(grown).values =~= bare(k).values.push(bare_value(v)));
    assert(bare(before).values.push(bare_value(v)) =~= bare(part).values);
}

/// The values of a key from the `j`th on are read.
proof fn values_read(
    st: StateView,
    lines: Seq<Seq<char>>,
    i: int,
    b: BlockView,
    j: int,
) -> (r: StateView)
    requires
        writable(b),
        0 <= j <= b.values.len(),
        0 <= i,
        i + b.values.len() - j <= lines.len(),
        forall|k: int|
            j <= k < b.values.len() ==> lines[i + k - j] == value_line(#[trigger] b.values[k]),
        st.current is Some,
        !st.current->0.delete || b.values.len() == j,
        only_warnings(st.diags),
        bare(st.current->0) == bare(BlockView { values: b.values.take(j), ..b }),
    ensures
        after_lines(st, lines, i, None) == after_lines(
            r,
            lines,
            i + b.values.len() - j,
            None,
        ),
        only_warnings(r.diags),
        r.keys == st.keys,
        r.current is Some,
        bare(r.current->0) == bare(b),
    decreases b.values.len() - j,
{
    if j == b.values.len() {
        assert(b.values.take(j) =~= b.values);
        assert(BlockView { values: b.values.take(j), ..b } == b);
        st
    } else {
        let v = b.values[j];
        assert(lines[i + j - j] == value_line(v));
        let next = value_step(st, lines, i, v);
        bare_grows(st.current->0, b, j, line_number(i));
        assert forall|m: int| j + 1 <= m < b.values.len() implies lines[i + 1 + m - (j + 1)]
            == value_line(#[trigger] b.values[m]) by {
            assert(lines[i + m - j] == value_line(b.values[m]));
        }
        values_read(next, lines, i + 1, b, j + 1)
    }
}

/// A key and its values are read.
proof fn block_reads(st: StateView, lines: Seq<Seq<char>>, i: int, b: BlockView) -> (r: StateView)
    requires
        writable(b),
        0 <= i,
        i + 1 + b.values.len() <= lines.len(),
        lines[i] == key_line(b),
        forall|k: int|
            0 <= k < b.values.len() ==> lines[i + 1 + k] == value_line(#[trigger] b.values[k]),
        only_warnings(st.diags),
    ensures
        after_lines(st, lines, i, None) == after_lines(
            r,
            lines,
            i + 1 + b.values.len(),
            None,
        ),
        only_warnings(r.diags),
        r.keys == st.flushed().keys,
        r.current is Some,
        bare(r.current->0) == bare(b),
{
    let n = line_number(i);
    key_lines_are_tight(b);
    line_reads(st, lines, i);
    let ds = key_lines_read(st, n, b);
    let next = after_line(st, n, lines[i]);
    let part = BlockView { values: b.values.take(0), ..b };
    assert(bare(opened(b, n)).values =~= bare(part).values);
    assert(bare(opened(b, n)) == bare(part));
    values_read(next, lines, i + 1, b, 0)
}

/// Keys without line numbers.
pub open spec fn all_bare(keys: Seq<BlockView>) -> Seq<BlockView> {
    keys.map_values(|b: BlockView| bare(b))
}

proof fn keys_read(
    st: StateView,
    lines: Seq<Seq<char>>,
    i: int,
    keys: Seq<BlockView>,
) -> (r: StateView)
    requires
        forall|k: int| 0 <= k < keys.len() ==> writable(#[trigger] keys[k]),
        0 <= i,
        lines.skip(i) == keys_lines(keys).push(Seq::empty()),
        i <= lines.len(),
        only_warnings(st.diags),
    ensures
        after_lines(st, lines, i, None).flushed() == r,
        only_warnings(r.diags),
        all_bare(r.keys) == all_bare(st.flushed().keys) + all_bare(keys),
    decreases keys.len(),
{
    if keys.len() == 0 {
        end_reads(st, lines, i);
        assert(all_bare(st.flushed().keys) + all_bare(keys) =~= all_bare(st.flushed().keys));
        st.flushed()
    } else {
        let b = keys[0];
        let rest = keys.skip(1);
        first_block_stands(lines, i, keys);
        let next = block_reads(st, lines, i, b);
        assert forall|k: int| 0 <= k < rest.len() implies writable(#[trigger] rest[k]) by {
            assert(rest[k] == keys[k + 1]);
        }
        let r = keys_read(next, lines, i + 1 + b.values.len(), rest);
        flushing_adds(st, next, keys);
        r
    }
}

/// The empty line at the end adds nothing.
proof fn end_reads(st: StateView, lines: Seq<Seq<char>>, i: int)
    requires
        0 <= i <= lines.len(),
        lines.skip(i) == keys_lines(Seq::<BlockView>::empty()).push(Seq::empty()),
    ensures
        after_lines(st, lines, i, None) == st,
{
    assert(lines.skip(i) =~= seq![Seq::<char>::empty()]);
    assert(lines.len() == i + 1);
    assert(lines.skip(i)[0] == lines[i]);
    assert(trimmed(lines[i]) =~= lines[i]);
    assert(after_lines(st, lines, i, None) == after_lines(st, lines, i + 1, None));
    assert(after_lines(st, lines, i + 1, None) == st);
}

/// The lines of the first key stand before those of the others.
proof fn first_block_stands(lines: Seq<Seq<char>>, i: int, keys: Seq<BlockView>)
    requires
        keys.len() > 0,
        0 <= i <= lines.len(),
        lines.skip(i) == keys_lines(keys).push(Seq::empty()),
    ensures
        ({
            let b = keys[0];
            let j = i + 1 + b.values.len();
            &&& j <= lines.len()
            &&& lines[i] == key_line(b)
            &&& forall|k: int|
                0 <= k < b.values.len() ==> lines[i + 1 + k] == value_line(#[trigger] b.values[k])
            &&& lines.skip(j) == keys_lines(keys.skip(1)).push(Seq::empty())
        }),
{
    let b = keys[0];
    let mine = block_lines(b);
    let others = keys_lines(keys.skip(1)).push(Seq::<char>::empty());
    let all = keys_lines(keys).push(Seq::empty());
    let n = 1 + b.values.len() as int;
    assert(mine.len() == n);
    assert(all =~= mine + others);
    assert(lines.skip(i).len() == lines.len() - i);
    assert(lines[i] == lines.skip(i)[0]);
    assert(mine[0] == key_line(b));
    assert forall|k: int| 0 <= k < b.values.len() implies lines[i + 1 + k] == value_line(
        #[trigger] b.values[k],
    ) by {
        assert(lines.skip(i)[1 + k] == lines[i + 1 + k]);
        assert(mine[1 + k] == value_line(b.values[k]));
    }
    assert(lines.skip(i + n) =~= lines.skip(i).skip(n));
    assert(all.skip(n) =~= others);
}

/// A key that was read is among the others once the next is.
proof fn flushing_adds(st: StateView, next: StateView, keys: Seq<BlockView>)
    requires
        keys.len() > 0,
        next.keys == st.flushed().keys,
        next.current is Some,
        bare(next.current->0) == bare(keys[0]),
    ensures
        all_bare(next.flushed().keys) + all_bare(keys.skip(1)) == all_bare(st.flushed().keys)
            + all_bare(keys),
{
    let before = all_bare(st.flushed().keys);
    assert(all_bare(next.flushed().keys) =~= before.push(bare(keys[0])));
    assert(before.push(bare(keys[0])) + all_bare(keys.skip(1)) =~= before + all_bare(keys));
}

// ---------------------------------------------------------------------------
// Cutting text into lines
// ---------------------------------------------------------------------------

proof fn text_splits(lines: Seq<Seq<char>>)
    requires
        forall|k: int| 0 <= k < lines.len() ==> tight(#[trigger] lines[k]),
    ensures
        lines_of(text_of(lines)) == lines.push(Seq::empty()),
    decreases lines.len(),
{
    let text = text_of(lines);
    let end = Seq::<char>::empty();
    if lines.len() == 0 {
        assert(split_by(text, '\n') =~= seq![text]);
        assert(lines_of(text) =~= seq![end]);
        assert(lines.push(end) =~= seq![end]);
    } else {
        let l = lines[0];
        let rest = lines.skip(1);
        let cr = l + seq!['\r'];
        assert forall|k: int| 0 <= k < rest.len() implies tight(#[trigger] rest[k]) by {
            assert(rest[k] == lines[k + 1]);
        }
        text_splits(rest);
        one_line_concat(l, seq!['\r']);
        no_separator(cr, '\n');
        assert(split_by(cr, '\n') =~= seq![cr]);
        split_of_concat(cr, text_of(rest), '\n');
        assert(text == cr + seq!['\n'] + text_of(rest));
        let pieces = split_by(text_of(rest), '\n');
        assert(split_by(text, '\n') == seq![cr] + pieces);
        assert(cr.drop_last() =~= l);
        assert(stripped_end(cr, '\r') == stripped_end(l, '\r'));
        assert(stripped_end(l, '\r') == l);
        assert(lines_of(text) =~= seq![l] + lines_of(text_of(rest)));
        assert(seq![l] + rest.push(end) =~= lines.push(end));
    }
}

proof fn keys_lines_are_tight(keys: Seq<BlockView>)
    requires
        forall|k: int| 0 <= k < keys.len() ==> writable(#[trigger] keys[k]),
    ensures
        forall|k: int| 0 <= k < keys_lines(keys).len() ==> tight(#[trigger] keys_lines(keys)[k]),
    decreases keys.len(),
{
    if keys.len() > 0 {
        let b = keys[0];
        let rest = keys.skip(1);
        assert forall|k: int| 0 <= k < rest.len() implies writable(#[trigger] rest[k]) by {
            assert(rest[k] == keys[k + 1]);
        }
        keys_lines_are_tight(rest);
        key_lines_are_tight(b);
        let mine = block_lines(b);
        assert forall|k: int| 0 <= k < keys_lines(keys).len() implies tight(
            #[trigger] keys_lines(keys)[k],
        ) by {
            if k == 0 {
                assert(keys_lines(keys)[k] == mine[0]);
                assert(mine[0] == key_line(b));
            } else if k < mine.len() {
                assert(keys_lines(keys)[k] == mine[k]);
                assert(mine[k] == value_line(b.values[k - 1]));
                value_lines_are_tight(b.values[k - 1]);
            } else {
                assert(keys_lines(keys)[k] == keys_lines(rest)[k - mine.len()]);
            }
        }
    }
}

proof fn header_stands()
    ensures
        tight(header_line()),
        announced(header_line()) == Some(RegFormat::V5),
{
    let h = header_line();
    reveal_strlit("Windows Registry Editor Version 5.00");
    reveal_strlit("REGEDIT4");
    reveal_strlit("windows registry editor version 5");
    assert(h.len() == 36);
    assert("REGEDIT4"@.len() == 8);
    assert(lowered(h).len() != lowered("REGEDIT4"@).len());
    assert(lowered(h).take(33) =~= "windows registry editor version 5"@);
}

// ---------------------------------------------------------------------------
// Laws
// ---------------------------------------------------------------------------

/// A file reads back from its text: every key in order with its path, whether it
/// is deleted, and its values in order with their names and exact data. Line
/// numbers are those of the text. Nothing is wrong with such a text: there may
/// be warnings, but no errors.
pub proof fn file_reads_back(keys: Seq<BlockView>, encoding: SourceEncoding)
    requires
        forall|k: int| 0 <= k < keys.len() ==> writable(#[trigger] keys[k]),
    ensures
        parse_of(file_text(keys), encoding).file.format == RegFormat::V5,
        all_bare(parse_of(file_text(keys), encoding).file.keys) == all_bare(keys),
        only_warnings(parse_of(file_text(keys), encoding).diagnostics),
{
    let body = keys_lines(keys);
    let lines = seq![header_line()] + body;
    let text = file_text(keys);
    header_stands();
    keys_lines_are_tight(keys);
    assert forall|k: int| 0 <= k < lines.len() implies tight(#[trigger] lines[k]) by {
        if k > 0 {
            assert(lines[k] == body[k - 1]);
        }
    }
    text_splits(lines);
    let all = lines.push(Seq::<char>::empty());
    assert(lines_of(text) == all);
    assert(all[0] == header_line());
    tight_lines_stand(header_line());
    assert(header_at(all, 0) == 0);
    let start = StateView { diags: Seq::empty(), keys: Seq::empty(), current: None };
    assert(all.skip(1) =~= body.push(Seq::<char>::empty()));
    let r = keys_read(start, all, 1, keys);
    assert(all_bare(start.flushed().keys) + all_bare(keys) =~= all_bare(keys));
}

/// A file reads back from its bytes, written as UTF-16 with a byte-order mark.
pub proof fn encoded_file_reads_back(keys: Seq<BlockView>, ansi: Option<Seq<char>>)
    requires
        forall|k: int| 0 <= k < keys.len() ==> writable(#[trigger] keys[k]),
    ensures
        ({
            let r = parse_bytes_of(utf16le_file(file_text(keys)), ansi);
            &&& r.file.format == RegFormat::V5
            &&& r.file.encoding == SourceEncoding::Utf16Le
            &&& all_bare(r.file.keys) == all_bare(keys)
            &&& only_warnings(r.diagnostics)
        }),
{
    utf16_file_reads_back(file_text(keys), ansi);
    file_reads_back(keys, SourceEncoding::Utf16Le);
}

} // verus!
