//! What single lines of a file mean, what is wrong with them, and how data and
//! patterns read.
use vstd::prelude::*;

use crate::model::{
    header_of, type_id_of, type_name_of, listable, long_name_of, path_named, preview_of, short_name_of,
    string_lists_read_back, list_bytes, BlockView, DataView, EntryView, Hive, PathView, RegFormat,
};
use crate::number::{dec_of, hex_of};
use crate::parser::{
    after_line, announced, component_of, data_of, escaped, quoted_text_reads_back, shape_of,
    size_of, trailing_of, Severity, StateView,
};
use crate::search::{full_root, glob_body, glob_expression, hive_abbreviated, literal_char};
use crate::text::{
    first_of, first_of_is_first, joined, last_of, last_of_is_last, lowered, split_by, trimmed,
    trimmed_start,
};
use crate::text_laws::{lacks, trim_free, trimming_leaves_the_text};

verus! {

// ---------------------------------------------------------------------------
// Lines
// ---------------------------------------------------------------------------

/// A line in square brackets opens the key it names, or deletes it where a
/// minus sign stands before the name. What was open before is kept, and what is
/// behind the bracket is passed over, with a warning unless it is a comment.
pub proof fn bracketed_lines_open_keys(
    st: StateView,
    line: usize,
    name: Seq<char>,
    path: PathView,
    mark: Seq<char>,
    behind: Seq<char>,
)
    requires
        mark == seq!['-'] || mark == Seq::<char>::empty(),
        path_named(name) == Some(path),
        name.len() > 0,
        name[0] != '-',
        lacks(behind, ']'),
    ensures
        ({
            let after = after_line(st, line, seq!['['] + mark + name + seq![']'] + behind);
            &&& after.current == Some(
                BlockView { path, delete: mark.len() > 0, values: Seq::empty(), line },
            )
            &&& after.keys == (if st.current is Some {
                st.keys.push(st.current->0)
            } else {
                st.keys
            })
            &&& after.diags.len() >= st.diags.len()
            &&& after.diags.take(st.diags.len() as int) == st.diags
            &&& forall|i: int|
                st.diags.len() <= i < after.diags.len() ==> (
                #[trigger] after.diags[i]).severity == Severity::Warning && after.diags[i].line
                    == line
        }),
{
    let s = seq!['['] + mark + name + seq![']'] + behind;
    let close = s.len() - behind.len() - 1;
    assert(s[close] == ']');
    last_of_is_last(s, ']');
    assert(last_of(s, ']') == close) by {
        let k = last_of(s, ']');
        if k > close {
            assert(s[k] == behind[k - close - 1]);
        }
    }
    assert(s[0] == '[');
    let inner = s.subrange(1, close);
    if mark.len() > 0 {
        assert(inner =~= seq!['-'] + name);
        assert(inner[0] == '-');
        assert(inner.skip(1) =~= name);
    } else {
        assert(inner =~= name);
    }
    let after = after_line(st, line, s);
    let noted = st.diags + trailing_of(line, crate::parser::trailed(s, close));
    assert(after.diags == noted + component_of(line, path.sub));
    assert(after.diags.take(st.diags.len() as int) =~= st.diags);
}

/// A line in square brackets that names no key, or is not closed, is an error at
/// its line and changes nothing else.
pub proof fn unknown_keys_are_errors(st: StateView, line: usize, name: Seq<char>)
    requires
        path_named(name) is None,
        name.len() > 0 ==> name[0] != '-',
    ensures
        ({
            let after = after_line(st, line, seq!['['] + name + seq![']']);
            &&& after.current == st.current
            &&& after.keys == st.keys
            &&& after.diags.len() == st.diags.len() + 1
            &&& after.diags.last().severity == Severity::Error
            &&& after.diags.last().line == line
        }),
        lacks(name, ']') ==> ({
            let after = after_line(st, line, seq!['['] + name);
            &&& after.current == st.current
            &&& after.keys == st.keys
            &&& after.diags.len() == st.diags.len() + 1
            &&& after.diags.last().severity == Severity::Error
            &&& after.diags.last().line == line
        }),
{
    let s = seq!['['] + name + seq![']'];
    last_of_is_last(s, ']');
    assert(s.last() == ']');
    assert(s[0] == '[');
    assert(last_of(s, ']') == s.len() - 1);
    assert(s.subrange(1, s.len() - 1) =~= name);
    assert(s.skip(s.len() as int) =~= Seq::<char>::empty());
    assert(trimmed(Seq::<char>::empty()) =~= Seq::<char>::empty());
    let noted = st.diags + trailing_of(line, Seq::empty());
    assert(noted =~= st.diags);
    if lacks(name, ']') {
        let t = seq!['['] + name;
        last_of_is_last(t, ']');
        assert(t[0] == '[');
        assert(last_of(t, ']') < 0) by {
            let k = last_of(t, ']');
            if k > 0 {
                assert(t[k] == name[k - 1]);
            }
        }
    }
}

/// A value whose data reads joins the open key behind the values it has, under
/// its name; the default value has none. Nothing else of the key changes.
pub proof fn values_join_the_open_key(
    st: StateView,
    line: usize,
    name: Option<Seq<char>>,
    rhs: Seq<char>,
    k: BlockView,
)
    requires
        st.current == Some(k),
        data_of(line, rhs).data is Some,
        trim_free(rhs),
        name matches Some(n) ==> !n.contains('\0') && crate::utf16::unit_count(n) <= 16_383,
    ensures
        ({
            let s = match name {
                None => seq!['@', '='] + rhs,
                Some(n) => seq!['"'] + escaped(n) + seq!['"', '='] + rhs,
            };
            let after = after_line(st, line, s);
            &&& after.keys == st.keys
            &&& after.current == Some(
                BlockView {
                    path: k.path,
                    delete: k.delete,
                    values: k.values.push(
                        EntryView { name, data: data_of(line, rhs).data->0, line },
                    ),
                    line: k.line,
                },
            )
            &&& !k.delete ==> after.diags == st.diags + data_of(line, rhs).diagnostics
        }),
{
    let s = match name {
        None => seq!['@', '='] + rhs,
        Some(n) => seq!['"'] + escaped(n) + seq!['"', '='] + rhs,
    };
    let tail = seq!['='] + rhs;
    let none = Seq::<char>::empty();
    assert(tail[0] == '=');
    assert(trimmed_start(tail) == tail);
    assert(tail.skip(1) =~= rhs);
    trimming_leaves_the_text(none, rhs, none);
    match name {
        None => {
            assert(s[0] == '@');
            assert(s.skip(1) =~= tail);
        },
        Some(n) => {
            assert(s[0] == '"');
            quoted_text_reads_back(n, tail);
            assert(s =~= seq!['"'] + escaped(n) + seq!['"'] + tail);
        },
    }
    let after = after_line(st, line, s);
    assert(st.diags + data_of(line, rhs).diagnostics + Seq::empty() =~= st.diags + data_of(
        line,
        rhs,
    ).diagnostics);
}

/// A value before any key is an error and is not kept.
pub proof fn values_need_a_key(st: StateView, line: usize, rhs: Seq<char>)
    requires
        st.current is None,
    ensures
        after_line(st, line, seq!['@', '='] + rhs).current is None,
        after_line(st, line, seq!['@', '='] + rhs).keys == st.keys,
        after_line(st, line, seq!['@', '='] + rhs).diags.len() > st.diags.len(),
        after_line(st, line, seq!['@', '='] + rhs).diags.last().line == line,
        data_of(line, trimmed(rhs)).data is Some ==> after_line(
            st,
            line,
            seq!['@', '='] + rhs,
        ).diags.last().severity == Severity::Error,
{
    let s = seq!['@', '='] + rhs;
    let tail = seq!['='] + rhs;
    assert(s[0] == '@');
    assert(s.skip(1) =~= tail);
    assert(tail[0] == '=');
    assert(trimmed_start(tail) == tail);
    assert(tail.skip(1) =~= rhs);
    bad_data_is_told(line, trimmed(rhs));
}

/// Data that cannot be read is told by an error at its line.
pub proof fn bad_data_is_told(line: usize, rhs: Seq<char>)
    ensures
        data_of(line, rhs).data is None ==> data_of(line, rhs).diagnostics.len() == 1 && data_of(
            line,
            rhs,
        ).diagnostics[0].severity == Severity::Error && data_of(line, rhs).diagnostics[0].line
            == line,
        data_of(line, rhs).data is Some ==> forall|i: int|
            0 <= i < data_of(line, rhs).diagnostics.len() ==> (
            #[trigger] data_of(line, rhs).diagnostics[i]).severity == Severity::Warning && data_of(
                line,
                rhs,
            ).diagnostics[i].line == line,
{
}

/// A file in either dialect says so in its first line, in any case.
pub proof fn headers_announce_their_dialect(format: RegFormat, h: Seq<char>)
    requires
        lowered(h) == lowered(header_of(format)),
    ensures
        announced(h) == Some(format),
{
    reveal_strlit("REGEDIT4");
    reveal_strlit("Windows Registry Editor Version 5.00");
    reveal_strlit("windows registry editor version 5");
    let five = "Windows Registry Editor Version 5.00"@;
    assert(lowered("REGEDIT4"@).len() == 8);
    assert(lowered(five).len() == five.len());
    assert(lowered(five).take(33) =~= "windows registry editor version 5"@);
}

// ---------------------------------------------------------------------------
// Shapes
// ---------------------------------------------------------------------------

/// The bytes end with `n` zeros.
pub open spec fn zeros_at_end(bytes: Seq<u8>, n: nat) -> bool {
    bytes.len() >= n && bytes.skip(bytes.len() - n) == Seq::new(n, |i: int| 0u8)
}

proof fn zeros_agree(bytes: Seq<u8>, n: nat)
    ensures
        zeros_at_end(bytes, n) == crate::model::ends_in_zeros(bytes, n),
{
    if bytes.len() >= n {
        let tail = bytes.skip(bytes.len() - n);
        if crate::model::ends_in_zeros(bytes, n) {
            assert(tail =~= Seq::new(n, |i: int| 0u8));
        }
        if zeros_at_end(bytes, n) {
            assert forall|i: int| bytes.len() - n <= i < bytes.len() implies bytes[i] == 0 by {
                assert(tail[i - (bytes.len() - n)] == 0);
            }
        }
    }
}

/// A payload is warned of, once and at its line, where its length or its end do
/// not suit its type, and never otherwise.
pub proof fn ill_shaped_payloads_are_warned_of(line: usize, ty: u32, bytes: Seq<u8>)
    ensures
        shape_of(line, ty, bytes).len() <= 1,
        shape_of(line, ty, bytes).len() == 1 ==> shape_of(line, ty, bytes)[0].line == line
            && shape_of(line, ty, bytes)[0].severity == Severity::Warning,
        ty == 1 || ty == 2 || ty == 6 ==> (shape_of(line, ty, bytes).len() == 0 <==> bytes.len() % 2
            == 0 && zeros_at_end(bytes, 2)),
        ty == 7 ==> (shape_of(line, ty, bytes).len() == 0 <==> bytes.len() == 0 || bytes.len() % 2
            == 0 && zeros_at_end(bytes, 4)),
        ty == 4 || ty == 5 ==> (shape_of(line, ty, bytes).len() == 0 <==> bytes.len() == 4),
        ty == 11 ==> (shape_of(line, ty, bytes).len() == 0 <==> bytes.len() == 8),
        ty == 0 || ty == 3 || 8 <= ty <= 10 || ty > 11 ==> shape_of(line, ty, bytes).len() == 0,
        size_of(line, bytes).len() == 0 <==> bytes.len() <= 1024 * 1024,
        size_of(line, bytes).len() <= 1,
{
    zeros_agree(bytes, 2);
    zeros_agree(bytes, 4);
}

/// A key with a name of more than 255 units is warned of.
pub proof fn long_names_are_warned_of(line: usize, sub: Seq<char>)
    ensures
        component_of(line, sub).len() <= 1,
        component_of(line, sub).len() == 0 <==> forall|i: int|
            0 <= i < split_by(sub, '\\').len() ==> crate::utf16::unit_count(
                #[trigger] split_by(sub, '\\')[i],
            ) <= 255,
{
    let parts = split_by(sub, '\\');
    if component_of(line, sub).len() == 0 {
        assert forall|i: int| 0 <= i < parts.len() implies crate::utf16::unit_count(
            #[trigger] parts[i],
        ) <= 255 by {
            assert(!(crate::utf16::unit_count(parts[i]) > 255));
        }
    }
}

// ---------------------------------------------------------------------------
// Previews
// ---------------------------------------------------------------------------

/// A text is shown as it is, and a list with bars between its texts.
pub proof fn texts_are_shown_as_they_are(s: Seq<char>, parts: Seq<Seq<char>>)
    requires
        listable(parts),
        parts.len() > 0,
    ensures
        preview_of(DataView::Sz(s)) == s,
        preview_of(DataView::Hex { ty: 7, bytes: list_bytes(parts) }) == joined(parts, " | "@),
{
    string_lists_read_back(parts);
    list_ends_in_zeros(parts);
}

proof fn list_ends_in_zeros(parts: Seq<Seq<char>>)
    requires
        parts.len() > 0,
    ensures
        crate::model::ends_in_zeros(list_bytes(parts), 4),
{
    terminated_ends_in_zero(parts);
    let units = crate::model::terminated(parts) + seq![0u16];
    let bytes = list_bytes(parts);
    let n = units.len() as int;
    assert(units[n - 1] == 0);
    assert(units[n - 2] == 0);
    assert forall|i: int| bytes.len() - 4 <= i < bytes.len() implies bytes[i] == 0 by {
        assert(i / 2 == n - 1 || i / 2 == n - 2);
    }
}

proof fn terminated_ends_in_zero(parts: Seq<Seq<char>>)
    requires
        parts.len() > 0,
    ensures
        crate::model::terminated(parts).len() > 0,
        crate::model::terminated(parts).last() == 0,
    decreases parts.len(),
{
    let rest = crate::model::terminated(parts.skip(1));
    let all = crate::model::terminated(parts);
    if parts.len() > 1 {
        terminated_ends_in_zero(parts.skip(1));
        assert(all.last() == rest.last());
    } else {
        assert(rest =~= Seq::<u16>::empty());
        assert(all.last() == 0);
    }
}

proof fn bytes_make_the_number(n: u64)
    ensures
        n as int == n % 0x100 + 0x100 * (n / 0x100 % 0x100) + 0x1_0000 * (n / 0x1_0000 % 0x100)
            + 0x100_0000 * (n / 0x100_0000 % 0x100) + 0x1_0000_0000 * (n / 0x1_0000_0000 % 0x100)
            + 0x100_0000_0000 * (n / 0x100_0000_0000 % 0x100) + 0x1_0000_0000_0000 * (n
            / 0x1_0000_0000_0000 % 0x100) + 0x100_0000_0000_0000 * (n / 0x100_0000_0000_0000),
        n / 0x100_0000_0000_0000 < 0x100,
{
    let a = n as int;
    let b = a / 0x100;
    let c = b / 0x100;
    let d = c / 0x100;
    let e = d / 0x100;
    let f = e / 0x100;
    let g = f / 0x100;
    let h = g / 0x100;
    assert(c == a / 0x1_0000);
    assert(d == a / 0x100_0000);
    assert(e == a / 0x1_0000_0000);
    assert(f == a / 0x100_0000_0000);
    assert(g == a / 0x1_0000_0000_0000);
    assert(h == a / 0x100_0000_0000_0000);
    assert(a == a % 0x100 + 0x100 * b);
    assert(b == b % 0x100 + 0x100 * c);
    assert(c == c % 0x100 + 0x100 * d);
    assert(d == d % 0x100 + 0x100 * e);
    assert(e == e % 0x100 + 0x100 * f);
    assert(f == f % 0x100 + 0x100 * g);
    assert(g == g % 0x100 + 0x100 * h);
}

/// A number is shown in hexadecimal and in decimal.
pub proof fn numbers_are_shown_twice(v: u32, n: u64)
    ensures
        preview_of(DataView::Dword(v)) == "0x"@ + hex_of(v as nat, 8) + " ("@ + dec_of(v as nat)
            + ")"@,
        ({
            let bytes = seq![
                (n % 0x100) as u8,
                (n / 0x100 % 0x100) as u8,
                (n / 0x1_0000 % 0x100) as u8,
                (n / 0x100_0000 % 0x100) as u8,
                (n / 0x1_0000_0000 % 0x100) as u8,
                (n / 0x100_0000_0000 % 0x100) as u8,
                (n / 0x1_0000_0000_0000 % 0x100) as u8,
                (n / 0x100_0000_0000_0000) as u8,
            ];
            preview_of(DataView::Hex { ty: 11, bytes }) == "0x"@ + hex_of(n as nat, 16) + " ("@
                + dec_of(n as nat) + ")"@
        }),
{
    bytes_make_the_number(n);
}

// ---------------------------------------------------------------------------
// Patterns
// ---------------------------------------------------------------------------

proof fn globs_go_together(a: Seq<char>, b: Seq<char>)
    requires
        a.len() > 0 && b.len() > 0 ==> a.last() != '*' || b[0] != '*',
    ensures
        glob_body(a + b) == glob_body(a) + glob_body(b),
    decreases a.len(),
{
    let all = a + b;
    if a.len() == 0 {
        assert(all =~= b);
        assert(glob_body(a) + glob_body(b) =~= glob_body(b));
    } else {
        assert(all[0] == a[0]);
        assert(all.skip(1) =~= a.skip(1) + b);
        if a[0] == '*' && a.len() > 1 && a[1] == '*' {
            assert(all[1] == '*');
            assert(all.skip(2) =~= a.skip(2) + b);
            if a.len() > 2 {
                assert(a.skip(2).last() == a.last());
            }
            globs_go_together(a.skip(2), b);
            assert(".*"@ + (glob_body(a.skip(2)) + glob_body(b)) =~= ".*"@ + glob_body(a.skip(2))
                + glob_body(b));
        } else {
            if a.len() > 1 {
                assert(a.skip(1).last() == a.last());
                assert(all[1] == a[1]);
            } else if b.len() > 0 {
                assert(all[1] == b[0]);
            }
            globs_go_together(a.skip(1), b);
            let one = if a[0] == '*' {
                "[^\\\\]*"@
            } else if a[0] == '?' {
                "[^\\\\]"@
            } else {
                literal_char(a[0])
            };
            assert(one + (glob_body(a.skip(1)) + glob_body(b)) =~= one + glob_body(a.skip(1))
                + glob_body(b));
        }
    }
}

/// A glob is translated piece by piece, unless two stars meet where it is cut.
/// A star stands for any run of characters within a name, two for any run at
/// all, a question mark for one character of a name, and a character that has a
/// meaning in an expression is escaped.
pub proof fn globs_are_translated_piece_by_piece(a: Seq<char>, b: Seq<char>, c: char)
    requires
        a.len() > 0 && b.len() > 0 ==> a.last() != '*' || b[0] != '*',
    ensures
        glob_expression(a + b) == "^"@ + glob_body(a) + glob_body(b) + "$"@,
        glob_body(seq!['*']) == "[^\\\\]*"@,
        glob_body(seq!['*', '*']) == ".*"@,
        glob_body(seq!['?']) == "[^\\\\]"@,
        "[](){}.+^$|\\"@.contains(c) ==> glob_body(seq![c]) == seq!['\\', c],
        !"[](){}.+^$|\\*?"@.contains(c) ==> glob_body(seq![c]) == seq![c],
{
    globs_go_together(a, b);
    assert("^"@ + (glob_body(a) + glob_body(b)) + "$"@ =~= "^"@ + glob_body(a) + glob_body(b)
        + "$"@);
    reveal_with_fuel(glob_body, 3);
    let none = Seq::<char>::empty();
    assert(seq!['*'].skip(1) =~= none);
    assert(seq!['*', '*'].skip(2) =~= none);
    assert(seq!['?'].skip(1) =~= none);
    assert(seq![c].skip(1) =~= none);
    assert("[^\\\\]*"@ + none =~= "[^\\\\]*"@);
    assert(".*"@ + none =~= ".*"@);
    assert("[^\\\\]"@ + none =~= "[^\\\\]"@);
    assert(literal_char(c) + none =~= literal_char(c));
    reveal_strlit("[](){}.+^$|\\");
    reveal_strlit("[](){}.+^$|\\*?");
    reveal_strlit("\\\\");
    assert("\\\\"@ =~= seq!['\\', '\\']);
    let all = "[](){}.+^$|\\*?"@;
    assert(all[0] == '[' && all[1] == ']' && all[2] == '(' && all[3] == ')' && all[4] == '{'
        && all[5] == '}' && all[6] == '.' && all[7] == '+' && all[8] == '^' && all[9] == '$'
        && all[10] == '|' && all[11] == '\\' && all[12] == '*' && all[13] == '?');
}

/// A pattern that begins with an abbreviated hive, in any case, means the same
/// as with the hive's full name.
pub proof fn patterns_name_hives_in_full(hive: Hive, short: Seq<char>, rest: Seq<char>)
    requires
        crate::text::uppered(short) == short_name_of(hive),
        rest.len() > 0,
    ensures
        full_root(short + seq!['\\'] + rest) == long_name_of(hive) + seq!['\\'] + rest,
{
    reveal_strlit("\\");
    assert("\\"@ =~= seq!['\\']);
    reveal_strlit("HKLM");
    reveal_strlit("HKCU");
    reveal_strlit("HKCR");
    reveal_strlit("HKU");
    reveal_strlit("HKCC");
    assert("HKLM"@[2] == 'L' && "HKLM"@.len() == 4);
    assert("HKCU"@[2] == 'C' && "HKCU"@[3] == 'U' && "HKCU"@.len() == 4);
    assert("HKCR"@[2] == 'C' && "HKCR"@[3] == 'R' && "HKCR"@.len() == 4);
    assert("HKCC"@[2] == 'C' && "HKCC"@[3] == 'C' && "HKCC"@.len() == 4);
    assert("HKU"@.len() == 3);
    let p = short + seq!['\\'] + rest;
    crate::model::short_hive_reads_back(hive);
    assert(hive_abbreviated(short) == Some(hive));
    first_of_is_first(p, '\\');
    let n = short.len() as int;
    assert(crate::text::uppered(short).len() == n);
    assert(p[n] == '\\');
    assert(first_of(p, '\\') == n) by {
        let i = first_of(p, '\\');
        if i < n {
            assert(p[i] == short[i]);
            assert(crate::text::uppered(short)[i] == '\\');
            assert(short_name_of(hive).contains('\\'));
        }
    }
    assert(p.take(n) =~= short);
    assert(p.skip(n + 1) =~= rest);
}

/// Bytes of a type without a form of its own are shown as bytes, however many
/// there are.
pub proof fn other_bytes_are_shown_as_bytes(ty: u32, bytes: Seq<u8>)
    requires
        ty == 0 || ty == 3 || ty == 4 || ty == 5 || 8 <= ty <= 10 || ty > 11 || (ty == 11
            && bytes.len() != 8),
    ensures
        preview_of(DataView::Hex { ty, bytes }) == crate::model::hex_preview_of(bytes),
{
}

/// Copying and moving go by their names.
pub proof fn copies_and_moves_are_told_apart()
    ensures
        crate::mutation::verb_of(true) == "move"@,
        crate::mutation::verb_of(false) == "copy"@,
{
}

/// A type goes by the name that the system gives to its number.
pub proof fn types_go_by_their_names(ty: u32)
    ensures
        type_name_of(Some(0)) == "REG_NONE"@,
        type_name_of(Some(1)) == "REG_SZ"@,
        type_name_of(Some(2)) == "REG_EXPAND_SZ"@,
        type_name_of(Some(3)) == "REG_BINARY"@,
        type_name_of(Some(4)) == "REG_DWORD"@,
        type_name_of(Some(5)) == "REG_DWORD_BIG_ENDIAN"@,
        type_name_of(Some(6)) == "REG_LINK"@,
        type_name_of(Some(7)) == "REG_MULTI_SZ"@,
        type_name_of(Some(11)) == "REG_QWORD"@,
        8 <= ty <= 10 || ty > 11 ==> type_name_of(Some(ty)) == "REG_<other>"@,
        type_id_of(DataView::Delete) is None,
        type_id_of(DataView::Sz(Seq::empty())) == Some(1u32),
        type_id_of(DataView::Dword(ty)) == Some(4u32),
        type_id_of(DataView::Hex { ty, bytes: Seq::empty() }) == Some(ty),
{
}

} // verus!
