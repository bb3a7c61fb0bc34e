//! `.reg` parser.
//!
//! The format's edge cases are all about state:
//!   * `\` at the end of a line continues a value, but only inside a `hex`
//!     payload; a quoted string that ends in `"C:\\"` is no continuation.
//!   * `;` starts a comment only at the start of a physical line; inside a hex
//!     continuation such a line is reported and ignored.
//!   * Inside quoted strings the only escapes are `\\` and `\"`.
//!   * A key name may itself contain `]`, so the terminator is the last `]`.
use vstd::prelude::*;
use vstd::slice::slice_subrange;

use crate::encoding::{decode_outcome, decode_strict, encoding_of, source_encoding, SourceEncoding};
use crate::model::{
    ends_in_zeros, ends_with_zeros, parse_path, path_named, BlockView, DataView, EntryView,
    FileView, KeyBlock, RegData, RegFile, RegFormat, ValueEntry, ValueName, REG_BINARY, REG_DWORD,
    REG_DWORD_BIG_ENDIAN, REG_EXPAND_SZ, REG_LINK, REG_MULTI_SZ, REG_QWORD, REG_SZ,
};
use crate::number::{dec_of, push_dec, read_unsigned, unsigned};
use crate::text::{
    begins, begins_char, chars_of, concat, contains_char, ends_char, ends_with_char, find_char,
    first_of, is_text, last_of, last_of_is_last, lowered, opt_text, push_chars, rfind_char,
    same_ignoring_case, split, split_by, starts_with, starts_with_char, string_of, strip_end,
    stripped_end, to_debug, debug_text, to_lower, trim, trim_end, trim_start, trimmed, trimmed_end,
    trimmed_start, views, views_push,
};
use crate::utf16::{exceeds_units, unit_count};

verus! {

/// How bad a diagnostic is.
#[derive(Clone, Copy, PartialEq, Eq, Debug, Structural)]
pub enum Severity {
    Warning,
    Error,
}

/// Something that the parser has to say about a line.
#[derive(Debug)]
pub struct Diagnostic {
    pub line: usize,
    pub severity: Severity,
    pub message: String,
}

/// What a `Diagnostic` stands for.
pub struct DiagView {
    pub line: usize,
    pub severity: Severity,
    pub message: Seq<char>,
}

impl View for Diagnostic {
    type V = DiagView;

    open spec fn view(&self) -> DiagView {
        DiagView { line: self.line, severity: self.severity, message: self.message@ }
    }
}

/// A warning.
pub open spec fn warning(line: usize, message: Seq<char>) -> DiagView {
    DiagView { line, severity: Severity::Warning, message }
}

/// An error.
pub open spec fn failure(line: usize, message: Seq<char>) -> DiagView {
    DiagView { line, severity: Severity::Error, message }
}

/// A parsed file and what was noticed on the way.
#[derive(Debug)]
pub struct ParseOutcome {
    pub file: RegFile,
    pub diagnostics: Vec<Diagnostic>,
}

/// What a `ParseOutcome` stands for.
pub struct OutcomeView {
    pub file: FileView,
    pub diagnostics: Seq<DiagView>,
}

impl View for ParseOutcome {
    type V = OutcomeView;

    open spec fn view(&self) -> OutcomeView {
        OutcomeView { file: self.file@, diagnostics: views(self.diagnostics@) }
    }
}

/// Some diagnostic is an error.
pub open spec fn any_error(diagnostics: Seq<DiagView>) -> bool {
    exists|i: int|
        0 <= i < diagnostics.len() && (#[trigger] diagnostics[i]).severity == Severity::Error
}

impl ParseOutcome {
    /// Whether any diagnostic is an error.
    pub fn has_errors(&self) -> (r: bool)
        ensures
            r == any_error(self@.diagnostics),
    {
        for i in 0..self.diagnostics.len()
            invariant
                forall|j: int|
                    0 <= j < i ==> (#[trigger] self@.diagnostics[j]).severity != Severity::Error,
        {
            if self.diagnostics[i].severity == Severity::Error {
                assert(self@.diagnostics[i as int].severity == Severity::Error);
                return true;
            }
        }
        false
    }
}

// ---------------------------------------------------------------------------
// Quoted strings
// ---------------------------------------------------------------------------

/// Reads a quoted string of which `out` was read and `rest` is left.
pub open spec fn unquote_from(out: Seq<char>, rest: Seq<char>) -> Result<
    (Seq<char>, Seq<char>),
    Seq<char>,
>
    decreases rest.len(),
{
    if rest.len() == 0 {
        Err("unterminated string literal"@)
    } else if rest[0] == '"' {
        Ok((out, rest.skip(1)))
    } else if rest[0] == '\\' {
        if rest.len() == 1 {
            Err("string ends with a lone backslash"@)
        } else if rest[1] == '\\' || rest[1] == '"' {
            unquote_from(out.push(rest[1]), rest.skip(2))
        } else {
            unquote_from(out.push('\\'), rest.skip(1))
        }
    } else {
        unquote_from(out.push(rest[0]), rest.skip(1))
    }
}

/// The content of the quoted string that `s` begins with, and what follows it.
pub open spec fn unquoted(s: Seq<char>) -> Result<(Seq<char>, Seq<char>), Seq<char>> {
    unquote_from(Seq::empty(), s.skip(1))
}

/// A text with its backslashes and quotes escaped.
pub open spec fn escaped(s: Seq<char>) -> Seq<char>
    decreases s.len(),
{
    if s.len() == 0 {
        Seq::empty()
    } else if s[0] == '\\' || s[0] == '"' {
        seq!['\\', s[0]] + escaped(s.skip(1))
    } else {
        seq![s[0]] + escaped(s.skip(1))
    }
}

proof fn unquote_skips_escaped(out: Seq<char>, s: Seq<char>, tail: Seq<char>)
    ensures
        unquote_from(out, escaped(s) + seq!['"'] + tail) == Ok::<(Seq<char>, Seq<char>), Seq<char>>(
            (out + s, tail),
        ),
    decreases s.len(),
{
    let text = escaped(s) + seq!['"'] + tail;
    if s.len() == 0 {
        assert(text[0] == '"');
        assert(text.skip(1) =~= tail);
        assert(out + s =~= out);
    } else {
        let next = escaped(s.skip(1)) + seq!['"'] + tail;
        unquote_skips_escaped(out.push(s[0]), s.skip(1), tail);
        assert(out.push(s[0]) + s.skip(1) =~= out + s);
        if s[0] == '\\' || s[0] == '"' {
            assert(text[0] == '\\' && text[1] == s[0]);
            assert(text.skip(2) =~= next);
        } else {
            assert(text[0] == s[0]);
            assert(text.skip(1) =~= next);
        }
    }
}

/// A text is read back from its quoted form, whatever follows the quotes.
pub proof fn quoted_text_reads_back(s: Seq<char>, tail: Seq<char>)
    ensures
        unquoted(seq!['"'] + escaped(s) + seq!['"'] + tail) == Ok::<
            (Seq<char>, Seq<char>),
            Seq<char>,
        >((s, tail)),
{
    let text = seq!['"'] + escaped(s) + seq!['"'] + tail;
    assert(text.skip(1) =~= escaped(s) + seq!['"'] + tail);
    unquote_skips_escaped(Seq::empty(), s, tail);
    assert(Seq::<char>::empty() + s =~= s);
}

/// Reads the quoted string at the start of `s`; gives its content and the
/// position behind its closing quote.
pub fn unquote(s: &[char]) -> (r: Result<(Vec<char>, usize), String>)
    requires
        s@.len() > 0,
    ensures
        match r {
            Ok((text, n)) => n <= s@.len() && unquoted(s@) == Ok::<
                (Seq<char>, Seq<char>),
                Seq<char>,
            >((text@, s@.skip(n as int))),
            Err(e) => unquoted(s@) == Err::<(Seq<char>, Seq<char>), Seq<char>>(e@),
        },
{
    let mut out: Vec<char> = Vec::new();
    let mut i: usize = 1;
    assert(out@ =~= Seq::<char>::empty());
    while i < s.len()
        invariant
            1 <= i <= s.len(),
            unquoted(s@) == unquote_from(out@, s@.skip(i as int)),
        decreases s.len() - i,
    {
        let ghost rest = s@.skip(i as int);
        assert(rest[0] == s@[i as int]);
        assert(rest.skip(1) =~= s@.skip(i + 1));
        let c = s[i];
        if c == '"' {
            return Ok((out, i + 1));
        }
        if c == '\\' {
            if i + 1 >= s.len() {
                return Err("string ends with a lone backslash".to_owned());
            }
            let next = s[i + 1];
            assert(rest[1] == next);
            assert(rest.skip(2) =~= s@.skip(i + 2));
            if next == '\\' || next == '"' {
                out.push(next);
                i += 2;
            } else {
                out.push('\\');
                i += 1;
            }
        } else {
            out.push(c);
            i += 1;
        }
    }
    Err("unterminated string literal".to_owned())
}

// ---------------------------------------------------------------------------
// Value names
// ---------------------------------------------------------------------------

/// The value name that a line begins with, and the rest of the line.
pub open spec fn value_name_of(s: Seq<char>) -> Result<
    (Option<Seq<char>>, Seq<char>),
    Seq<char>,
> {
    if begins_char(s, '@') {
        Ok((None, trimmed_start(s.skip(1))))
    } else if begins_char(s, '"') {
        match unquoted(s) {
            Ok((name, tail)) => if name.contains('\0') {
                Err("value name contains an embedded NUL"@)
            } else if unit_count(name) > 16_383 {
                Err("value name exceeds the 16,383 UTF-16 code-unit limit"@)
            } else {
                Ok((Some(name), trimmed_start(tail)))
            },
            Err(e) => Err(e),
        }
    } else {
        Err("expected a quoted value name or `@`, found "@ + debug_text(s))
    }
}

/// Splits a line into a value name and the rest.
pub fn parse_value_name(s: &[char]) -> (r: Result<(ValueName, &[char]), String>)
    ensures
        match r {
            Ok((name, rest)) => value_name_of(s@) == Ok::<
                (Option<Seq<char>>, Seq<char>),
                Seq<char>,
            >((name@, rest@)),
            Err(e) => value_name_of(s@) == Err::<(Option<Seq<char>>, Seq<char>), Seq<char>>(e@),
        },
{
    if starts_with_char(s, '@') {
        return Ok((ValueName::Default, trim_start(slice_subrange(s, 1, s.len()))));
    }
    if starts_with_char(s, '"') {
        return match unquote(s) {
            Ok((name, n)) => {
                if contains_char(name.as_slice(), '\0') {
                    return Err("value name contains an embedded NUL".to_owned());
                }
                if exceeds_units(name.as_slice(), 16_383) {
                    return Err("value name exceeds the 16,383 UTF-16 code-unit limit".to_owned());
                }
                Ok(
                    (
                        ValueName::Named(string_of(name.as_slice())),
                        trim_start(slice_subrange(s, n, s.len())),
                    ),
                )
            },
            Err(e) => Err(e),
        };
    }
    Err(
        concat(
            "expected a quoted value name or `@`, found ",
            to_debug(string_of(s).as_str()).as_str(),
        ),
    )
}

// ---------------------------------------------------------------------------
// Value data
// ---------------------------------------------------------------------------

/// The bytes that hexadecimal tokens stand for, `acc` being already read; blank
/// tokens are skipped. Fails with the first token that is no byte.
pub open spec fn token_bytes(acc: Seq<u8>, tokens: Seq<Seq<char>>) -> Result<Seq<u8>, Seq<char>>
    decreases tokens.len(),
{
    if tokens.len() == 0 {
        Ok(acc)
    } else {
        let t = trimmed(tokens[0]);
        if t.len() == 0 {
            token_bytes(acc, tokens.skip(1))
        } else {
            match unsigned(t, 16, 0xff) {
                Some(v) => token_bytes(acc.push(v as u8), tokens.skip(1)),
                None => Err(t),
            }
        }
    }
}

/// What the shape of a payload gives reason to warn of.
pub open spec fn shape_of(line: usize, ty: u32, bytes: Seq<u8>) -> Seq<DiagView> {
    if ty == REG_SZ || ty == REG_EXPAND_SZ || ty == REG_LINK {
        if bytes.len() % 2 != 0 {
            seq![warning(line, "string payload has an odd byte count (not valid UTF-16LE)"@)]
        } else if !ends_in_zeros(bytes, 2) {
            seq![
                warning(
                    line,
                    "string payload is not NUL-terminated - consumers will read past the value"@,
                ),
            ]
        } else {
            Seq::empty()
        }
    } else if ty == REG_MULTI_SZ {
        if bytes.len() % 2 != 0 {
            seq![warning(line, "REG_MULTI_SZ payload has an odd byte count"@)]
        } else if !ends_in_zeros(bytes, 4) && bytes.len() != 0 {
            seq![warning(line, "REG_MULTI_SZ must end with a double NUL (00,00,00,00)"@)]
        } else {
            Seq::empty()
        }
    } else if ty == REG_DWORD || ty == REG_DWORD_BIG_ENDIAN {
        if bytes.len() != 4 {
            seq![
                warning(
                    line,
                    "DWORD payload is "@ + dec_of(bytes.len()) + " bytes, expected 4"@,
                ),
            ]
        } else {
            Seq::empty()
        }
    } else if ty == REG_QWORD {
        if bytes.len() != 8 {
            seq![
                warning(
                    line,
                    "QWORD payload is "@ + dec_of(bytes.len()) + " bytes, expected 8"@,
                ),
            ]
        } else {
            Seq::empty()
        }
    } else {
        Seq::empty()
    }
}

/// What the size of a payload gives reason to warn of.
pub open spec fn size_of(line: usize, bytes: Seq<u8>) -> Seq<DiagView> {
    if bytes.len() > 1_048_576 {
        seq![
            warning(
                line,
                "value exceeds 1 MB - Microsoft recommends a file reference instead"@,
            ),
        ]
    } else {
        Seq::empty()
    }
}

/// What reading data has to say, and the data where it could be read.
pub struct DataOutcome {
    pub diagnostics: Seq<DiagView>,
    pub data: Option<DataView>,
}

/// Data that could not be read.
pub open spec fn no_data(line: usize, message: Seq<char>) -> DataOutcome {
    DataOutcome { diagnostics: seq![failure(line, message)], data: None }
}

/// The data of a hexadecimal payload.
pub open spec fn payload_of(line: usize, ty: u32, payload: Seq<char>) -> DataOutcome {
    match token_bytes(Seq::empty(), split_by(payload, ',')) {
        Ok(bytes) => DataOutcome {
            diagnostics: shape_of(line, ty, bytes) + size_of(line, bytes),
            data: Some(DataView::Hex { ty, bytes }),
        },
        Err(token) => no_data(line, "invalid hex byte "@ + debug_text(token)),
    }
}

/// The data that the right-hand side of a value line stands for.
pub open spec fn data_of(line: usize, rhs: Seq<char>) -> DataOutcome {
    let lower = lowered(rhs);
    if rhs == "-"@ {
        DataOutcome { diagnostics: Seq::empty(), data: Some(DataView::Delete) }
    } else if begins_char(rhs, '"') {
        match unquoted(rhs) {
            Ok((text, tail)) => DataOutcome {
                diagnostics: if trimmed(tail).len() != 0 {
                    seq![
                        warning(
                            line,
                            "ignoring text after string: "@ + debug_text(trimmed(tail)),
                        ),
                    ]
                } else {
                    Seq::empty()
                },
                data: Some(DataView::Sz(text)),
            },
            Err(e) => no_data(line, e),
        }
    } else if begins(lower, "dword:"@) {
        let digits = trimmed(lower.skip(6));
        match unsigned(digits, 16, 0xffff_ffff) {
            Some(v) => DataOutcome {
                diagnostics: Seq::empty(),
                data: Some(DataView::Dword(v as u32)),
            },
            None => no_data(line, "invalid dword literal "@ + debug_text(digits)),
        }
    } else if begins(lower, "hex"@) {
        let rest = lower.skip(3);
        if begins_char(rest, '(') {
            let inner = rest.skip(1);
            let close = first_of(inner, ')');
            if close >= inner.len() {
                no_data(line, "unterminated `hex(` type specifier"@)
            } else {
                match unsigned(trimmed(inner.take(close)), 16, 0xffff_ffff) {
                    Some(ty) => if begins_char(inner.skip(close + 1), ':') {
                        payload_of(line, ty as u32, inner.skip(close + 2))
                    } else {
                        no_data(line, "expected `:` after `hex(N)`"@)
                    },
                    None => no_data(line, "invalid hex type "@ + debug_text(inner.take(close))),
                }
            }
        } else if begins_char(rest, ':') {
            payload_of(line, REG_BINARY, rest.skip(1))
        } else {
            no_data(line, "unrecognised data literal "@ + debug_text(rhs))
        }
    } else {
        no_data(line, "unrecognised data literal "@ + debug_text(rhs))
    }
}

/// Optional data as a view.
pub open spec fn data_view(d: Option<RegData>) -> Option<DataView> {
    match d {
        Some(d) => Some(d@),
        None => None,
    }
}

/// Reads the bytes that hexadecimal tokens stand for.
pub fn read_tokens(tokens: &Vec<Vec<char>>) -> (r: Result<Vec<u8>, String>)
    ensures
        match r {
            Ok(bytes) => token_bytes(Seq::empty(), views(tokens@)) == Ok::<Seq<u8>, Seq<char>>(
                bytes@,
            ),
            Err(token) => token_bytes(Seq::empty(), views(tokens@)) == Err::<Seq<u8>, Seq<char>>(
                token@,
            ),
        },
{
    let mut out: Vec<u8> = Vec::new();
    let ghost all = views(tokens@);
    assert(all.skip(0) =~= all);
    assert(out@ =~= Seq::<u8>::empty());
    for i in 0..tokens.len()
        invariant
            all == views(tokens@),
            token_bytes(Seq::empty(), all) == token_bytes(out@, all.skip(i as int)),
    {
        let ghost rest = all.skip(i as int);
        assert(rest[0] == tokens@[i as int]@);
        assert(rest.skip(1) =~= all.skip(i + 1));
        let t = trim(tokens[i].as_slice());
        if t.len() > 0 {
            match read_unsigned(t, 16, 0xff) {
                Some(v) => {
                    out.push(v as u8);
                },
                None => {
                    return Err(string_of(t));
                },
            }
        }
    }
    assert(all.skip(all.len() as int) =~= Seq::<Seq<char>>::empty());
    Ok(out)
}

// ---------------------------------------------------------------------------
// Lines
// ---------------------------------------------------------------------------

/// What the parser has seen so far.
pub struct StateView {
    pub diags: Seq<DiagView>,
    pub keys: Seq<BlockView>,
    pub current: Option<BlockView>,
}

impl StateView {
    /// With further diagnostics.
    pub open spec fn noting(self, more: Seq<DiagView>) -> StateView {
        StateView { diags: self.diags + more, ..self }
    }

    /// With the open key block closed.
    pub open spec fn flushed(self) -> StateView {
        StateView {
            keys: match self.current {
                Some(k) => self.keys.push(k),
                None => self.keys,
            },
            current: None,
            ..self
        }
    }
}

/// Some component of a subkey path is longer than the registry allows.
pub open spec fn component_too_long(sub: Seq<char>) -> bool {
    let parts = split_by(sub, '\\');
    exists|i: int| 0 <= i < parts.len() && unit_count(#[trigger] parts[i]) > 255
}

/// The warning for text behind a key header.
pub open spec fn trailing_of(line: usize, trailing: Seq<char>) -> Seq<DiagView> {
    if trailing.len() != 0 && !begins_char(trailing, ';') {
        seq![warning(line, "ignoring text after `]`: "@ + debug_text(trailing))]
    } else {
        Seq::empty()
    }
}

/// The warning for a component that is too long.
pub open spec fn component_of(line: usize, sub: Seq<char>) -> Seq<DiagView> {
    if component_too_long(sub) {
        seq![warning(line, "a key name component exceeds 255 UTF-16 code units"@)]
    } else {
        Seq::empty()
    }
}

/// The state after a key header.
pub open spec fn after_key_line(st: StateView, line: usize, s: Seq<char>) -> StateView {
    let close = last_of(s, ']');
    if close < 0 {
        st.noting(seq![failure(line, "unterminated key header (missing `]`)"@)])
    } else {
        let inner = s.subrange(1, close);
        let trailing = trailed(s, close);
        let delete = begins_char(inner, '-');
        let name = if delete {
            inner.skip(1)
        } else {
            inner
        };
        let noted = st.noting(trailing_of(line, trailing));
        match path_named(name) {
            None => noted.noting(
                seq![failure(line, "unknown root hive in key path "@ + debug_text(name))],
            ),
            Some(path) => StateView {
                current: Some(BlockView { path, delete, values: Seq::empty(), line }),
                ..noted.noting(component_of(line, path.sub)).flushed()
            },
        }
    }
}

/// What follows position `close`, trimmed.
pub open spec fn trailed(s: Seq<char>, close: int) -> Seq<char> {
    trimmed(s.skip(close + 1))
}

/// The state after a value line.
pub open spec fn after_value_line(st: StateView, line: usize, s: Seq<char>) -> StateView {
    match value_name_of(s) {
        Err(e) => st.noting(seq![failure(line, e)]),
        Ok((name, rest)) => if !begins_char(rest, '=') {
            st.noting(seq![failure(line, "expected `=` after value name"@)])
        } else {
            let read = data_of(line, trimmed(rest.skip(1)));
            let noted = st.noting(read.diagnostics);
            match (read.data, st.current) {
                (None, _) => noted,
                (Some(_), None) => noted.noting(
                    seq![failure(line, "value appears before any [key] header"@)],
                ),
                (Some(data), Some(k)) => {
                    let block = BlockView {
                        values: k.values.push(EntryView { name, data, line }),
                        ..k
                    };
                    StateView { current: Some(block), ..noted }.noting(
                        if k.delete {
                            seq![
                                warning(line, "values under a `[-KEY]` delete block are ignored"@),
                            ]
                        } else {
                            Seq::empty()
                        },
                    )
                },
            }
        },
    }
}

/// The state after a logical line.
pub open spec fn after_line(st: StateView, line: usize, s: Seq<char>) -> StateView {
    if begins_char(s, '[') {
        after_key_line(st, line, s)
    } else {
        after_value_line(st, line, s)
    }
}

/// What stands behind the first `=` that follows the name of a value line; the
/// name may hold a `=` itself where it is quoted. A key line has no payload.
pub open spec fn assigned_in(t: Seq<char>) -> Option<Seq<char>> {
    let rest = if begins_char(t, '[') {
        Seq::empty()
    } else if begins_char(t, '"') {
        match unquoted(t) {
            Ok((_, tail)) => tail,
            Err(_) => Seq::empty(),
        }
    } else {
        t
    };
    let i = first_of(rest, '=');
    if i < rest.len() {
        Some(rest.skip(i + 1))
    } else {
        None
    }
}

/// A physical line that the next one continues: a value line with a `hex`
/// payload that ends in a backslash.
pub open spec fn continues(t: Seq<char>) -> bool {
    ends_char(t, '\\') && assigned_in(t) is Some && begins(
        lowered(trimmed_start(assigned_in(t)->0)),
        "hex"@,
    )
}

/// A line without the backslashes that continue it.
pub open spec fn uncontinued(t: Seq<char>) -> Seq<char> {
    trimmed_end(stripped_end(t, '\\'))
}

/// The physical lines of a text.
pub open spec fn lines_of(text: Seq<char>) -> Seq<Seq<char>> {
    split_by(text, '\n').map_values(|l: Seq<char>| stripped_end(l, '\r'))
}

/// The number of the line at position `i`, counted from one.
pub open spec fn line_number(i: int) -> usize {
    if i < usize::MAX {
        (i + 1) as usize
    } else {
        usize::MAX
    }
}

/// A blank line or a comment.
pub open spec fn is_filler(t: Seq<char>) -> bool {
    t.len() == 0 || begins_char(t, ';')
}

/// The first line from `i` on that is neither blank nor a comment.
pub open spec fn header_at(lines: Seq<Seq<char>>, i: int) -> int
    decreases lines.len() - i,
{
    if i < lines.len() && is_filler(trimmed(lines[i])) {
        header_at(lines, i + 1)
    } else {
        i
    }
}

/// The dialect that a line announces.
pub open spec fn announced(h: Seq<char>) -> Option<RegFormat> {
    if lowered(h) == lowered("REGEDIT4"@) {
        Some(RegFormat::V4)
    } else if begins(lowered(h), "windows registry editor version 5"@) {
        Some(RegFormat::V5)
    } else {
        None
    }
}

/// The state after the lines from `i` on; `pending` is the value that is being
/// continued, with the number of its first line.
pub open spec fn after_lines(
    st: StateView,
    lines: Seq<Seq<char>>,
    i: int,
    pending: Option<(usize, Seq<char>)>,
) -> StateView
    decreases lines.len() - i,
{
    if i >= lines.len() {
        match pending {
            Some((start, acc)) => after_line(
                st.noting(
                    seq![warning(start, "file ends with a dangling `\\` continuation"@)],
                ),
                start,
                acc,
            ),
            None => st,
        }
    } else {
        let t = trimmed(lines[i]);
        let number = line_number(i);
        match pending {
            Some((start, acc)) => if begins_char(t, ';') {
                after_lines(
                    st.noting(
                        seq![
                            warning(
                                number,
                                "comment inside a hex continuation - regedit.exe handles this inconsistently; the line is ignored"@,
                            ),
                        ],
                    ),
                    lines,
                    i + 1,
                    pending,
                )
            } else if ends_char(t, '\\') {
                after_lines(st, lines, i + 1, Some((start, acc + uncontinued(t))))
            } else {
                after_lines(after_line(st, start, acc + t), lines, i + 1, None)
            },
            None => if is_filler(t) {
                after_lines(st, lines, i + 1, None)
            } else if continues(t) {
                after_lines(st, lines, i + 1, Some((number, uncontinued(t))))
            } else {
                after_lines(after_line(st, number, t), lines, i + 1, None)
            },
        }
    }
}

/// The message for a file without a header.
pub open spec fn header_missing() -> Seq<char> {
    "missing .reg header (expected \"Windows Registry Editor Version 5.00\" or \"REGEDIT4\")"@
}

/// The dialect and the final state of a text.
pub open spec fn run_of(text: Seq<char>) -> (RegFormat, StateView) {
    let lines = lines_of(text);
    let start = StateView { diags: Seq::empty(), keys: Seq::empty(), current: None };
    let at = header_at(lines, 0);
    let header = if at < lines.len() {
        announced(trimmed(lines[at]))
    } else {
        None
    };
    match header {
        Some(format) => (format, after_lines(start, lines, at + 1, None).flushed()),
        None => (
            RegFormat::V5,
            after_lines(
                start.noting(seq![failure(line_number(at), header_missing())]),
                lines,
                at,
                None,
            ).flushed(),
        ),
    }
}

/// The outcome of parsing a text.
pub open spec fn parse_of(text: Seq<char>, encoding: SourceEncoding) -> OutcomeView {
    let (format, st) = run_of(text);
    OutcomeView {
        file: FileView { format, encoding, keys: st.keys },
        diagnostics: st.diags,
    }
}

/// The outcome of parsing bytes: those of the text where they can be decoded, a
/// single error otherwise.
pub open spec fn parse_bytes_of(bytes: Seq<u8>, ansi: Option<Seq<char>>) -> OutcomeView {
    match decode_outcome(bytes, ansi) {
        Ok((text, encoding)) => parse_of(text, encoding),
        Err(message) => OutcomeView {
            file: FileView {
                format: RegFormat::V5,
                encoding: encoding_of(bytes),
                keys: Seq::empty(),
            },
            diagnostics: seq![failure(0, message)],
        },
    }
}

// ---------------------------------------------------------------------------
// The parser
// ---------------------------------------------------------------------------

/// The parser's state.
pub struct Parser {
    diags: Vec<Diagnostic>,
    keys: Vec<KeyBlock>,
    current: Option<KeyBlock>,
}

impl View for Parser {
    type V = StateView;

    closed spec fn view(&self) -> StateView {
        StateView {
            diags: views(self.diags@),
            keys: views(self.keys@),
            current: match self.current {
                Some(k) => Some(k@),
                None => None,
            },
        }
    }
}

impl Parser {
    /// A parser that has seen nothing yet.
    pub fn new() -> (r: Parser)
        ensures
            r@ == (StateView { diags: Seq::empty(), keys: Seq::empty(), current: None }),
    {
        let r = Parser { diags: Vec::new(), keys: Vec::new(), current: None };
        assert(r@.diags =~= Seq::<DiagView>::empty());
        assert(r@.keys =~= Seq::<BlockView>::empty());
        r
    }

    fn warn(&mut self, line: usize, message: String)
        ensures
            final(self)@ == old(self)@.noting(seq![warning(line, message@)]),
    {
        broadcast use views_push;

        let ghost before = views(self.diags@);
        let d = Diagnostic { line, severity: Severity::Warning, message };
        self.diags.push(d);
        assert(views(self.diags@) =~= before + seq![d@]);
    }

    fn error(&mut self, line: usize, message: String)
        ensures
            final(self)@ == old(self)@.noting(seq![failure(line, message@)]),
    {
        broadcast use views_push;

        let ghost before = views(self.diags@);
        let d = Diagnostic { line, severity: Severity::Error, message };
        self.diags.push(d);
        assert(views(self.diags@) =~= before + seq![d@]);
    }

    fn flush_key(&mut self)
        ensures
            final(self)@ == old(self)@.flushed(),
    {
        broadcast use views_push;

        let current = self.current.take();
        if let Some(k) = current {
            self.keys.push(k);
        }
    }

    /// Warns of payloads that consumers are known to misread.
    pub fn check_hex_shape(&mut self, line: usize, ty: u32, bytes: &[u8])
        ensures
            final(self)@ == old(self)@.noting(
                shape_of(line, ty, bytes@) + size_of(line, bytes@),
            ),
    {
        let ghost start = self@;
        if ty == REG_SZ || ty == REG_EXPAND_SZ || ty == REG_LINK {
            if bytes.len() % 2 != 0 {
                self.warn(
                    line,
                    "string payload has an odd byte count (not valid UTF-16LE)".to_owned(),
                );
            } else if !ends_with_zeros(bytes, 2) {
                self.warn(
                    line,
                    "string payload is not NUL-terminated - consumers will read past the value".to_owned(),
                );
            }
        } else if ty == REG_MULTI_SZ {
            if bytes.len() % 2 != 0 {
                self.warn(line, "REG_MULTI_SZ payload has an odd byte count".to_owned());
            } else if !ends_with_zeros(bytes, 4) && bytes.len() != 0 {
                self.warn(
                    line,
                    "REG_MULTI_SZ must end with a double NUL (00,00,00,00)".to_owned(),
                );
            }
        } else if ty == REG_DWORD || ty == REG_DWORD_BIG_ENDIAN {
            if bytes.len() != 4 {
                let mut message = "DWORD payload is ".to_owned();
                push_dec(&mut message, bytes.len() as u64);
                message.append(" bytes, expected 4");
                self.warn(line, message);
            }
        } else if ty == REG_QWORD {
            if bytes.len() != 8 {
                let mut message = "QWORD payload is ".to_owned();
                push_dec(&mut message, bytes.len() as u64);
                message.append(" bytes, expected 8");
                self.warn(line, message);
            }
        }
        assert(self@.diags =~= start.diags + shape_of(line, ty, bytes@));
        let ghost shaped = self@;
        if bytes.len() > 1_048_576 {
            self.warn(
                line,
                "value exceeds 1 MB - Microsoft recommends a file reference instead".to_owned(),
            );
        }
        assert(self@.diags =~= start.diags + (shape_of(line, ty, bytes@) + size_of(line, bytes@)));
    }

    fn parse_payload(&mut self, line: usize, ty: u32, payload: &[char]) -> (r: Option<RegData>)
        ensures
            final(self)@ == old(self)@.noting(payload_of(line, ty, payload@).diagnostics),
            data_view(r) == payload_of(line, ty, payload@).data,
    {
        let tokens = split(payload, ',');
        match read_tokens(&tokens) {
            Ok(bytes) => {
                self.check_hex_shape(line, ty, bytes.as_slice());
                Some(RegData::Hex { ty, bytes })
            },
            Err(token) => {
                self.error(line, concat("invalid hex byte ", to_debug(token.as_str()).as_str()));
                None
            },
        }
    }

    /// Reads the right-hand side of a value line.
    pub fn parse_data(&mut self, line: usize, rhs: &[char]) -> (r: Option<RegData>)
        ensures
            final(self)@ == old(self)@.noting(data_of(line, rhs@).diagnostics),
            data_view(r) == data_of(line, rhs@).data,
    {
        let ghost start = self@;
        proof {
            assert(start.diags + Seq::<DiagView>::empty() =~= start.diags);
        }
        if is_text(rhs, "-") {
            return Some(RegData::Delete);
        }
        if starts_with_char(rhs, '"') {
            return match unquote(rhs) {
                Ok((text, n)) => {
                    let tail = trim(slice_subrange(rhs, n, rhs.len()));
                    if tail.len() != 0 {
                        self.warn(
                            line,
                            concat(
                                "ignoring text after string: ",
                                to_debug(string_of(tail).as_str()).as_str(),
                            ),
                        );
                    }
                    Some(RegData::Sz(string_of(text.as_slice())))
                },
                Err(e) => {
                    self.error(line, e);
                    None
                },
            };
        }
        let lower_chars = to_lower(rhs);
        let lower = lower_chars.as_slice();
        let dword = chars_of("dword:");
        let hex = chars_of("hex");
        proof {
            reveal_strlit("dword:");
            reveal_strlit("hex");
        }
        if starts_with(lower, dword.as_slice()) {
            let digits = trim(slice_subrange(lower, 6, lower.len()));
            return match read_unsigned(digits, 16, 0xffff_ffff) {
                Some(v) => Some(RegData::Dword(v)),
                None => {
                    self.error(
                        line,
                        concat(
                            "invalid dword literal ",
                            to_debug(string_of(digits).as_str()).as_str(),
                        ),
                    );
                    None
                },
            };
        }
        if starts_with(lower, hex.as_slice()) {
            let rest = slice_subrange(lower, 3, lower.len());
            if starts_with_char(rest, '(') {
                let inner = slice_subrange(rest, 1, rest.len());
                let close = find_char(inner, ')');
                if close >= inner.len() {
                    self.error(line, "unterminated `hex(` type specifier".to_owned());
                    return None;
                }
                let spec = slice_subrange(inner, 0, close);
                let ty = match read_unsigned(trim(spec), 16, 0xffff_ffff) {
                    Some(ty) => ty,
                    None => {
                        self.error(
                            line,
                            concat(
                                "invalid hex type ",
                                to_debug(string_of(spec).as_str()).as_str(),
                            ),
                        );
                        return None;
                    },
                };
                let after = slice_subrange(inner, close + 1, inner.len());
                if !starts_with_char(after, ':') {
                    self.error(line, "expected `:` after `hex(N)`".to_owned());
                    return None;
                }
                let payload = slice_subrange(after, 1, after.len());
                assert(payload@ =~= inner@.skip(close + 2));
                return self.parse_payload(line, ty, payload);
            }
            if starts_with_char(rest, ':') {
                return self.parse_payload(line, REG_BINARY, slice_subrange(rest, 1, rest.len()));
            }
        }
        self.error(
            line,
            concat(
                "unrecognised data literal ",
                to_debug(string_of(rhs).as_str()).as_str(),
            ),
        );
        None
    }

    fn key_line(&mut self, line: usize, s: &[char])
        requires
            begins_char(s@, '['),
        ensures
            final(self)@ == after_key_line(old(self)@, line, s@),
    {
        let ghost start = self@;
        let close = match rfind_char(s, ']') {
            Some(i) => i,
            None => {
                self.error(line, "unterminated key header (missing `]`)".to_owned());
                return;
            },
        };
        proof {
            last_of_is_last(s@, ']');
        }
        let inner = slice_subrange(s, 1, close);
        let trailing = trim(slice_subrange(s, close + 1, s.len()));
        if trailing.len() != 0 && !starts_with_char(trailing, ';') {
            self.warn(
                line,
                concat(
                    "ignoring text after `]`: ",
                    to_debug(string_of(trailing).as_str()).as_str(),
                ),
            );
        }
        assert(self@.diags =~= start.diags + trailing_of(line, trailing@));
        let delete = starts_with_char(inner, '-');
        let name = if delete {
            slice_subrange(inner, 1, inner.len())
        } else {
            inner
        };
        let path = match parse_path(name) {
            Some(path) => path,
            None => {
                self.error(
                    line,
                    concat(
                        "unknown root hive in key path ",
                        to_debug(string_of(name).as_str()).as_str(),
                    ),
                );
                return;
            },
        };
        let ghost noted = self@;
        if has_long_component(path.sub.as_str()) {
            self.warn(line, "a key name component exceeds 255 UTF-16 code units".to_owned());
        }
        assert(self@.diags =~= noted.diags + component_of(line, path@.sub));
        self.flush_key();
        let values: Vec<ValueEntry> = Vec::new();
        assert(views(values@) =~= Seq::<EntryView>::empty());
        self.current = Some(KeyBlock { path, delete, values, line });
    }

    fn value_line(&mut self, line: usize, s: &[char])
        ensures
            final(self)@ == after_value_line(old(self)@, line, s@),
    {
        broadcast use views_push;

        let ghost start = self@;
        let (name, rest) = match parse_value_name(s) {
            Ok((name, rest)) => (name, rest),
            Err(e) => {
                self.error(line, e);
                return;
            },
        };
        if !starts_with_char(rest, '=') {
            self.error(line, "expected `=` after value name".to_owned());
            return;
        }
        let rhs = trim(slice_subrange(rest, 1, rest.len()));
        let data = match self.parse_data(line, rhs) {
            Some(data) => data,
            None => {
                return;
            },
        };
        let current = self.current.take();
        match current {
            None => {
                self.error(line, "value appears before any [key] header".to_owned());
            },
            Some(mut k) => {
                let in_delete_block = k.delete;
                let entry = ValueEntry { name, data, line };
                let ghost before = views(k.values@);
                k.values.push(entry);
                assert(views(k.values@) == before.push(entry@));
                self.current = Some(k);
                let ghost noted = self@;
                if in_delete_block {
                    self.warn(
                        line,
                        "values under a `[-KEY]` delete block are ignored".to_owned(),
                    );
                } else {
                    assert(noted.diags + Seq::<DiagView>::empty() =~= noted.diags);
                }
            },
        }
    }

    fn logical(&mut self, line: usize, s: &[char])
        ensures
            final(self)@ == after_line(old(self)@, line, s@),
    {
        if starts_with_char(s, '[') {
            self.key_line(line, s);
        } else {
            self.value_line(line, s);
        }
    }

    /// Parses the lines from `first` on.
    fn run_lines(&mut self, lines: &Vec<Vec<char>>, first: usize)
        requires
            first <= lines@.len(),
        ensures
            final(self)@ == after_lines(old(self)@, views(lines@), first as int, None),
    {
        let ghost all = views(lines@);
        let ghost goal = after_lines(self@, all, first as int, None);
        let mut pending = false;
        let mut start: usize = 0;
        let mut acc: Vec<char> = Vec::new();
        let mut i: usize = first;
        while i < lines.len()
            invariant
                all == views(lines@),
                i <= lines.len(),
                goal == after_lines(
                    self@,
                    all,
                    i as int,
                    if pending {
                        Some((start, acc@))
                    } else {
                        None
                    },
                ),
            decreases lines.len() - i,
        {
            let number = i + 1;
            assert(number == line_number(i as int));
            let t = trim(lines[i].as_slice());
            assert(all[i as int] == lines@[i as int]@);
            i += 1;
            if pending {
                if starts_with_char(t, ';') {
                    self.warn(
                        number,
                        "comment inside a hex continuation - regedit.exe handles this inconsistently; the line is ignored".to_owned(),
                    );
                } else if ends_with_char(t, '\\') {
                    push_chars(&mut acc, trim_end(strip_end(t, '\\')));
                } else {
                    push_chars(&mut acc, t);
                    pending = false;
                    self.logical(start, acc.as_slice());
                }
            } else if t.len() > 0 && !starts_with_char(t, ';') {
                if is_hex_continuation(t) {
                    pending = true;
                    start = number;
                    acc = Vec::new();
                    push_chars(&mut acc, trim_end(strip_end(t, '\\')));
                    assert(acc@ =~= uncontinued(t@));
                } else {
                    self.logical(number, t);
                }
            }
        }
        if pending {
            self.warn(start, "file ends with a dangling `\\` continuation".to_owned());
            self.logical(start, acc.as_slice());
        }
    }

    /// Parses a text; gives its dialect.
    fn run(&mut self, text: &str) -> (format: RegFormat)
        requires
            old(self)@.diags.len() == 0,
            old(self)@.keys.len() == 0,
            old(self)@.current is None,
        ensures
            (format, final(self)@) == run_of(text@),
    {
        let chars = chars_of(text);
        let lines = physical_lines(chars.as_slice());
        let ghost all = lines_of(text@);
        proof {
            assert(self@.diags =~= Seq::<DiagView>::empty());
            assert(self@.keys =~= Seq::<BlockView>::empty());
        }
        let mut idx: usize = 0;
        while idx < lines.len() && is_filler_line(lines[idx].as_slice())
            invariant
                all == views(lines@),
                idx <= lines.len(),
                header_at(all, 0) == header_at(all, idx as int),
            decreases lines.len() - idx,
        {
            assert(all[idx as int] == lines@[idx as int]@);
            idx += 1;
        }
        proof {
            if idx < lines.len() {
                assert(all[idx as int] == lines@[idx as int]@);
            }
        }
        let format = if idx < lines.len() {
            read_header(lines[idx].as_slice())
        } else {
            None
        };
        let r = match format {
            Some(format) => {
                self.run_lines(&lines, idx + 1);
                format
            },
            None => {
                let number = if idx < usize::MAX {
                    idx + 1
                } else {
                    idx
                };
                self.error(
                    number,
                    "missing .reg header (expected \"Windows Registry Editor Version 5.00\" or \"REGEDIT4\")".to_owned(),
                );
                self.run_lines(&lines, idx);
                RegFormat::V5
            },
        };
        self.flush_key();
        r
    }
}

/// Whether some component of a subkey path is too long.
fn has_long_component(sub: &str) -> (r: bool)
    ensures
        r == component_too_long(sub@),
{
    let chars = chars_of(sub);
    let parts = split(chars.as_slice(), '\\');
    let ghost all = split_by(sub@, '\\');
    for i in 0..parts.len()
        invariant
            all == split_by(sub@, '\\'),
            all == views(parts@),
            forall|j: int| 0 <= j < i ==> unit_count(#[trigger] all[j]) <= 255,
    {
        assert(all[i as int] == parts@[i as int]@);
        if exceeds_units(parts[i].as_slice(), 255) {
            assert(unit_count(all[i as int]) > 255);
            return true;
        }
    }
    false
}

/// Splits a text into physical lines.
fn physical_lines(text: &[char]) -> (out: Vec<Vec<char>>)
    ensures
        views(out@) == lines_of(text@),
{
    broadcast use views_push;

    let raw = split(text, '\n');
    let ghost all = split_by(text@, '\n');
    let mut out: Vec<Vec<char>> = Vec::new();
    for i in 0..raw.len()
        invariant
            all == views(raw@),
            views(out@) =~= all.take(i as int).map_values(|l: Seq<char>| stripped_end(l, '\r')),
    {
        assert(all[i as int] == raw@[i as int]@);
        let line = vstd::slice::slice_to_vec(strip_end(raw[i].as_slice(), '\r'));
        let ghost before = out@;
        out.push(line);
        assert(views(out@) == views(before).push(line@));
    }
    assert(all.take(all.len() as int) =~= all);
    out
}

fn is_filler_line(line: &[char]) -> (r: bool)
    ensures
        r == is_filler(trimmed(line@)),
{
    let t = trim(line);
    t.len() == 0 || starts_with_char(t, ';')
}

/// The dialect that a line announces.
fn read_header(line: &[char]) -> (r: Option<RegFormat>)
    ensures
        r == announced(trimmed(line@)),
{
    let h = trim(line);
    let v4 = chars_of("REGEDIT4");
    let v5 = chars_of("windows registry editor version 5");
    let lower = to_lower(h);
    if same_ignoring_case(h, v4.as_slice()) {
        Some(RegFormat::V4)
    } else if starts_with(lower.as_slice(), v5.as_slice()) {
        Some(RegFormat::V5)
    } else {
        None
    }
}

/// Whether the next line continues this one.
pub fn is_hex_continuation(t: &[char]) -> (r: bool)
    ensures
        r == continues(t@),
{
    if !ends_with_char(t, '\\') || starts_with_char(t, '[') {
        return false;
    }
    let start: usize = if starts_with_char(t, '"') {
        match unquote(t) {
            Ok((_, n)) => n,
            Err(_) => {
                return false;
            },
        }
    } else {
        0
    };
    let rest = slice_subrange(t, start, t.len());
    assert(start == 0 ==> rest@ =~= t@);
    assert(rest@ =~= t@.skip(start as int));
    let i = find_char(rest, '=');
    if i >= rest.len() {
        return false;
    }
    let rhs = to_lower(trim_start(slice_subrange(rest, i + 1, rest.len())));
    let hex = chars_of("hex");
    starts_with(rhs.as_slice(), hex.as_slice())
}

/// Parses the text of a `.reg` file.
pub fn parse_str(text: &str, encoding: SourceEncoding) -> (r: ParseOutcome)
    ensures
        r@ == parse_of(text@, encoding),
{
    let mut p = Parser::new();
    let format = p.run(text);
    ParseOutcome { file: RegFile { format, encoding, keys: p.keys }, diagnostics: p.diags }
}

/// Parses the bytes of a `.reg` file. `ansi` is the system code page's reading
/// of the bytes, used where they have no byte-order mark and are not UTF-8.
pub fn parse_bytes(bytes: &[u8], ansi: Option<String>) -> (r: ParseOutcome)
    ensures
        r@ == parse_bytes_of(bytes@, opt_text(ansi)),
{
    broadcast use views_push;

    match decode_strict(bytes, ansi) {
        Ok((text, encoding)) => parse_str(text.as_str(), encoding),
        Err(message) => {
            let keys: Vec<KeyBlock> = Vec::new();
            let mut diagnostics: Vec<Diagnostic> = Vec::new();
            let d = Diagnostic { line: 0, severity: Severity::Error, message };
            diagnostics.push(d);
            assert(views(keys@) =~= Seq::<BlockView>::empty());
            assert(views(diagnostics@) =~= seq![d@]);
            ParseOutcome {
                file: RegFile { format: RegFormat::V5, encoding: source_encoding(bytes), keys },
                diagnostics,
            }
        },
    }
}

} // verus!
