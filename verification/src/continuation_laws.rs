//! Values over several lines, and what else makes no difference to a file.
use vstd::prelude::*;

use crate::encoding::SourceEncoding;
use crate::file_laws::{one_line, text_of};
use crate::model::RegFormat;
use crate::parser::{
    after_line, after_lines, announced, continues, escaped, header_at, is_filler, line_number,
    lines_of, parse_of, quoted_text_reads_back, uncontinued, StateView,
};
use crate::parser_laws::{no_separator, split_of_concat};
use crate::text::{
    begins_char, ends_char, first_of, is_white, lower_char, lowered, split_by, stripped_end,
    trimmed, trimmed_end, trimmed_start,
};
use crate::text_laws::{blank, trim_free, trimming_leaves_the_text};

verus! {

// ---------------------------------------------------------------------------
// Lines
// ---------------------------------------------------------------------------

/// Lines that a text can be made of: none breaks, and none ends in a carriage
/// return.
pub open spec fn are_lines(lines: Seq<Seq<char>>) -> bool {
    forall|i: int|
        0 <= i < lines.len() ==> one_line(#[trigger] lines[i]) && (lines[i].len() > 0
            ==> lines[i].last() != '\r')
}

/// A text comes apart into its lines.
pub proof fn text_comes_apart(lines: Seq<Seq<char>>)
    requires
        are_lines(lines),
    ensures
        lines_of(text_of(lines)) == lines.push(Seq::empty()),
    decreases lines.len(),
{
    let text = text_of(lines);
    let end = Seq::<char>::empty();
    if lines.len() == 0 {
        assert(split_by(text, '\n') =~= seq![text]);
        assert(lines_of(text) =~= seq![end]);
        assert(lines.push(end) =~= seq![end]);
    } else {
        let l = lines[0];
        let rest = lines.skip(1);
        let cr = l + seq!['\r'];
        assert(are_lines(rest)) by {
            assert forall|i: int| 0 <= i < rest.len() implies one_line(#[trigger] rest[i]) && (
            rest[i].len() > 0 ==> rest[i].last() != '\r') by {
                assert(rest[i] == lines[i + 1]);
            }
        }
        text_comes_apart(rest);
        assert forall|i: int| 0 <= i < cr.len() implies #[trigger] cr[i] != '\n' by {
            if i < l.len() {
                assert(cr[i] == l[i]);
            }
        }
        no_separator(cr, '\n');
        assert(split_by(cr, '\n') =~= seq![cr]);
        split_of_concat(cr, text_of(rest), '\n');
        assert(text == cr + seq!['\n'] + text_of(rest));
        let pieces = split_by(text_of(rest), '\n');
        assert(split_by(text, '\n') == seq![cr] + pieces);
        assert(cr.drop_last() =~= l);
        assert(stripped_end(cr, '\r') == stripped_end(l, '\r'));
        assert(stripped_end(l, '\r') == l);
        assert(lines_of(text) =~= seq![l] + lines_of(text_of(rest)));
        assert(seq![l] + rest.push(end) =~= lines.push(end));
    }
}

/// What is read depends on the lines only without the white space around them.
proof fn trimmed_lines_decide(
    st: StateView,
    a: Seq<Seq<char>>,
    b: Seq<Seq<char>>,
    i: int,
    pending: Option<(usize, Seq<char>)>,
)
    requires
        a.len() == b.len(),
        0 <= i,
        forall|k: int| i <= k < a.len() ==> trimmed(#[trigger] a[k]) == trimmed(b[k]),
    ensures
        after_lines(st, a, i, pending) == after_lines(st, b, i, pending),
    decreases a.len() - i,
{
    if i < a.len() {
        assert(trimmed(a[i]) == trimmed(b[i]));
        let t = trimmed(a[i]);
        match pending {
            Some((start, acc)) => {
                if begins_char(t, ';') {
                    trimmed_lines_decide(
                        st.noting(
                            seq![
                                crate::parser::warning(
                                    line_number(i),
                                    "comment inside a hex continuation - regedit.exe handles this inconsistently; the line is ignored"@,
                                ),
                            ],
                        ),
                        a,
                        b,
                        i + 1,
                        pending,
                    );
                } else if ends_char(t, '\\') {
                    trimmed_lines_decide(st, a, b, i + 1, Some((start, acc + uncontinued(t))));
                } else {
                    trimmed_lines_decide(after_line(st, start, acc + t), a, b, i + 1, None);
                }
            },
            None => {
                if is_filler(t) {
                    trimmed_lines_decide(st, a, b, i + 1, None);
                } else if continues(t) {
                    trimmed_lines_decide(
                        st,
                        a,
                        b,
                        i + 1,
                        Some((line_number(i), uncontinued(t))),
                    );
                } else {
                    trimmed_lines_decide(after_line(st, line_number(i), t), a, b, i + 1, None);
                }
            },
        }
    }
}

proof fn trimmed_lines_find_the_header(a: Seq<Seq<char>>, b: Seq<Seq<char>>, i: int)
    requires
        a.len() == b.len(),
        0 <= i,
        forall|k: int| i <= k < a.len() ==> trimmed(#[trigger] a[k]) == trimmed(b[k]),
    ensures
        header_at(a, i) == header_at(b, i),
        header_at(a, i) >= i,
    decreases a.len() - i,
{
    if i < a.len() {
        assert(trimmed(a[i]) == trimmed(b[i]));
        if is_filler(trimmed(a[i])) {
            trimmed_lines_find_the_header(a, b, i + 1);
        }
    }
}

/// White space around lines makes no difference: two texts whose lines are equal
/// without it parse alike.
pub proof fn white_space_around_lines_is_ignored(
    a: Seq<Seq<char>>,
    b: Seq<Seq<char>>,
    encoding: SourceEncoding,
)
    requires
        are_lines(a),
        are_lines(b),
        a.len() == b.len(),
        forall|k: int|
            0 <= k < a.len() ==> exists|s: Seq<char>, w: Seq<char>, x: Seq<char>, y: Seq<char>,
                z: Seq<char>|
                trim_free(s) && blank(w) && blank(x) && blank(y) && blank(z) && (#[trigger] a[k])
                    == #[trigger] (w + s + x) && b[k] == #[trigger] (y + s + z),
    ensures
        parse_of(text_of(a), encoding) == parse_of(text_of(b), encoding),
{
    let end = Seq::<char>::empty();
    text_comes_apart(a);
    text_comes_apart(b);
    let p = a.push(end);
    let q = b.push(end);
    assert forall|k: int| 0 <= k < p.len() implies trimmed(#[trigger] p[k]) == trimmed(q[k]) by {
        if k < a.len() {
            assert(p[k] == a[k] && q[k] == b[k]);
            let (s, w, x, y, z) = choose|
                s: Seq<char>,
                w: Seq<char>,
                x: Seq<char>,
                y: Seq<char>,
                z: Seq<char>,
            |
                trim_free(s) && blank(w) && blank(x) && blank(y) && blank(z) && (#[trigger] a[k])
                    == #[trigger] (w + s + x) && b[k] == #[trigger] (y + s + z);
            trimming_leaves_the_text(w, s, x);
            trimming_leaves_the_text(y, s, z);
        }
    }
    trimmed_lines_find_the_header(p, q, 0);
    let at = header_at(p, 0);
    let start = StateView { diags: Seq::empty(), keys: Seq::empty(), current: None };
    if at < p.len() {
        assert(trimmed(p[at]) == trimmed(q[at]));
    }
    trimmed_lines_decide(start, p, q, at + 1, None);
    let noted = start.noting(
        seq![crate::parser::failure(line_number(at), crate::parser::header_missing())],
    );
    trimmed_lines_decide(noted, p, q, at, None);
}

// ---------------------------------------------------------------------------
// Texts that differ in the middle
// ---------------------------------------------------------------------------

/// A line behind which nothing is open: it is no comment, is not blank and does
/// not end in a backslash.
pub open spec fn closes(line: Seq<char>) -> bool {
    let t = trimmed(line);
    t.len() > 0 && t[0] != ';' && t.last() != '\\'
}

/// Two texts that begin alike are read alike up to where they part, and nothing
/// is open there where the last common line closes.
proof fn common_lines_read_alike(
    st: StateView,
    a: Seq<Seq<char>>,
    b: Seq<Seq<char>>,
    i: int,
    m: int,
    pending: Option<(usize, Seq<char>)>,
) -> (r: StateView)
    requires
        0 <= i <= m <= a.len(),
        a.len() == b.len(),
        0 < m,
        forall|k: int| 0 <= k < m ==> #[trigger] a[k] == b[k],
        closes(a[m - 1]),
        i == m ==> pending is None,
    ensures
        after_lines(st, a, i, pending) == after_lines(r, a, m, None),
        after_lines(st, b, i, pending) == after_lines(r, b, m, None),
    decreases m - i,
{
    if i == m {
        st
    } else {
        assert(a[i] == b[i]);
        let t = trimmed(a[i]);
        match pending {
            Some((start, acc)) => {
                if begins_char(t, ';') {
                    let noted = st.noting(
                        seq![
                            crate::parser::warning(
                                line_number(i),
                                "comment inside a hex continuation - regedit.exe handles this inconsistently; the line is ignored"@,
                            ),
                        ],
                    );
                    common_lines_read_alike(noted, a, b, i + 1, m, pending)
                } else if ends_char(t, '\\') {
                    common_lines_read_alike(
                        st,
                        a,
                        b,
                        i + 1,
                        m,
                        Some((start, acc + uncontinued(t))),
                    )
                } else {
                    common_lines_read_alike(after_line(st, start, acc + t), a, b, i + 1, m, None)
                }
            },
            None => {
                if is_filler(t) {
                    common_lines_read_alike(st, a, b, i + 1, m, None)
                } else if continues(t) {
                    common_lines_read_alike(
                        st,
                        a,
                        b,
                        i + 1,
                        m,
                        Some((line_number(i), uncontinued(t))),
                    )
                } else {
                    common_lines_read_alike(
                        after_line(st, line_number(i), t),
                        a,
                        b,
                        i + 1,
                        m,
                        None,
                    )
                }
            },
        }
    }
}

proof fn header_stands_before(a: Seq<Seq<char>>, b: Seq<Seq<char>>, i: int, m: int)
    requires
        0 <= i < m <= a.len(),
        a.len() == b.len(),
        forall|k: int| 0 <= k < m ==> #[trigger] a[k] == b[k],
        closes(a[m - 1]),
    ensures
        header_at(a, i) == header_at(b, i),
        i <= header_at(a, i) < m,
    decreases m - i,
{
    assert(a[i] == b[i]);
    if is_filler(trimmed(a[i])) {
        assert(i < m - 1);
        header_stands_before(a, b, i + 1, m);
    }
}

/// Two texts that are read alike from where they part are read alike.
proof fn parting_lines(
    a: Seq<Seq<char>>,
    b: Seq<Seq<char>>,
    m: int,
    n: int,
    middle: spec_fn(StateView) -> StateView,
    st: StateView,
    i: int,
)
    requires
        0 < m <= n <= a.len(),
        0 <= i <= m,
        a.len() == b.len(),
        forall|k: int| 0 <= k < m ==> #[trigger] a[k] == b[k],
        forall|k: int| n <= k < a.len() ==> #[trigger] a[k] == b[k],
        closes(a[m - 1]),
        forall|st: StateView|
            #![trigger middle(st)]
            after_lines(st, a, m, None) == after_lines(middle(st), a, n, None),
        forall|st: StateView|
            #![trigger middle(st)]
            after_lines(st, b, m, None) == after_lines(middle(st), b, n, None),
    ensures
        after_lines(st, a, i, None) == after_lines(st, b, i, None),
{
    let r = common_lines_read_alike(st, a, b, i, m, None);
    let s = middle(r);
    assert(after_lines(r, a, m, None) == after_lines(s, a, n, None));
    assert(after_lines(r, b, m, None) == after_lines(s, b, n, None));
    trimmed_lines_decide(s, a, b, n, None);
}

/// The state before anything is read.
spec fn nothing_read() -> StateView {
    StateView { diags: Seq::empty(), keys: Seq::empty(), current: None }
}

/// The state where a header is missing.
spec fn header_missed(at: int) -> StateView {
    nothing_read().noting(
        seq![crate::parser::failure(line_number(at), crate::parser::header_missing())],
    )
}

proof fn alike_runs(a: Seq<Seq<char>>, b: Seq<Seq<char>>, at: int, encoding: SourceEncoding)
    requires
        are_lines(a),
        are_lines(b),
        ({
            let p = a.push(Seq::<char>::empty());
            let q = b.push(Seq::<char>::empty());
            &&& header_at(p, 0) == at
            &&& header_at(q, 0) == at
            &&& 0 <= at < p.len()
            &&& a.len() == b.len()
            &&& p[at] == q[at]
            &&& after_lines(nothing_read(), p, at + 1, None) == after_lines(
                nothing_read(),
                q,
                at + 1,
                None,
            )
            &&& after_lines(header_missed(at), p, at, None) == after_lines(
                header_missed(at),
                q,
                at,
                None,
            )
        }),
    ensures
        parse_of(text_of(a), encoding) == parse_of(text_of(b), encoding),
{
    text_comes_apart(a);
    text_comes_apart(b);
}

proof fn lines_together(a: Seq<Seq<char>>, b: Seq<Seq<char>>)
    requires
        are_lines(a),
        are_lines(b),
    ensures
        are_lines(a + b),
{
    let all = a + b;
    assert forall|i: int| 0 <= i < all.len() implies one_line(#[trigger] all[i]) && (all[i].len()
        > 0 ==> all[i].last() != '\r') by {
        if i < a.len() {
            assert(all[i] == a[i]);
        } else {
            assert(all[i] == b[i - a.len()]);
        }
    }
}

/// The lines of a text with `x` between `before` and `behind`.
spec fn with_middle(
    before: Seq<Seq<char>>,
    x: Seq<Seq<char>>,
    behind: Seq<Seq<char>>,
) -> Seq<Seq<char>> {
    (before + x + behind).push(Seq::empty())
}

proof fn middle_stands(before: Seq<Seq<char>>, x: Seq<Seq<char>>, behind: Seq<Seq<char>>)
    ensures
        with_middle(before, x, behind).len() == before.len() + x.len() + behind.len() + 1,
        forall|k: int|
            0 <= k < before.len() ==> #[trigger] with_middle(before, x, behind)[k] == before[k],
        forall|j: int|
            0 <= j < x.len() ==> with_middle(before, x, behind)[before.len() + j] == #[trigger] x[j],
{
    let all = with_middle(before, x, behind);
    assert forall|k: int| 0 <= k < before.len() implies #[trigger] all[k] == before[k] by {
        assert((before + x + behind)[k] == before[k]);
    }
    assert forall|j: int| 0 <= j < x.len() implies all[before.len() + j] == #[trigger] x[j] by {
        assert((before + x + behind)[before.len() + j] == x[j]);
    }
}

/// Two texts that differ only in the middle, where they are read alike, parse
/// alike.
proof fn differing_middles(
    before: Seq<Seq<char>>,
    x: Seq<Seq<char>>,
    y: Seq<Seq<char>>,
    behind: Seq<Seq<char>>,
    middle: spec_fn(StateView) -> StateView,
    encoding: SourceEncoding,
)
    requires
        are_lines(before),
        are_lines(x),
        are_lines(y),
        are_lines(behind),
        before.len() > 0,
        closes(before.last()),
        x.len() == y.len(),
        forall|st: StateView|
            #![trigger middle(st)]
            after_lines(st, with_middle(before, x, behind), before.len() as int, None)
                == after_lines(
                middle(st),
                with_middle(before, x, behind),
                before.len() as int + x.len(),
                None,
            ),
        forall|st: StateView|
            #![trigger middle(st)]
            after_lines(st, with_middle(before, y, behind), before.len() as int, None)
                == after_lines(
                middle(st),
                with_middle(before, y, behind),
                before.len() as int + y.len(),
                None,
            ),
    ensures
        parse_of(text_of(before + x + behind), encoding) == parse_of(
            text_of(before + y + behind),
            encoding,
        ),
{
    let a = before + x + behind;
    let b = before + y + behind;
    let m = before.len() as int;
    let n = m + x.len();
    lines_together(before, x);
    lines_together(before + x, behind);
    lines_together(before, y);
    lines_together(before + y, behind);
    middle_stands(before, x, behind);
    middle_stands(before, y, behind);
    let p = with_middle(before, x, behind);
    let q = with_middle(before, y, behind);
    assert(p[m - 1] == before[m - 1]);
    assert forall|k: int| 0 <= k < m implies #[trigger] p[k] == q[k] by {
        assert(q[k] == before[k]);
    }
    assert forall|k: int| n <= k < p.len() implies #[trigger] p[k] == q[k] by {
        if k < a.len() {
            assert(a[k] == behind[k - n]);
            assert(b[k] == behind[k - n]);
        }
    }
    header_stands_before(p, q, 0, m);
    let at = header_at(p, 0);
    assert(p[at] == q[at]);
    parting_lines(p, q, m, n, middle, nothing_read(), at + 1);
    parting_lines(p, q, m, n, middle, header_missed(at), at);
    alike_runs(a, b, at, encoding);
}

// ---------------------------------------------------------------------------
// Continued values
// ---------------------------------------------------------------------------

/// A piece of a payload: it holds together on its line.
pub open spec fn piece(s: Seq<char>) -> bool {
    &&& s.len() > 0
    &&& trim_free(s)
    &&& s.last() != '\\'
    &&& one_line(s)
}

/// Pieces put together.
pub open spec fn whole(pieces: Seq<Seq<char>>) -> Seq<char>
    decreases pieces.len(),
{
    if pieces.len() == 0 {
        Seq::empty()
    } else {
        whole(pieces.drop_last()) + pieces.last()
    }
}

/// The lines of a value whose payload is written over several: each piece on a
/// line of its own, indented as one likes, with a backslash behind each but the
/// last.
pub open spec fn over_lines(pieces: Seq<Seq<char>>, indents: Seq<Seq<char>>) -> Seq<Seq<char>> {
    Seq::new(
        pieces.len(),
        |k: int|
            if k < pieces.len() - 1 {
                indents[k] + (pieces[k] + seq!['\\'])
            } else {
                indents[k] + pieces[k]
            },
    )
}

/// The line of a value on one line, with as many blank lines behind it as it
/// would take over several.
pub open spec fn on_one_line(pieces: Seq<Seq<char>>) -> Seq<Seq<char>> {
    Seq::new(
        pieces.len(),
        |k: int|
            if k == 0 {
                whole(pieces)
            } else {
                Seq::empty()
            },
    )
}

/// The first piece of a value with a hexadecimal payload: its name, then `=`,
/// then `hex` in any case.
pub open spec fn opens_payload(first: Seq<char>, name: Option<Seq<char>>, payload: Seq<char>) -> bool {
    &&& payload.len() >= 3
    &&& lowered(payload.take(3)) == seq!['h', 'e', 'x']
    &&& first == (match name {
        None => seq!['@'],
        Some(n) => seq!['"'] + escaped(n) + seq!['"'],
    }) + (seq!['='] + payload)
}

proof fn opened_payloads_continue(
    first: Seq<char>,
    name: Option<Seq<char>>,
    payload: Seq<char>,
)
    requires
        opens_payload(first, name, payload),
    ensures
        continues(first + seq!['\\']),
{
    let t = first + seq!['\\'];
    let tail = seq!['='] + payload + seq!['\\'];
    reveal_strlit("hex");
    assert(lower_char(payload[0]) == 'h') by {
        assert(lowered(payload.take(3))[0] == 'h');
    }
    assert(!is_white(payload[0])) by {
        vstd::utf8::char_u32_cast(payload[0], payload[0] as u32);
    }
    assert(tail[0] == '=');
    assert(first_of(tail, '=') == 0);
    let rhs = payload + seq!['\\'];
    assert(tail.skip(1) =~= rhs);
    assert(rhs[0] == payload[0]);
    assert(trimmed_start(rhs) == rhs);
    assert(lowered(rhs).take(3) =~= lowered(payload.take(3)));
    assert("hex"@ =~= seq!['h', 'e', 'x']);
    match name {
        None => {
            assert(t =~= seq!['@'] + tail);
            assert(t[0] == '@');
            assert(t.skip(1) =~= tail);
            assert(first_of(t, '=') == 1);
            assert(t.skip(2) =~= rhs);
        },
        Some(n) => {
            assert(t =~= seq!['"'] + escaped(n) + seq!['"'] + tail);
            quoted_text_reads_back(n, tail);
            assert(t[0] == '"');
        },
    }
    assert(t.last() == '\\');
}

proof fn continued_line(indent: Seq<char>, s: Seq<char>)
    requires
        blank(indent),
        piece(s),
    ensures
        trimmed(indent + (s + seq!['\\'])) == s + seq!['\\'],
        trimmed(indent + s) == s,
        uncontinued(s + seq!['\\']) == s,
        trimmed(s) == s,
{
    let t = s + seq!['\\'];
    let none = Seq::<char>::empty();
    assert(t[0] == s[0] && t.last() == '\\');
    assert(!is_white('\\'));
    trimming_leaves_the_text(indent, t, none);
    trimming_leaves_the_text(indent, s, none);
    if s[0] == '\\' {
        assert(t.drop_last() =~= s);
        assert(stripped_end(t, '\\') == stripped_end(s, '\\'));
        assert(stripped_end(s, '\\') == s);
    } else {
        assert(t.drop_last() =~= s);
        assert(stripped_end(t, '\\') == stripped_end(s, '\\'));
        assert(stripped_end(s, '\\') == s);
    }
    assert(trimmed_end(s) == s);
}

proof fn whole_is_a_piece(pieces: Seq<Seq<char>>)
    requires
        pieces.len() > 0,
        forall|k: int| 0 <= k < pieces.len() ==> piece(#[trigger] pieces[k]),
    ensures
        piece(whole(pieces)),
        whole(pieces)[0] == pieces[0][0],
    decreases pieces.len(),
{
    let last = pieces.last();
    assert(piece(pieces[pieces.len() - 1]));
    if pieces.len() == 1 {
        assert(pieces.drop_last() =~= Seq::<Seq<char>>::empty());
        assert(whole(pieces.drop_last()) =~= Seq::<char>::empty());
        assert(whole(pieces) =~= last);
    } else {
        let front = pieces.drop_last();
        assert forall|k: int| 0 <= k < front.len() implies piece(#[trigger] front[k]) by {
            assert(front[k] == pieces[k]);
        }
        whole_is_a_piece(front);
        let w = whole(pieces);
        assert(w[0] == whole(front)[0]);
        assert(w.last() == last.last());
        assert forall|i: int| 0 <= i < w.len() implies #[trigger] w[i] != '\n' by {
            if i < whole(front).len() {
                assert(w[i] == whole(front)[i]);
            } else {
                assert(w[i] == last[i - whole(front).len()]);
            }
        }
    }
}

/// Pieces from the `k`th on are taken in.
proof fn pieces_are_taken_in(
    st: StateView,
    lines: Seq<Seq<char>>,
    m: int,
    pieces: Seq<Seq<char>>,
    indents: Seq<Seq<char>>,
    k: int,
)
    requires
        0 <= m,
        m + pieces.len() <= lines.len(),
        1 <= k < pieces.len(),
        indents.len() == pieces.len(),
        forall|j: int| 0 <= j < pieces.len() ==> piece(#[trigger] pieces[j]),
        forall|j: int| 0 < j < pieces.len() ==> (#[trigger] pieces[j])[0] != ';',
        forall|j: int| 0 <= j < indents.len() ==> blank(#[trigger] indents[j]),
        forall|j: int|
            0 <= j < pieces.len() ==> lines[m + j] == #[trigger] over_lines(pieces, indents)[j],
    ensures
        after_lines(st, lines, m + k, Some((line_number(m), whole(pieces.take(k)))))
            == after_lines(
            after_line(st, line_number(m), whole(pieces)),
            lines,
            m + pieces.len(),
            None,
        ),
    decreases pieces.len() - k,
{
    let s = pieces[k];
    let acc = whole(pieces.take(k));
    assert(piece(s));
    assert(blank(indents[k]));
    continued_line(indents[k], s);
    assert(lines[m + k] == over_lines(pieces, indents)[k]);
    assert(pieces.take(k + 1).drop_last() =~= pieces.take(k));
    assert(whole(pieces.take(k + 1)) == acc + s);
    if k < pieces.len() - 1 {
        assert(lines[m + k] == indents[k] + (s + seq!['\\']));
        assert((s + seq!['\\'])[0] == s[0]);
        assert((s + seq!['\\']).last() == '\\');
        pieces_are_taken_in(st, lines, m, pieces, indents, k + 1);
    } else {
        assert(lines[m + k] == indents[k] + s);
        assert(pieces.take(k + 1) =~= pieces);
    }
}

#[verifier::rlimit(40)]
proof fn continued_lines_read(
    st: StateView,
    lines: Seq<Seq<char>>,
    m: int,
    pieces: Seq<Seq<char>>,
    indents: Seq<Seq<char>>,
    name: Option<Seq<char>>,
    payload: Seq<char>,
)
    requires
        0 <= m,
        m + pieces.len() <= lines.len(),
        0 < pieces.len(),
        indents.len() == pieces.len(),
        opens_payload(pieces[0], name, payload),
        forall|j: int| 0 <= j < pieces.len() ==> piece(#[trigger] pieces[j]),
        forall|j: int| 0 < j < pieces.len() ==> (#[trigger] pieces[j])[0] != ';',
        forall|j: int| 0 <= j < indents.len() ==> blank(#[trigger] indents[j]),
        forall|j: int|
            0 <= j < pieces.len() ==> lines[m + j] == #[trigger] over_lines(pieces, indents)[j],
    ensures
        after_lines(st, lines, m, None) == after_lines(
            after_line(st, line_number(m), whole(pieces)),
            lines,
            m + pieces.len(),
            None,
        ),
{
    let s = pieces[0];
    assert(piece(s));
    assert(blank(indents[0]));
    continued_line(indents[0], s);
    assert(lines[m + 0] == over_lines(pieces, indents)[0]);
    assert(pieces.take(1).drop_last() =~= Seq::<Seq<char>>::empty());
    assert(pieces.take(1).last() == s);
    assert(whole(pieces.take(1).drop_last()) =~= Seq::<char>::empty());
    assert(whole(pieces.take(1)) =~= s);
    assert(s[0] == '@' || s[0] == '"');
    if pieces.len() > 1 {
        assert(lines[m] == indents[0] + (s + seq!['\\']));
        opened_payloads_continue(s, name, payload);
        assert((s + seq!['\\'])[0] == s[0]);
        pieces_are_taken_in(st, lines, m, pieces, indents, 1);
    } else {
        assert(lines[m] == indents[0] + s);
        assert(pieces.take(1) =~= pieces);
        assert(!continues(s));
    }
}

proof fn blank_lines_are_passed(st: StateView, lines: Seq<Seq<char>>, i: int, n: int)
    requires
        0 <= i <= n <= lines.len(),
        forall|k: int| i <= k < n ==> (#[trigger] lines[k]).len() == 0,
    ensures
        after_lines(st, lines, i, None) == after_lines(st, lines, n, None),
    decreases n - i,
{
    if i < n {
        assert(lines[i].len() == 0);
        assert(trimmed(lines[i]) =~= lines[i]);
        blank_lines_are_passed(st, lines, i + 1, n);
    }
}

/// A value whose hexadecimal payload is written over any number of lines, each
/// but the last with a backslash behind it, reads as the same value on one line:
/// the same bytes in the same order under the same name, with the same
/// diagnostics, whatever stands before and behind it. Blank lines keep the
/// numbers of the lines behind it.
pub proof fn continued_values_read_as_one_line(
    before: Seq<Seq<char>>,
    pieces: Seq<Seq<char>>,
    indents: Seq<Seq<char>>,
    behind: Seq<Seq<char>>,
    name: Option<Seq<char>>,
    payload: Seq<char>,
    encoding: SourceEncoding,
)
    requires
        are_lines(before),
        are_lines(behind),
        are_lines(indents),
        before.len() > 0,
        closes(before.last()),
        pieces.len() > 0,
        indents.len() == pieces.len(),
        opens_payload(pieces[0], name, payload),
        forall|j: int| 0 <= j < pieces.len() ==> piece(#[trigger] pieces[j]),
        forall|j: int| 0 < j < pieces.len() ==> (#[trigger] pieces[j])[0] != ';',
        forall|j: int| 0 <= j < indents.len() ==> blank(#[trigger] indents[j]),
    ensures
        parse_of(text_of(before + over_lines(pieces, indents) + behind), encoding) == parse_of(
            text_of(before + on_one_line(pieces) + behind),
            encoding,
        ),
{
    let multi = over_lines(pieces, indents);
    let single = on_one_line(pieces);
    let m = before.len() as int;
    let all = whole(pieces);
    let p = with_middle(before, multi, behind);
    let q = with_middle(before, single, behind);
    let middle = |st: StateView| after_line(st, line_number(m), all);
    pieces_are_lines(pieces, indents);
    middle_stands(before, multi, behind);
    middle_stands(before, single, behind);
    assert forall|st: StateView|
        #![trigger middle(st)]
        after_lines(st, p, m, None) == after_lines(middle(st), p, m + multi.len(), None) by {
        continued_lines_read(st, p, m, pieces, indents, name, payload);
    }
    assert forall|st: StateView|
        #![trigger middle(st)]
        after_lines(st, q, m, None) == after_lines(middle(st), q, m + single.len(), None) by {
        single_line_reads(st, q, m, pieces, name, payload);
    }
    differing_middles(before, multi, single, behind, middle, encoding);
}

proof fn pieces_are_lines(pieces: Seq<Seq<char>>, indents: Seq<Seq<char>>)
    requires
        are_lines(indents),
        pieces.len() > 0,
        indents.len() == pieces.len(),
        forall|j: int| 0 <= j < pieces.len() ==> piece(#[trigger] pieces[j]),
    ensures
        are_lines(over_lines(pieces, indents)),
        are_lines(on_one_line(pieces)),
{
    let multi = over_lines(pieces, indents);
    let single = on_one_line(pieces);
    whole_is_a_piece(pieces);
    assert(is_white('\r'));
    assert forall|k: int| 0 <= k < multi.len() implies one_line(#[trigger] multi[k]) && (
    multi[k].len() > 0 ==> multi[k].last() != '\r') by {
        assert(piece(pieces[k]));
        assert(one_line(indents[k]));
        lines_join(pieces[k], seq!['\\']);
        lines_join(indents[k], pieces[k] + seq!['\\']);
        lines_join(indents[k], pieces[k]);
    }
    assert forall|k: int| 0 <= k < single.len() implies one_line(#[trigger] single[k]) && (
    single[k].len() > 0 ==> single[k].last() != '\r') by {
    }
}

#[verifier::rlimit(40)]
proof fn single_line_reads(
    st: StateView,
    lines: Seq<Seq<char>>,
    m: int,
    pieces: Seq<Seq<char>>,
    name: Option<Seq<char>>,
    payload: Seq<char>,
)
    requires
        0 <= m,
        0 < pieces.len(),
        m + pieces.len() <= lines.len(),
        opens_payload(pieces[0], name, payload),
        forall|j: int| 0 <= j < pieces.len() ==> piece(#[trigger] pieces[j]),
        forall|j: int|
            0 <= j < pieces.len() ==> lines[m + j] == #[trigger] on_one_line(pieces)[j],
    ensures
        after_lines(st, lines, m, None) == after_lines(
            after_line(st, line_number(m), whole(pieces)),
            lines,
            m + pieces.len(),
            None,
        ),
{
    let all = whole(pieces);
    let n = m + pieces.len();
    whole_is_a_piece(pieces);
    assert(lines[m + 0] == on_one_line(pieces)[0]);
    assert(pieces[0][0] == '@' || pieces[0][0] == '"');
    whole_line_reads(st, lines, m, all);
    assert forall|k: int| m + 1 <= k < n implies (#[trigger] lines[k]).len() == 0 by {
        let j = k - m;
        assert(lines[m + j] == on_one_line(pieces)[j]);
    }
    blank_lines_are_passed(after_line(st, line_number(m), all), lines, m + 1, n);
}

#[verifier::rlimit(40)]
proof fn whole_line_reads(st: StateView, lines: Seq<Seq<char>>, m: int, all: Seq<char>)
    requires
        0 <= m < lines.len(),
        lines[m] == all,
        piece(all),
        all[0] == '@' || all[0] == '"',
    ensures
        after_lines(st, lines, m, None) == after_lines(
            after_line(st, line_number(m), all),
            lines,
            m + 1,
            None,
        ),
{
    continued_line(Seq::empty(), all);
    assert(!continues(all));
}

proof fn lines_join(a: Seq<char>, b: Seq<char>)
    requires
        one_line(a),
        one_line(b),
    ensures
        one_line(a + b),
        b.len() > 0 ==> (a + b).last() == b.last(),
{
    assert forall|i: int| 0 <= i < (a + b).len() implies #[trigger] (a + b)[i] != '\n' by {
        if i < a.len() {
            assert((a + b)[i] == a[i]);
        } else {
            assert((a + b)[i] == b[i - a.len()]);
        }
    }
}

/// Comments make no difference: a line that begins with a semicolon reads as a
/// blank line, whatever stands before and behind it.
pub proof fn comments_read_as_blank_lines(
    before: Seq<Seq<char>>,
    comment: Seq<char>,
    behind: Seq<Seq<char>>,
    encoding: SourceEncoding,
)
    requires
        are_lines(before),
        are_lines(behind),
        before.len() > 0,
        closes(before.last()),
        one_line(comment),
        comment.len() > 0,
        comment[0] == ';',
        !is_white(comment.last()),
    ensures
        parse_of(text_of(before + seq![comment] + behind), encoding) == parse_of(
            text_of(before + seq![Seq::<char>::empty()] + behind),
            encoding,
        ),
{
    let end = Seq::<char>::empty();
    let x = seq![comment];
    let y = seq![end];
    let m = before.len() as int;
    let p = with_middle(before, x, behind);
    let q = with_middle(before, y, behind);
    let middle = |st: StateView| st;
    assert(is_white('\r') && !is_white(';'));
    assert(are_lines(x));
    assert(are_lines(y));
    middle_stands(before, x, behind);
    middle_stands(before, y, behind);
    assert(p[m + 0] == x[0] && q[m + 0] == y[0]);
    trimming_leaves_the_text(end, comment, end);
    assert(trimmed(end) =~= end);
    assert forall|st: StateView|
        #![trigger middle(st)]
        after_lines(st, p, m, None) == after_lines(middle(st), p, m + x.len(), None) by {
        assert(is_filler(trimmed(p[m])));
    }
    assert forall|st: StateView|
        #![trigger middle(st)]
        after_lines(st, q, m, None) == after_lines(middle(st), q, m + y.len(), None) by {
        assert(is_filler(trimmed(q[m])));
    }
    differing_middles(before, x, y, behind, middle, encoding);
}

/// The dialect makes no difference to the data: under the header of the older
/// one, lines read as under that of the newer, and only the format differs.
pub proof fn both_dialects_read_alike(lines: Seq<Seq<char>>, old_header: Seq<char>, encoding: SourceEncoding)
    requires
        are_lines(lines),
        lowered(old_header) == seq!['r', 'e', 'g', 'e', 'd', 'i', 't', '4'],
    ensures
        ({
            let a = parse_of(text_of(seq![old_header] + lines), encoding);
            let b = parse_of(
                text_of(seq!["Windows Registry Editor Version 5.00"@] + lines),
                encoding,
            );
            &&& a.file.format == RegFormat::V4
            &&& b.file.format == RegFormat::V5
            &&& a.file.keys == b.file.keys
            &&& a.diagnostics == b.diagnostics
        }),
{
    let new_header = "Windows Registry Editor Version 5.00"@;
    headers_stand(old_header);
    headed_text_reads(old_header, lines, RegFormat::V4, encoding);
    headed_text_reads(new_header, lines, RegFormat::V5, encoding);
    let end = Seq::<char>::empty();
    let p = (seq![old_header] + lines).push(end);
    let q = (seq![new_header] + lines).push(end);
    let start = StateView { diags: Seq::empty(), keys: Seq::empty(), current: None };
    assert forall|k: int| 1 <= k < p.len() implies trimmed(#[trigger] p[k]) == trimmed(q[k]) by {
        if k < p.len() - 1 {
            assert(p[k] == lines[k - 1] && q[k] == lines[k - 1]);
        }
    }
    trimmed_lines_decide(start, p, q, 1, None);
}

/// A header as it stands on its line.
spec fn header_text(h: Seq<char>) -> bool {
    h.len() > 0 && trim_free(h) && one_line(h) && h[0] != ';'
}

proof fn headers_stand(old_header: Seq<char>)
    requires
        lowered(old_header) == seq!['r', 'e', 'g', 'e', 'd', 'i', 't', '4'],
    ensures
        header_text(old_header),
        header_text("Windows Registry Editor Version 5.00"@),
        announced(old_header) == Some(RegFormat::V4),
        announced("Windows Registry Editor Version 5.00"@) == Some(RegFormat::V5),
{
    reveal_strlit("Windows Registry Editor Version 5.00");
    reveal_strlit("REGEDIT4");
    reveal_strlit("windows registry editor version 5");
    let new_header = "Windows Registry Editor Version 5.00"@;
    assert(lowered("REGEDIT4"@) =~= seq!['r', 'e', 'g', 'e', 'd', 'i', 't', '4']);
    assert(lowered(old_header).len() == 8);
    assert(old_header.len() == 8);
    assert forall|i: int| 0 <= i < 8 implies !is_white(#[trigger] old_header[i]) && old_header[i]
        != '\n' && old_header[i] != ';' by {
        assert(lowered(old_header)[i] == lower_char(old_header[i]));
        vstd::utf8::char_u32_cast(old_header[i], old_header[i] as u32);
    }
    assert(old_header.last() == old_header[7]);
    assert(lowered(new_header).len() == 36);
    assert(lowered("REGEDIT4"@).len() == 8);
    assert(lowered(new_header).take(33) =~= "windows registry editor version 5"@);
}

proof fn headed_text_reads(
    header: Seq<char>,
    lines: Seq<Seq<char>>,
    format: RegFormat,
    encoding: SourceEncoding,
)
    requires
        are_lines(lines),
        header_text(header),
        announced(header) == Some(format),
    ensures
        ({
            let all = (seq![header] + lines).push(Seq::<char>::empty());
            let start = StateView { diags: Seq::empty(), keys: Seq::empty(), current: None };
            let st = after_lines(start, all, 1, None).flushed();
            let r = parse_of(text_of(seq![header] + lines), encoding);
            r.file.format == format && r.file.keys == st.keys && r.diagnostics == st.diags
        }),
{
    let end = Seq::<char>::empty();
    let h = seq![header];
    assert(is_white('\r'));
    assert(are_lines(h));
    lines_together(h, lines);
    text_comes_apart(h + lines);
    let all = (h + lines).push(end);
    assert(all[0] == header);
    trimming_leaves_the_text(end, header, end);
    assert(header_at(all, 0) == 0);
}

} // verus!
