//! JSON text.
use vstd::prelude::*;

use crate::number::{hex_char, hex_of, push_hex};
use crate::text::{chars_of, joined, join, opt_text, views, views_push};

verus! {

/// A character inside a JSON string.
pub open spec fn json_char(c: char) -> Seq<char> {
    if c == '"' {
        "\\\""@
    } else if c == '\\' {
        "\\\\"@
    } else if c == '\n' {
        "\\n"@
    } else if c == '\r' {
        "\\r"@
    } else if c == '\t' {
        "\\t"@
    } else if (c as u32) < 0x20 {
        "\\u"@ + hex_of(c as u32 as nat, 4)
    } else {
        seq![c]
    }
}

/// The inside of a JSON string.
pub open spec fn json_body(s: Seq<char>) -> Seq<char>
    decreases s.len(),
{
    if s.len() == 0 {
        Seq::empty()
    } else {
        json_char(s[0]) + json_body(s.skip(1))
    }
}

/// A text as a JSON string.
pub open spec fn json_string(s: Seq<char>) -> Seq<char> {
    seq!['"'] + json_body(s) + seq!['"']
}

/// A text as a JSON string, or `null`.
pub open spec fn json_opt(s: Option<Seq<char>>) -> Seq<char> {
    match s {
        Some(t) => json_string(t),
        None => "null"@,
    }
}

/// `true` or `false`.
pub open spec fn json_bool(b: bool) -> Seq<char> {
    if b {
        "true"@
    } else {
        "false"@
    }
}

fn push_json_char(out: &mut String, c: char)
    ensures
        final(out)@ == old(out)@ + json_char(c),
{
    let ghost before = out@;
    if c == '"' {
        out.append("\\\"");
    } else if c == '\\' {
        out.append("\\\\");
    } else if c == '\n' {
        out.append("\\n");
    } else if c == '\r' {
        out.append("\\r");
    } else if c == '\t' {
        out.append("\\t");
    } else if (c as u32) < 0x20 {
        out.append("\\u");
        push_hex(out, c as u64, 4);
        assert(out@ =~= before + json_char(c));
    } else {
        out.push(c);
        assert(out@ =~= before + json_char(c));
    }
}

/// A text as a JSON string.
pub fn jstr(s: &str) -> (out: String)
    ensures
        out@ == json_string(s@),
{
    let chars = chars_of(s);
    let mut out = String::new();
    out.push('"');
    assert(out@ =~= seq!['"']);
    assert(s@.skip(0) =~= s@);
    for i in 0..chars.len()
        invariant
            chars@ == s@,
            seq!['"'] + json_body(s@) == out@ + json_body(s@.skip(i as int)),
    {
        let ghost before = out@;
        let ghost rest = s@.skip(i as int);
        assert(rest[0] == chars@[i as int]);
        assert(rest.skip(1) =~= s@.skip(i + 1));
        push_json_char(&mut out, chars[i]);
        assert(before + (json_char(rest[0]) + json_body(rest.skip(1))) =~= out@ + json_body(
            rest.skip(1),
        ));
    }
    assert(s@.skip(s@.len() as int) =~= Seq::<char>::empty());
    assert(out@ + Seq::<char>::empty() =~= out@);
    let ghost open = out@;
    out.push('"');
    assert(out@ =~= open + seq!['"']);
    out
}

/// An optional text as a JSON string, or `null`.
pub fn jopt_string(s: &Option<String>) -> (out: String)
    ensures
        out@ == json_opt(opt_text(*s)),
{
    match s {
        Some(t) => jstr(t.as_str()),
        None => "null".to_owned(),
    }
}

/// `true` or `false`.
pub fn jbool(b: bool) -> (r: &'static str)
    ensures
        r@ == json_bool(b),
{
    if b {
        "true"
    } else {
        "false"
    }
}

/// Texts as JSON strings with commas between them.
pub open spec fn json_list(items: Seq<Seq<char>>) -> Seq<char> {
    joined(items.map_values(|s: Seq<char>| json_string(s)), ","@)
}

/// Texts as JSON strings with commas between them.
pub fn json_strings(values: &[String]) -> (out: String)
    ensures
        out@ == json_list(views(values@)),
{
    broadcast use views_push;

    let ghost all = views(values@);
    let mut parts: Vec<String> = Vec::new();
    for i in 0..values.len()
        invariant
            all == views(values@),
            views(parts@) =~= all.take(i as int).map_values(|s: Seq<char>| json_string(s)),
    {
        let one = jstr(values[i].as_str());
        let ghost before = parts@;
        parts.push(one);
        assert(views(parts@) == views(before).push(one@));
    }
    assert(all.take(all.len() as int) =~= all);
    join(parts.as_slice(), ",")
}

// ---------------------------------------------------------------------------
// Reading back
// ---------------------------------------------------------------------------

/// The value of four hexadecimal digits, where they are four small ones.
pub open spec fn four_digits(s: Seq<char>) -> Option<nat> {
    match crate::number::digits_value(s, 16) {
        Some(v) => if s.len() == 4 {
            Some(v)
        } else {
            None
        },
        None => None,
    }
}

/// Reads the inside of a JSON string up to its closing quote: the text, and
/// what follows the quote.
pub open spec fn read_body(s: Seq<char>) -> Option<(Seq<char>, Seq<char>)>
    decreases s.len(),
{
    if s.len() == 0 {
        None
    } else if s[0] == '"' {
        Some((Seq::empty(), s.skip(1)))
    } else if s[0] != '\\' {
        read_more(seq![s[0]], read_body(s.skip(1)))
    } else if s.len() < 2 {
        None
    } else if s[1] == '"' || s[1] == '\\' {
        read_more(seq![s[1]], read_body(s.skip(2)))
    } else if s[1] == 'n' {
        read_more(seq!['\n'], read_body(s.skip(2)))
    } else if s[1] == 'r' {
        read_more(seq!['\r'], read_body(s.skip(2)))
    } else if s[1] == 't' {
        read_more(seq!['\t'], read_body(s.skip(2)))
    } else if s[1] == 'u' && s.len() >= 6 && four_digits(s.subrange(2, 6)) is Some {
        read_more(seq![(four_digits(s.subrange(2, 6))->0) as u32 as char], read_body(s.skip(6)))
    } else {
        None
    }
}

/// A text in front of what was read.
pub open spec fn read_more(head: Seq<char>, rest: Option<(Seq<char>, Seq<char>)>) -> Option<
    (Seq<char>, Seq<char>),
> {
    match rest {
        Some((text, tail)) => Some((head + text, tail)),
        None => None,
    }
}

proof fn low_codes_read_back(n: nat)
    requires
        n < 0x20,
    ensures
        hex_of(n, 4).len() == 4,
        four_digits(hex_of(n, 4)) == Some(n),
        forall|i: int| 0 <= i < 4 ==> (#[trigger] hex_of(n, 4)[i]) != '"',
{
    let h = hex_of(n, 4);
    reveal_with_fuel(hex_of, 5);
    reveal_with_fuel(crate::number::digits_value, 6);
    let a = n / 16;
    let b = n % 16;
    assert(a < 2);
    assert(a / 16 == 0 && a % 16 == a);
    assert(h =~= seq![hex_char(0), hex_char(0), hex_char(a), hex_char(b)]);
    assert(h.drop_last() =~= seq![hex_char(0), hex_char(0), hex_char(a)]);
    assert(h.drop_last().drop_last() =~= seq![hex_char(0), hex_char(0)]);
    assert(h.drop_last().drop_last().drop_last() =~= seq![hex_char(0)]);
    assert(h.drop_last().drop_last().drop_last().drop_last() =~= Seq::<char>::empty());
    assert(crate::number::digit_value(hex_char(0)) == Some(0nat));
    assert(crate::number::digit_value(hex_char(a)) == Some(a));
    assert(crate::number::digit_value(hex_char(b)) == Some(b));
}

proof fn body_reads_back(s: Seq<char>, tail: Seq<char>)
    ensures
        read_body(json_body(s) + seq!['"'] + tail) == Some((s, tail)),
    decreases s.len(),
{
    let text = json_body(s) + seq!['"'] + tail;
    if s.len() == 0 {
        assert(text.skip(1) =~= tail);
        assert(s =~= Seq::<char>::empty());
    } else {
        let c = s[0];
        let head = json_char(c);
        let rest = json_body(s.skip(1)) + seq!['"'] + tail;
        body_reads_back(s.skip(1), tail);
        assert(text =~= head + rest);
        assert(seq![c] + s.skip(1) =~= s);
        reveal_strlit("\\\"");
        reveal_strlit("\\\\");
        reveal_strlit("\\n");
        reveal_strlit("\\r");
        reveal_strlit("\\t");
        reveal_strlit("\\u");
        if c == '"' || c == '\\' || c == '\n' || c == '\r' || c == '\t' {
            assert(text[0] == '\\' && text[1] == head[1]);
            assert(text.skip(2) =~= rest);
        } else if (c as u32) < 0x20 {
            let n = c as u32 as nat;
            low_codes_read_back(n);
            assert(text[0] == '\\' && text[1] == 'u');
            assert(text.subrange(2, 6) =~= hex_of(n, 4));
            assert(text.skip(6) =~= rest);
            vstd::utf8::char_u32_cast(c, c as u32);
        } else {
            assert(text[0] == c);
            assert(text.skip(1) =~= rest);
        }
    }
}

/// Every text is read back from its JSON string, whatever follows it.
pub proof fn json_string_reads_back(s: Seq<char>, tail: Seq<char>)
    ensures
        read_body((json_string(s) + tail).skip(1)) == Some((s, tail)),
{
    body_reads_back(s, tail);
    assert((json_string(s) + tail).skip(1) =~= json_body(s) + seq!['"'] + tail);
}

/// Different texts have different JSON strings.
pub proof fn json_strings_are_distinct(s: Seq<char>, t: Seq<char>)
    ensures
        json_string(s) == json_string(t) ==> s == t,
{
    json_string_reads_back(s, Seq::empty());
    json_string_reads_back(t, Seq::empty());
}

} // verus!
