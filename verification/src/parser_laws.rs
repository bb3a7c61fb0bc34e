//! What is written in the text format reads back.
use vstd::prelude::*;

use crate::model::{DataView, REG_BINARY};
use crate::number::{digit_value, digits_value, hex_char, hex_of, short_hex_of, unsigned};
use crate::parser::{
    data_of, escaped, payload_of, quoted_text_reads_back, token_bytes, Severity,
};
use crate::text::{begins, first_of, is_white, joined, lower_char, lowered, split_by, trimmed};

verus! {

/// Bytes in hexadecimal with commas between them.
pub open spec fn hex_list(bytes: Seq<u8>) -> Seq<char> {
    joined(bytes.map_values(|b: u8| hex_of(b as nat, 2)), ","@)
}

/// Data as the right-hand side of a value line.
pub open spec fn written(d: DataView) -> Seq<char> {
    match d {
        DataView::Delete => "-"@,
        DataView::Sz(s) => seq!['"'] + escaped(s) + seq!['"'],
        DataView::Dword(v) => "dword:"@ + hex_of(v as nat, 8),
        DataView::Hex { ty, bytes } => if ty == REG_BINARY {
            "hex:"@ + hex_list(bytes)
        } else {
            "hex("@ + short_hex_of(ty as nat) + "):"@ + hex_list(bytes)
        },
    }
}

// ---------------------------------------------------------------------------
// Digits
// ---------------------------------------------------------------------------

/// A hexadecimal digit in lower case.
pub open spec fn is_digit(c: char) -> bool {
    ('0' <= c && c <= '9') || ('a' <= c && c <= 'f')
}

/// Only hexadecimal digits.
pub open spec fn all_digits(s: Seq<char>) -> bool {
    forall|i: int| 0 <= i < s.len() ==> is_digit(#[trigger] s[i])
}

pub proof fn digits_are_plain(c: char)
    requires
        is_digit(c),
    ensures
        lower_char(c) == c,
        !is_white(c),
        c != ',' && c != ')' && c != '(' && c != '+' && c != ':',
{
}

proof fn hex_chars_are_digits(d: nat)
    requires
        d < 16,
    ensures
        is_digit(hex_char(d)),
        digit_value(hex_char(d)) == Some(d),
{
    if d < 10 {
        vstd::utf8::char_u32_cast(hex_char(d), (48 + d) as u32);
    } else {
        vstd::utf8::char_u32_cast(hex_char(d), (87 + d) as u32);
    }
}

/// A number has no more than `width` hexadecimal digits.
pub open spec fn fits(n: nat, width: nat) -> bool
    decreases width,
{
    if width == 0 {
        n == 0
    } else {
        fits(n / 16, (width - 1) as nat)
    }
}

pub proof fn fixed_hex_reads_back(n: nat, width: nat)
    requires
        fits(n, width),
    ensures
        hex_of(n, width).len() == width,
        all_digits(hex_of(n, width)),
        digits_value(hex_of(n, width), 16) == Some(n),
    decreases width,
{
    if width > 0 {
        let front = hex_of(n / 16, (width - 1) as nat);
        let s = hex_of(n, width);
        fixed_hex_reads_back(n / 16, (width - 1) as nat);
        hex_chars_are_digits(n % 16);
        assert(s.drop_last() =~= front);
        assert forall|i: int| 0 <= i < s.len() implies is_digit(#[trigger] s[i]) by {
            if i < front.len() {
                assert(s[i] == front[i]);
            }
        }
        assert((n / 16) * 16 + n % 16 == n);
    }
}

pub proof fn short_hex_reads_back(n: nat)
    ensures
        short_hex_of(n).len() > 0,
        all_digits(short_hex_of(n)),
        digits_value(short_hex_of(n), 16) == Some(n),
    decreases n,
{
    let s = short_hex_of(n);
    hex_chars_are_digits(n % 16);
    if n >= 16 {
        let front = short_hex_of(n / 16);
        short_hex_reads_back(n / 16);
        assert(s.drop_last() =~= front);
        assert forall|i: int| 0 <= i < s.len() implies is_digit(#[trigger] s[i]) by {
            if i < front.len() {
                assert(s[i] == front[i]);
            }
        }
        assert((n / 16) * 16 + n % 16 == n);
    } else {
        assert(s.drop_last() =~= Seq::<char>::empty());
        assert(digits_value(Seq::<char>::empty(), 16) == Some(0nat));
        assert(s.last() == hex_char(n));
    }
}

proof fn digits_stay(s: Seq<char>)
    requires
        all_digits(s),
    ensures
        lowered(s) == s,
        trimmed(s) == s,
        s.len() > 0 ==> s[0] != '+',
{
    assert forall|i: int| 0 <= i < s.len() implies lower_char(#[trigger] s[i]) == s[i] && !is_white(
        s[i],
    ) by {
        digits_are_plain(s[i]);
    }
    assert(lowered(s) =~= s);
    if s.len() > 0 {
        assert(!is_white(s[0]) && !is_white(s[s.len() - 1]));
        digits_are_plain(s[0]);
    }
}

/// A number of eight digits, as a plain number of 32 bits has at most.
pub proof fn words_fit(v: u32)
    ensures
        fits(v as nat, 8),
{
    reveal_with_fuel(fits, 9);
    let n = v as nat;
    assert(n / 16 / 16 / 16 / 16 / 16 / 16 / 16 / 16 == 0);
}

pub proof fn bytes_fit(b: u8)
    ensures
        fits(b as nat, 2),
{
    reveal_with_fuel(fits, 3);
    let n = b as nat;
    assert(n / 16 / 16 == 0);
}

// ---------------------------------------------------------------------------
// Lists
// ---------------------------------------------------------------------------

/// Where a character is first found in two texts put together.
pub proof fn first_of_concat(a: Seq<char>, b: Seq<char>, c: char)
    ensures
        first_of(a, c) <= a.len(),
        first_of(a, c) < a.len() ==> first_of(a + b, c) == first_of(a, c),
        first_of(a, c) == a.len() ==> first_of(a + b, c) == a.len() + first_of(b, c),
        0 <= first_of(a, c),
    decreases a.len(),
{
    if a.len() == 0 {
        assert(a + b =~= b);
    } else {
        assert((a + b)[0] == a[0]);
        assert((a + b).skip(1) =~= a.skip(1) + b);
        first_of_concat(a.skip(1), b, c);
    }
}

pub proof fn split_of_concat(a: Seq<char>, b: Seq<char>, c: char)
    ensures
        split_by(a + seq![c] + b, c) == split_by(a, c) + split_by(b, c),
    decreases a.len(),
{
    let whole = a + seq![c] + b;
    let tail = seq![c] + b;
    assert(whole =~= a + tail);
    first_of_concat(a, tail, c);
    let i = first_of(a, c);
    if i >= a.len() {
        assert(tail[0] == c);
        assert(first_of(whole, c) == a.len());
        assert(whole.take(a.len() as int) =~= a);
        assert(whole.skip(a.len() as int + 1) =~= b);
    } else {
        assert(whole.take(i) =~= a.take(i));
        assert(whole.skip(i + 1) =~= a.skip(i + 1) + seq![c] + b);
        split_of_concat(a.skip(i + 1), b, c);
        assert(seq![a.take(i)] + (split_by(a.skip(i + 1), c) + split_by(b, c)) =~= seq![a.take(i)]
            + split_by(a.skip(i + 1), c) + split_by(b, c));
    }
}

pub proof fn no_separator(s: Seq<char>, c: char)
    requires
        forall|i: int| 0 <= i < s.len() ==> #[trigger] s[i] != c,
    ensures
        first_of(s, c) == s.len(),
    decreases s.len(),
{
    if s.len() > 0 {
        assert forall|i: int| 0 <= i < s.skip(1).len() implies #[trigger] s.skip(1)[i] != c by {
            assert(s.skip(1)[i] == s[i + 1]);
        }
        no_separator(s.skip(1), c);
    }
}

proof fn split_of_joined(parts: Seq<Seq<char>>, sep: Seq<char>, c: char)
    requires
        parts.len() > 0,
        sep == seq![c],
        !is_digit(c),
        forall|i: int| 0 <= i < parts.len() ==> all_digits(#[trigger] parts[i]),
    ensures
        split_by(joined(parts, sep), c) == parts,
    decreases parts.len(),
{
    let last = parts.last();
    assert(all_digits(parts[parts.len() - 1]));
    assert forall|i: int| 0 <= i < last.len() implies #[trigger] last[i] != c by {
        assert(is_digit(last[i]));
    }
    no_separator(last, c);
    if parts.len() == 1 {
        assert(split_by(parts[0], c) =~= seq![parts[0]]);
        assert(parts =~= seq![parts[0]]);
    } else {
        let front = parts.drop_last();
        assert forall|i: int| 0 <= i < front.len() implies all_digits(#[trigger] front[i]) by {
            assert(front[i] == parts[i]);
        }
        split_of_joined(front, sep, c);
        split_of_concat(joined(front, sep), last, c);
        assert(split_by(last, c) =~= seq![last]);
        assert(front + seq![last] =~= parts);
    }
}

proof fn tokens_read_back(acc: Seq<u8>, bytes: Seq<u8>)
    ensures
        token_bytes(acc, bytes.map_values(|b: u8| hex_of(b as nat, 2))) == Ok::<
            Seq<u8>,
            Seq<char>,
        >(acc + bytes),
    decreases bytes.len(),
{
    let tokens = bytes.map_values(|b: u8| hex_of(b as nat, 2));
    if bytes.len() == 0 {
        assert(acc + bytes =~= acc);
    } else {
        let t = tokens[0];
        bytes_fit(bytes[0]);
        fixed_hex_reads_back(bytes[0] as nat, 2);
        digits_stay(t);
        assert(tokens.skip(1) =~= bytes.skip(1).map_values(|b: u8| hex_of(b as nat, 2)));
        tokens_read_back(acc.push(bytes[0]), bytes.skip(1));
        assert(acc.push(bytes[0]) + bytes.skip(1) =~= acc + bytes);
    }
}

/// Bytes read back from their hexadecimal text, whatever stands between them.
pub proof fn separated_bytes_read_back(bytes: Seq<u8>, sep: Seq<char>, c: char)
    requires
        sep == seq![c],
        !is_digit(c),
    ensures
        token_bytes(
            Seq::empty(),
            split_by(joined(bytes.map_values(|b: u8| hex_of(b as nat, 2)), sep), c),
        ) == Ok::<Seq<u8>, Seq<char>>(bytes),
{
    let parts = bytes.map_values(|b: u8| hex_of(b as nat, 2));
    assert forall|i: int| 0 <= i < parts.len() implies all_digits(#[trigger] parts[i]) by {
        bytes_fit(bytes[i]);
        fixed_hex_reads_back(bytes[i] as nat, 2);
    }
    tokens_read_back(Seq::empty(), bytes);
    assert(Seq::<u8>::empty() + bytes =~= bytes);
    if bytes.len() == 0 {
        let list = joined(parts, sep);
        assert(list =~= Seq::<char>::empty());
        assert(split_by(list, c) =~= seq![list]);
        assert(trimmed(list) =~= list);
        assert(seq![list].skip(1) =~= Seq::<Seq<char>>::empty());
        assert(token_bytes(Seq::empty(), seq![list]) == token_bytes(
            Seq::empty(),
            seq![list].skip(1),
        ));
        assert(token_bytes(Seq::empty(), seq![list].skip(1)) == Ok::<Seq<u8>, Seq<char>>(
            Seq::empty(),
        ));
        assert(bytes =~= Seq::<u8>::empty());
    } else {
        split_of_joined(parts, sep, c);
    }
}

proof fn payload_reads_back(line: usize, ty: u32, bytes: Seq<u8>)
    ensures
        payload_of(line, ty, hex_list(bytes)).data == Some(DataView::Hex { ty, bytes }),
        lowered(hex_list(bytes)) == hex_list(bytes),
{
    let parts = bytes.map_values(|b: u8| hex_of(b as nat, 2));
    assert forall|i: int| 0 <= i < parts.len() implies all_digits(#[trigger] parts[i]) by {
        bytes_fit(bytes[i]);
        fixed_hex_reads_back(bytes[i] as nat, 2);
    }
    lists_stay(parts);
    reveal_strlit(",");
    assert(","@ =~= seq![',']);
    separated_bytes_read_back(bytes, ","@, ',');
}

proof fn lists_stay(parts: Seq<Seq<char>>)
    requires
        forall|i: int| 0 <= i < parts.len() ==> all_digits(#[trigger] parts[i]),
    ensures
        lowered(joined(parts, ","@)) == joined(parts, ","@),
    decreases parts.len(),
{
    reveal_strlit(",");
    let s = joined(parts, ","@);
    if parts.len() == 0 {
        assert(lowered(s) =~= s);
    } else if parts.len() == 1 {
        digits_stay(parts[0]);
    } else {
        let front = parts.drop_last();
        assert forall|i: int| 0 <= i < front.len() implies all_digits(#[trigger] front[i]) by {
            assert(front[i] == parts[i]);
        }
        lists_stay(front);
        assert(all_digits(parts[parts.len() - 1]));
        digits_stay(parts.last());
        lowered_concat(joined(front, ","@) + ","@, parts.last());
        lowered_concat(joined(front, ","@), ","@);
        assert(lowered(","@) =~= ","@);
    }
}

proof fn lowered_concat(a: Seq<char>, b: Seq<char>)
    ensures
        lowered(a + b) == lowered(a) + lowered(b),
{
    assert(lowered(a + b) =~= lowered(a) + lowered(b));
}

// ---------------------------------------------------------------------------
// Laws
// ---------------------------------------------------------------------------

/// Data reads back from the form it is written in, whatever it is, and nothing
/// is wrong with it: what there may be is a warning about its shape or size.
pub proof fn written_data_reads_back(line: usize, d: DataView)
    ensures
        data_of(line, written(d)).data == Some(d),
        forall|i: int|
            0 <= i < data_of(line, written(d)).diagnostics.len() ==> (#[trigger] data_of(
                line,
                written(d),
            ).diagnostics[i]).severity == Severity::Warning,
{
    let rhs = written(d);
    reveal_strlit("-");
    reveal_strlit("dword:");
    reveal_strlit("hex");
    reveal_strlit("hex:");
    reveal_strlit("hex(");
    reveal_strlit("):");
    match d {
        DataView::Delete => {},
        DataView::Sz(s) => {
            quoted_text_reads_back(s, Seq::empty());
            assert(rhs =~= seq!['"'] + escaped(s) + seq!['"'] + Seq::<char>::empty());
            assert(rhs[0] == '"');
            assert(trimmed(Seq::<char>::empty()) =~= Seq::<char>::empty());
            assert("-"@[0] == '-');
        },
        DataView::Dword(v) => {
            let digits = hex_of(v as nat, 8);
            words_fit(v);
            fixed_hex_reads_back(v as nat, 8);
            digits_stay(digits);
            lowered_concat("dword:"@, digits);
            assert(lowered("dword:"@) =~= "dword:"@);
            assert(rhs.skip(6) =~= digits);
            assert(rhs.take(6) =~= "dword:"@);
            assert(rhs[0] == 'd');
            assert("-"@[0] == '-');
        },
        DataView::Hex { ty, bytes } => {
            let list = hex_list(bytes);
            payload_reads_back(line, ty, bytes);
            assert("-"@[0] == '-');
            if ty == REG_BINARY {
                lowered_concat("hex:"@, list);
                assert(lowered("hex:"@) =~= "hex:"@);
                assert(rhs[0] == 'h' && rhs[3] == ':');
                assert(rhs.take(3) =~= "hex"@);
                assert(rhs.skip(3).skip(1) =~= list);
                assert(!begins(rhs, "dword:"@)) by {
                    if rhs.len() >= 6 {
                        assert(rhs.take(6)[0] == 'h');
                        assert("dword:"@[0] == 'd');
                    }
                }
            } else {
                typed_payload_reads_back(line, ty, bytes);
            }
        },
    }
}

/// Bytes of a type, with the type spelled out.
pub open spec fn typed_text(ty: u32, bytes: Seq<u8>) -> Seq<char> {
    "hex("@ + short_hex_of(ty as nat) + "):"@ + hex_list(bytes)
}

/// Bytes of any type read back verbatim where the type is spelled out, whether
/// or not their shape suits the type: what is odd about it is only warned of.
pub proof fn typed_bytes_read_back(line: usize, ty: u32, bytes: Seq<u8>)
    ensures
        data_of(line, typed_text(ty, bytes)).data == Some(DataView::Hex { ty, bytes }),
        forall|i: int|
            0 <= i < data_of(line, typed_text(ty, bytes)).diagnostics.len() ==> (
            #[trigger] data_of(line, typed_text(ty, bytes)).diagnostics[i]).severity
                == Severity::Warning,
{
    payload_reads_back(line, ty, bytes);
    typed_payload_reads_back(line, ty, bytes);
}

/// Capital letters in the spelling of typed bytes change nothing.
pub proof fn typed_bytes_read_alike(line: usize, ty: u32, bytes: Seq<u8>, rhs: Seq<char>)
    requires
        lowered(rhs) == typed_text(ty, bytes),
    ensures
        data_of(line, rhs) == data_of(line, typed_text(ty, bytes)),
{
    let text = typed_text(ty, bytes);
    payload_reads_back(line, ty, bytes);
    short_hex_reads_back(ty as nat);
    digits_stay(short_hex_of(ty as nat));
    typed_form(short_hex_of(ty as nat), hex_list(bytes));
    typed_payload_reads_back(line, ty, bytes);
    assert(lowered(rhs)[0] == lower_char(rhs[0]));
    assert(lowered(rhs)[0] == 'h');
    reveal_strlit("-");
    assert("-"@[0] == '-');
    assert(lower_char('-') == '-' && lower_char('"') == '"');
    assert(rhs[0] != '-' && rhs[0] != '"');
    assert(unsigned(trimmed(short_hex_of(ty as nat)), 16, 0xffff_ffff) == Some(ty as nat));
    typed_form_reads(line, ty, short_hex_of(ty as nat), hex_list(bytes), rhs);
}

proof fn typed_payload_reads_back(line: usize, ty: u32, bytes: Seq<u8>)
    ensures
        data_of(line, typed_text(ty, bytes)) == payload_of(line, ty, hex_list(bytes)),
{
    let digits = short_hex_of(ty as nat);
    payload_reads_back(line, ty, bytes);
    short_hex_reads_back(ty as nat);
    digits_stay(digits);
    assert(unsigned(trimmed(digits), 16, 0xffff_ffff) == Some(ty as nat));
    typed_form(digits, hex_list(bytes));
    typed_form_reads(line, ty, digits, hex_list(bytes), typed_text(ty, bytes));
}

/// The parts of the typed form.
proof fn typed_form(digits: Seq<char>, list: Seq<char>)
    requires
        all_digits(digits),
        lowered(list) == list,
    ensures
        ({
            let rhs = "hex("@ + digits + "):"@ + list;
            let n = digits.len() as int;
            &&& lowered(rhs) == rhs
            &&& rhs != "-"@
            &&& rhs[0] == 'h'
            &&& rhs.skip(3)[0] == '('
            &&& begins(rhs, "hex"@)
            &&& !begins(rhs, "dword:"@)
            &&& rhs.skip(3).skip(1) == digits + ("):"@ + list)
        }),
{
    let rhs = "hex("@ + digits + "):"@ + list;
    reveal_strlit("-");
    reveal_strlit("dword:");
    reveal_strlit("hex");
    reveal_strlit("hex(");
    reveal_strlit("):");
    digits_stay(digits);
    lowered_concat("hex("@ + digits + "):"@, list);
    lowered_concat("hex("@ + digits, "):"@);
    lowered_concat("hex("@, digits);
    assert(lowered("hex("@) =~= "hex("@);
    assert(lowered("):"@) =~= "):"@);
    assert(rhs[0] == 'h' && rhs[3] == '(');
    assert("-"@[0] == '-');
    assert(rhs.take(3) =~= "hex"@);
    if rhs.len() >= 6 {
        assert(rhs.take(6)[0] == 'h');
        assert("dword:"@[0] == 'd');
    }
    assert(rhs.skip(3).skip(1) =~= digits + ("):"@ + list));
}

proof fn typed_form_reads(
    line: usize,
    ty: u32,
    digits: Seq<char>,
    list: Seq<char>,
    rhs: Seq<char>,
)
    requires
        lowered(rhs) == "hex("@ + digits + "):"@ + list,
        rhs != "-"@,
        rhs[0] != '"',
        all_digits(digits),
        lowered(list) == list,
        unsigned(trimmed(digits), 16, 0xffff_ffff) == Some(ty as nat),
    ensures
        data_of(line, rhs) == payload_of(line, ty, list),
{
    let tail = "):"@ + list;
    let inner = digits + tail;
    let n = digits.len() as int;
    typed_form(digits, list);
    reveal_strlit("):");
    assert forall|i: int| 0 <= i < digits.len() implies #[trigger] digits[i] != ')' by {
        digits_are_plain(digits[i]);
    }
    no_separator(digits, ')');
    first_of_concat(digits, tail, ')');
    assert(tail[0] == ')');
    assert(first_of(inner, ')') == n);
    assert(inner.take(n) =~= digits);
    assert(inner.skip(n + 1)[0] == ':');
    assert(inner.skip(n + 2) =~= list);
}

} // verus!
