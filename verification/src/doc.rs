//! Structured documents: their JSON text, and what stands where in them.
use vstd::prelude::*;

use crate::json::{json_bool, json_string, jstr};
use crate::number::{dec_of, digit_char};
use crate::parser_laws::first_of_concat;
use crate::text::{concat3, first_of, join, joined, views};

verus! {

/// A structured document.
pub enum Doc {
    Null,
    Flag(bool),
    Number(nat),
    Text(Seq<char>),
    List(Seq<Doc>),
    Fields(Seq<(Seq<char>, Doc)>),
}

// ---------------------------------------------------------------------------
// Text
// ---------------------------------------------------------------------------

/// Texts of elements as the text of an array.
pub open spec fn array_text(items: Seq<Seq<char>>) -> Seq<char> {
    "["@ + joined(items, ","@) + "]"@
}

/// Texts of fields as the text of an object.
pub open spec fn object_text(fields: Seq<Seq<char>>) -> Seq<char> {
    "{"@ + joined(fields, ","@) + "}"@
}

/// The text of a field.
pub open spec fn field_text(name: Seq<char>, value: Seq<char>) -> Seq<char> {
    json_string(name) + ":"@ + value
}

/// The JSON text of a document, without white space.
pub open spec fn doc_text(d: Doc) -> Seq<char>
    decreases d, 0int,
{
    match d {
        Doc::Null => "null"@,
        Doc::Flag(b) => json_bool(b),
        Doc::Number(n) => dec_of(n),
        Doc::Text(s) => json_string(s),
        Doc::List(items) => array_text(first_texts(items, items.len() as int)),
        Doc::Fields(fields) => object_text(first_fields(fields, fields.len() as int)),
    }
}

/// The texts of the first `n` documents.
pub open spec fn first_texts(items: Seq<Doc>, n: int) -> Seq<Seq<char>>
    decreases items, n,
{
    if n <= 0 || n > items.len() {
        Seq::empty()
    } else {
        first_texts(items, n - 1).push(doc_text(items[n - 1]))
    }
}

/// The texts of the first `n` fields.
pub open spec fn first_fields(fields: Seq<(Seq<char>, Doc)>, n: int) -> Seq<Seq<char>>
    decreases fields, n,
{
    if n <= 0 || n > fields.len() {
        Seq::empty()
    } else {
        first_fields(fields, n - 1).push(field_text(fields[n - 1].0, doc_text(fields[n - 1].1)))
    }
}

/// The texts of documents.
pub open spec fn doc_texts(items: Seq<Doc>) -> Seq<Seq<char>> {
    items.map_values(|d: Doc| doc_text(d))
}

/// The texts of fields.
pub open spec fn field_texts(fields: Seq<(Seq<char>, Doc)>) -> Seq<Seq<char>> {
    fields.map_values(|f: (Seq<char>, Doc)| field_text(f.0, doc_text(f.1)))
}

proof fn first_texts_are(items: Seq<Doc>, n: int)
    requires
        0 <= n <= items.len(),
    ensures
        first_texts(items, n) == doc_texts(items).take(n),
    decreases n,
{
    if n > 0 {
        first_texts_are(items, n - 1);
        assert(doc_texts(items).take(n) =~= doc_texts(items).take(n - 1).push(
            doc_text(items[n - 1]),
        ));
    } else {
        assert(doc_texts(items).take(0) =~= Seq::<Seq<char>>::empty());
    }
}

proof fn first_fields_are(fields: Seq<(Seq<char>, Doc)>, n: int)
    requires
        0 <= n <= fields.len(),
    ensures
        first_fields(fields, n) == field_texts(fields).take(n),
    decreases n,
{
    if n > 0 {
        first_fields_are(fields, n - 1);
        assert(field_texts(fields).take(n) =~= field_texts(fields).take(n - 1).push(
            field_text(fields[n - 1].0, doc_text(fields[n - 1].1)),
        ));
    } else {
        assert(field_texts(fields).take(0) =~= Seq::<Seq<char>>::empty());
    }
}

/// The text of a list is made of those of its elements.
pub proof fn list_text(items: Seq<Doc>)
    ensures
        doc_text(Doc::List(items)) == array_text(doc_texts(items)),
{
    first_texts_are(items, items.len() as int);
    assert(doc_texts(items).take(items.len() as int) =~= doc_texts(items));
}

/// The text of an object is made of those of its fields.
pub proof fn fields_text(fields: Seq<(Seq<char>, Doc)>)
    ensures
        doc_text(Doc::Fields(fields)) == object_text(field_texts(fields)),
{
    first_fields_are(fields, fields.len() as int);
    assert(field_texts(fields).take(fields.len() as int) =~= field_texts(fields));
}

/// An array of elements that are text already.
pub fn array(items: &[String]) -> (out: String)
    ensures
        out@ == array_text(views(items@)),
{
    concat3("[", join(items, ",").as_str(), "]")
}

/// An object of fields that are text already.
pub fn object(fields: &[String]) -> (out: String)
    ensures
        out@ == object_text(views(fields@)),
{
    concat3("{", join(fields, ",").as_str(), "}")
}

/// A field with a value that is text already.
pub fn field(name: &str, value: &str) -> (out: String)
    ensures
        out@ == field_text(name@, value@),
{
    concat3(jstr(name).as_str(), ":", value)
}

// ---------------------------------------------------------------------------
// Places
// ---------------------------------------------------------------------------

/// A field has the name.
pub open spec fn names_field(fields: Seq<(Seq<char>, Doc)>, i: int, name: Seq<char>) -> bool {
    0 <= i < fields.len() && fields[i].0 == name
}

/// An element has the number, written in decimal.
pub open spec fn numbers_item(items: Seq<Doc>, i: int, token: Seq<char>) -> bool {
    0 <= i < items.len() && dec_of(i as nat) == token
}

/// The position of a field with the name.
pub open spec fn field_index(fields: Seq<(Seq<char>, Doc)>, name: Seq<char>) -> int {
    choose|i: int| names_field(fields, i, name)
}

/// The position of the element with the number.
pub open spec fn item_index(items: Seq<Doc>, token: Seq<char>) -> int {
    choose|i: int| numbers_item(items, i, token)
}

/// The part of a document that a name or a number leads to.
pub open spec fn child(d: Doc, token: Seq<char>) -> Option<Doc> {
    match d {
        Doc::Fields(fields) => if names_field(fields, field_index(fields, token), token) {
            Some(fields[field_index(fields, token)].1)
        } else {
            None
        },
        Doc::List(items) => if numbers_item(items, item_index(items, token), token) {
            Some(items[item_index(items, token)])
        } else {
            None
        },
        _ => None,
    }
}

/// The part of a document at a place: names and numbers, each behind a slash.
pub open spec fn at(d: Doc, place: Seq<char>) -> Option<Doc>
    decreases place.len(),
{
    if place.len() == 0 {
        Some(d)
    } else if place[0] != '/' {
        None
    } else {
        let rest = place.skip(1);
        let n = first_of(rest, '/');
        if n < 0 || n > rest.len() {
            None
        } else {
            match child(d, rest.take(n)) {
                None => None,
                Some(c) => at(c, rest.skip(n)),
            }
        }
    }
}

/// The text at a place.
pub open spec fn text_in(d: Doc, place: Seq<char>) -> Option<Seq<char>> {
    match at(d, place) {
        Some(Doc::Text(s)) => Some(s),
        _ => None,
    }
}

/// The number at a place.
pub open spec fn number_in(d: Doc, place: Seq<char>) -> Option<u64> {
    match at(d, place) {
        Some(Doc::Number(n)) => Some(n as u64),
        _ => None,
    }
}

/// The flag at a place.
pub open spec fn flag_in(d: Doc, place: Seq<char>) -> Option<bool> {
    match at(d, place) {
        Some(Doc::Flag(b)) => Some(b),
        _ => None,
    }
}

/// The number of elements of the list at a place.
pub open spec fn count_in(d: Doc, place: Seq<char>) -> Option<nat> {
    match at(d, place) {
        Some(Doc::List(items)) => Some(items.len()),
        _ => None,
    }
}

/// A document can be written and read: no object has a name twice, numbers fit
/// into 64 bits, and nothing is nested deeper than `depth`.
pub open spec fn sound(d: Doc, depth: nat) -> bool
    decreases depth,
{
    match d {
        Doc::Number(n) => n <= u64::MAX,
        Doc::List(items) => depth > 0 && forall|i: int|
            0 <= i < items.len() ==> sound(#[trigger] items[i], (depth - 1) as nat),
        Doc::Fields(fields) => depth > 0 && (forall|i: int|
            0 <= i < fields.len() ==> sound((#[trigger] fields[i]).1, (depth - 1) as nat)) && (
        forall|i: int, j: int|
            0 <= i < j < fields.len() ==> (#[trigger] fields[i]).0 != (#[trigger] fields[j]).0),
        _ => true,
    }
}

// ---------------------------------------------------------------------------
// Finding one's way
// ---------------------------------------------------------------------------

/// A token is free of slashes.
pub open spec fn slash_free(s: Seq<char>) -> bool {
    forall|i: int| 0 <= i < s.len() ==> #[trigger] s[i] != '/'
}

proof fn first_slash(token: Seq<char>, rest: Seq<char>)
    requires
        slash_free(token),
        rest.len() == 0 || rest[0] == '/',
    ensures
        first_of(token + rest, '/') == token.len(),
    decreases token.len(),
{
    if token.len() == 0 {
        assert(token + rest =~= rest);
    } else {
        assert((token + rest)[0] == token[0]);
        assert((token + rest).skip(1) =~= token.skip(1) + rest);
        assert forall|i: int| 0 <= i < token.skip(1).len() implies #[trigger] token.skip(1)[i]
            != '/' by {
            assert(token.skip(1)[i] == token[i + 1]);
        }
        first_slash(token.skip(1), rest);
    }
}

/// A place is found step by step.
pub proof fn step(d: Doc, token: Seq<char>, rest: Seq<char>)
    requires
        slash_free(token),
        rest.len() == 0 || rest[0] == '/',
    ensures
        at(d, "/"@ + token + rest) == match child(d, token) {
            Some(c) => at(c, rest),
            None => None,
        },
{
    reveal_strlit("/");
    let place = "/"@ + token + rest;
    assert(place[0] == '/');
    assert(place.skip(1) =~= token + rest);
    first_slash(token, rest);
    assert((token + rest).take(token.len() as int) =~= token);
    assert((token + rest).skip(token.len() as int) =~= rest);
}

/// A place behind another is found from there.
pub proof fn step_behind(d: Doc, place: Seq<char>, token: Seq<char>)
    requires
        slash_free(token),
    ensures
        at(d, place + "/"@ + token) == match at(d, place) {
            Some(c) => child(c, token),
            None => None,
        },
    decreases place.len(),
{
    reveal_strlit("/");
    let empty = Seq::<char>::empty();
    let tail = "/"@ + token;
    let whole = place + "/"@ + token;
    assert(whole =~= place + tail);
    if place.len() == 0 {
        assert(whole =~= "/"@ + token + empty);
        step(d, token, empty);
    } else {
        assert(whole[0] == place[0]);
        if place[0] == '/' {
            let rest = place.skip(1);
            let n = first_of(rest, '/');
            first_of_concat(rest, tail, '/');
            assert(tail[0] == '/');
            assert(whole.skip(1) =~= rest + tail);
            assert(first_of(rest + tail, '/') == n);
            assert((rest + tail).take(n) =~= rest.take(n));
            if let Some(c) = child(d, rest.take(n)) {
                assert((rest + tail).skip(n) =~= rest.skip(n) + "/"@ + token);
                step_behind(c, rest.skip(n), token);
            }
        }
    }
}

/// A field is found by its name.
pub proof fn field_found(fields: Seq<(Seq<char>, Doc)>, i: int)
    requires
        0 <= i < fields.len(),
        forall|a: int, b: int|
            0 <= a < b < fields.len() ==> (#[trigger] fields[a]).0 != (#[trigger] fields[b]).0,
    ensures
        child(Doc::Fields(fields), fields[i].0) == Some(fields[i].1),
{
    let name = fields[i].0;
    assert(names_field(fields, i, name));
    let k = field_index(fields, name);
    assert(names_field(fields, k, name));
    if k < i {
        assert(fields[k].0 != fields[i].0);
    } else if i < k {
        assert(fields[i].0 != fields[k].0);
    }
}

proof fn digits_differ(a: nat, b: nat)
    requires
        a < 10,
        b < 10,
        digit_char(a) == digit_char(b),
    ensures
        a == b,
{
    vstd::utf8::char_u32_cast(digit_char(a), (48 + a) as u32);
    vstd::utf8::char_u32_cast(digit_char(b), (48 + b) as u32);
}

/// Numbers are told apart by their decimal text.
pub proof fn decimals_differ(a: nat, b: nat)
    requires
        dec_of(a) == dec_of(b),
    ensures
        a == b,
    decreases a,
{
    let s = dec_of(a);
    let t = dec_of(b);
    assert(s.last() == digit_char(a % 10));
    assert(t.last() == digit_char(b % 10));
    if a < 10 && b < 10 {
        digits_differ(a, b);
    } else if a >= 10 && b >= 10 {
        assert(s.drop_last() =~= dec_of(a / 10));
        assert(t.drop_last() =~= dec_of(b / 10));
        decimals_differ(a / 10, b / 10);
        digits_differ(a % 10, b % 10);
        assert(a == 10 * (a / 10) + a % 10);
        assert(b == 10 * (b / 10) + b % 10);
    } else {
        decimal_is_not_empty(a / 10);
        decimal_is_not_empty(b / 10);
    }
}

proof fn decimal_is_not_empty(n: nat)
    ensures
        dec_of(n).len() > 0,
{
}

/// Decimal text has no slash.
pub proof fn decimals_are_slash_free(n: nat)
    ensures
        slash_free(dec_of(n)),
    decreases n,
{
    let d = digit_char(n % 10);
    assert(d != '/') by {
        vstd::utf8::char_u32_cast(d, (48 + n % 10) as u32);
    }
    if n >= 10 {
        decimals_are_slash_free(n / 10);
        let s = dec_of(n / 10);
        assert forall|i: int| 0 <= i < dec_of(n).len() implies #[trigger] dec_of(n)[i] != '/' by {
            if i < s.len() {
                assert(dec_of(n)[i] == s[i]);
            }
        }
    }
}

/// An element is found by its number.
pub proof fn item_found(items: Seq<Doc>, i: int)
    requires
        0 <= i < items.len(),
    ensures
        child(Doc::List(items), dec_of(i as nat)) == Some(items[i]),
{
    let token = dec_of(i as nat);
    assert(numbers_item(items, i, token));
    let k = item_index(items, token);
    assert(numbers_item(items, k, token));
    decimals_differ(i as nat, k as nat);
}

} // verus!
