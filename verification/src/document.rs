//! JSON documents: their parts, and their canonical text.
use vstd::prelude::*;

use crate::doc::{at, count_in, doc_text, flag_in, number_in, sound, text_in, Doc};

verus! {

/// Why bytes are no JSON document; none where they are one.
pub uninterp spec fn json_problem(bytes: Seq<u8>) -> Option<Seq<char>>;

/// `serde_json::from_slice` refuses bytes that are no JSON document. Whether it
/// does, and in which words, depends on the bytes alone; the grammar is not
/// restated here.
#[verifier::external_body]
pub(crate) fn problem(bytes: &[u8]) -> (r: Option<String>)
    ensures
        crate::text::opt_text(r) == json_problem(bytes@),
{
    match serde_json::from_slice::<serde_json::Value>(bytes) {
        Ok(_) => None,
        Err(error) => Some(error.to_string()),
    }
}

/// The text at a place of a document; none where there is no text.
pub uninterp spec fn json_text_at(bytes: Seq<u8>, pointer: Seq<char>) -> Option<Seq<char>>;

/// `serde_json::Value::pointer` and `as_str`: the string at a JSON pointer, in a
/// document read by `from_slice`. It depends on the bytes and the pointer alone.
#[verifier::external_body]
pub(crate) fn text_at(bytes: &[u8], pointer: &str) -> (r: Option<String>)
    ensures
        crate::text::opt_text(r) == json_text_at(bytes@, pointer@),
{
    let root: serde_json::Value = serde_json::from_slice(bytes).ok()?;
    root.pointer(pointer)?.as_str().map(str::to_owned)
}

/// The unsigned integer at a place of a document; none where there is none.
pub uninterp spec fn json_number_at(bytes: Seq<u8>, pointer: Seq<char>) -> Option<u64>;

/// `serde_json::Value::pointer` and `as_u64`: the integer at a JSON pointer.
#[verifier::external_body]
pub(crate) fn number_at(bytes: &[u8], pointer: &str) -> (r: Option<u64>)
    ensures
        r == json_number_at(bytes@, pointer@),
{
    let root: serde_json::Value = serde_json::from_slice(bytes).ok()?;
    root.pointer(pointer)?.as_u64()
}

/// The truth value at a place of a document; none where there is none.
pub uninterp spec fn json_flag_at(bytes: Seq<u8>, pointer: Seq<char>) -> Option<bool>;

/// `serde_json::Value::pointer` and `as_bool`: the truth value at a JSON
/// pointer, in a document read by `from_slice`. It depends on the bytes and the
/// pointer alone.
#[verifier::external_body]
pub(crate) fn flag_at(bytes: &[u8], pointer: &str) -> (r: Option<bool>)
    ensures
        r == json_flag_at(bytes@, pointer@),
{
    let root: serde_json::Value = serde_json::from_slice(bytes).ok()?;
    root.pointer(pointer)?.as_bool()
}

/// The number of elements of the array at a place of a document; none where
/// there is no array.
pub uninterp spec fn json_count_at(bytes: Seq<u8>, pointer: Seq<char>) -> Option<nat>;

/// `serde_json::Value::pointer` and `as_array`: the length of the array at a
/// JSON pointer.
#[verifier::external_body]
pub(crate) fn count_at(bytes: &[u8], pointer: &str) -> (r: Option<usize>)
    ensures
        match r {
            Some(n) => json_count_at(bytes@, pointer@) == Some(n as nat),
            None => json_count_at(bytes@, pointer@) is None,
        },
{
    let root: serde_json::Value = serde_json::from_slice(bytes).ok()?;
    root.pointer(pointer)?.as_array().map(|items| items.len())
}

/// The compact text of the part at a place of a document; none where there is
/// no such place.
pub uninterp spec fn json_part_at(bytes: Seq<u8>, pointer: Seq<char>) -> Option<Seq<u8>>;

/// `serde_json::Value::pointer` and `serde_json::to_vec`: the part at a JSON
/// pointer, written out without white space.
#[verifier::external_body]
pub(crate) fn part_at(bytes: &[u8], pointer: &str) -> (r: Option<Vec<u8>>)
    ensures
        match r {
            Some(b) => json_part_at(bytes@, pointer@) == Some(b@),
            None => json_part_at(bytes@, pointer@) is None,
        },
{
    let root: serde_json::Value = serde_json::from_slice(bytes).ok()?;
    serde_json::to_vec(root.pointer(pointer)?).ok()
}

/// The depth to which documents may be nested here.
pub open spec fn nesting() -> nat {
    100
}

/// A place without the escapes of JSON pointers.
pub open spec fn plain(place: Seq<char>) -> bool {
    forall|i: int| 0 <= i < place.len() ==> #[trigger] place[i] != '~'
}

/// Bytes read as a document: at every plain place there is what the document
/// has there, and each part is written out as its own text would be.
pub open spec fn reads_as(bytes: Seq<u8>, d: Doc) -> bool {
    &&& json_problem(bytes) is None
    &&& forall|p: Seq<char>| plain(p) ==> #[trigger] json_text_at(bytes, p) == text_in(d, p)
    &&& forall|p: Seq<char>| plain(p) ==> #[trigger] json_number_at(bytes, p) == number_in(d, p)
    &&& forall|p: Seq<char>| plain(p) ==> #[trigger] json_flag_at(bytes, p) == flag_in(d, p)
    &&& forall|p: Seq<char>| plain(p) ==> #[trigger] json_count_at(bytes, p) == count_in(d, p)
    &&& forall|p: Seq<char>|
        plain(p) ==> (#[trigger] json_part_at(bytes, p)) is Some == at(d, p) is Some
    &&& forall|p: Seq<char>|
        plain(p) && at(d, p) is Some ==> json_compact(doc_text(at(d, p)->0)) == Ok::<
            Seq<u8>,
            Seq<char>,
        >((#[trigger] json_part_at(bytes, p))->0)
}

/// A document without white space, or why the text is none.
pub uninterp spec fn json_compact(text: Seq<char>) -> Result<Seq<u8>, Seq<char>>;

/// `serde_json::from_str` and `serde_json::to_vec`: a document read and written
/// out again without white space. The text of a sound document is always read.
#[verifier::external_body]
pub(crate) fn compact(text: &str) -> (r: Result<Vec<u8>, String>)
    ensures
        match r {
            Ok(b) => json_compact(text@) == Ok::<Seq<u8>, Seq<char>>(b@),
            Err(e) => json_compact(text@) == Err::<Seq<u8>, Seq<char>>(e@),
        },
        forall|d: Doc| text@ == #[trigger] doc_text(d) && sound(d, nesting()) ==> r is Ok,
{
    let root: Result<serde_json::Value, serde_json::Error> = serde_json::from_str(text);
    root.and_then(|value| serde_json::to_vec(&value)).map_err(|error| error.to_string())
}

/// A document with line breaks and indentation, or why the text is none.
pub uninterp spec fn json_pretty(text: Seq<char>) -> Result<Seq<u8>, Seq<char>>;

/// `serde_json::from_str` and `serde_json::to_vec_pretty`: a document read and
/// written out again with line breaks and indentation. The text of a sound
/// document is always read, and what is written, with a line feed behind it,
/// reads as that document again.
#[verifier::external_body]
pub(crate) fn pretty(text: &str) -> (r: Result<Vec<u8>, String>)
    ensures
        match r {
            Ok(b) => json_pretty(text@) == Ok::<Seq<u8>, Seq<char>>(b@),
            Err(e) => json_pretty(text@) == Err::<Seq<u8>, Seq<char>>(e@),
        },
        forall|d: Doc|
            text@ == #[trigger] doc_text(d) && sound(d, nesting()) ==> r is Ok && reads_as(
                (r->Ok_0)@.push(10u8),
                d,
            ),
{
    let root: Result<serde_json::Value, serde_json::Error> = serde_json::from_str(text);
    root.and_then(|value| serde_json::to_vec_pretty(&value)).map_err(|error| error.to_string())
}

} // verus!
