//! How the bytes of a file encode its text.
use vstd::prelude::*;
use vstd::slice::slice_subrange;
use vstd::utf8::{decode_utf8, valid_utf8};

use crate::text::{chars_of, concat, opt_text, string_of};
use crate::utf16::{
    bytes_give_back_the_units, bytes_le, decode, decoded, decoding_gives_back_the_text, encode,
    push_units_le, read_units_be, read_units_le, units_be, units_le, units_of,
};

verus! {

/// The encoding of a file's bytes.
#[derive(Clone, Copy, PartialEq, Eq, Debug, Structural)]
pub enum SourceEncoding {
    Utf16Le,
    Utf16Be,
    Utf8,
    Ansi,
}

/// Why bytes are not UTF-8, in words.
pub uninterp spec fn utf8_error_text(bytes: Seq<u8>) -> Seq<char>;

/// `std::str::from_utf8` reads the text of valid UTF-8 and refuses anything
/// else. The words of the refusal depend on the bytes alone and are only named.
#[verifier::external_body]
fn utf8_text(bytes: &[u8]) -> (r: Result<String, String>)
    ensures
        r is Ok <==> valid_utf8(bytes@),
        r matches Ok(s) ==> s@ == decode_utf8(bytes@),
        r matches Err(e) ==> e@ == utf8_error_text(bytes@),
{
    match std::str::from_utf8(bytes) {
        Ok(s) => Ok(s.to_owned()),
        Err(e) => Err(e.to_string()),
    }
}

/// `bytes` begin with `mark`.
pub open spec fn marked(bytes: Seq<u8>, mark: Seq<u8>) -> bool {
    mark.len() <= bytes.len() && bytes.take(mark.len() as int) == mark
}

/// The byte-order mark of little-endian UTF-16.
pub open spec fn mark_utf16le() -> Seq<u8> {
    seq![0xffu8, 0xfeu8]
}

/// The byte-order mark of big-endian UTF-16.
pub open spec fn mark_utf16be() -> Seq<u8> {
    seq![0xfeu8, 0xffu8]
}

/// The byte-order mark of UTF-8.
pub open spec fn mark_utf8() -> Seq<u8> {
    seq![0xefu8, 0xbbu8, 0xbfu8]
}

/// The encoding of a file: by its byte-order mark, else UTF-8 where the bytes
/// are UTF-8, else the system's code page.
pub open spec fn encoding_of(bytes: Seq<u8>) -> SourceEncoding {
    if marked(bytes, mark_utf16le()) {
        SourceEncoding::Utf16Le
    } else if marked(bytes, mark_utf16be()) {
        SourceEncoding::Utf16Be
    } else if marked(bytes, mark_utf8()) || valid_utf8(bytes) {
        SourceEncoding::Utf8
    } else {
        SourceEncoding::Ansi
    }
}

/// The text of UTF-16 bytes, of which `units` were read.
pub open spec fn utf16_outcome(
    odd: bool,
    units: Seq<u16>,
    encoding: SourceEncoding,
) -> Result<(Seq<char>, SourceEncoding), Seq<char>> {
    if odd {
        Err("UTF-16 input has an odd byte count"@)
    } else {
        match decoded(units) {
            Some(text) => Ok((text, encoding)),
            None => Err("UTF-16 input holds an unpaired surrogate"@),
        }
    }
}

/// The text of UTF-8 bytes.
pub open spec fn utf8_outcome(bytes: Seq<u8>) -> Result<(Seq<char>, SourceEncoding), Seq<char>> {
    if valid_utf8(bytes) {
        Ok((decode_utf8(bytes), SourceEncoding::Utf8))
    } else {
        Err("input is not valid UTF-8: "@ + utf8_error_text(bytes))
    }
}

/// The text of a file and its encoding. Nothing malformed is replaced: it is an
/// error. `ansi` is the system code page's reading of the bytes, used where
/// they have no byte-order mark and are not UTF-8.
pub open spec fn decode_outcome(bytes: Seq<u8>, ansi: Option<Seq<char>>) -> Result<
    (Seq<char>, SourceEncoding),
    Seq<char>,
> {
    if marked(bytes, mark_utf16le()) {
        let body = bytes.skip(2);
        utf16_outcome(body.len() % 2 != 0, units_le(body), SourceEncoding::Utf16Le)
    } else if marked(bytes, mark_utf16be()) {
        let body = bytes.skip(2);
        utf16_outcome(body.len() % 2 != 0, units_be(body), SourceEncoding::Utf16Be)
    } else if marked(bytes, mark_utf8()) {
        utf8_outcome(bytes.skip(3))
    } else if valid_utf8(bytes) {
        Ok((decode_utf8(bytes), SourceEncoding::Utf8))
    } else {
        match ansi {
            Some(text) => Ok((text, SourceEncoding::Ansi)),
            None => Err("input is neither UTF-8 nor text of the system code page"@),
        }
    }
}

/// A decoded text or the words of an error.
pub open spec fn outcome_view(r: Result<(String, SourceEncoding), String>) -> Result<
    (Seq<char>, SourceEncoding),
    Seq<char>,
> {
    match r {
        Ok((s, e)) => Ok((s@, e)),
        Err(m) => Err(m@),
    }
}

fn has_mark(bytes: &[u8], mark: &[u8]) -> (r: bool)
    ensures
        r == marked(bytes@, mark@),
{
    if mark.len() > bytes.len() {
        return false;
    }
    for i in 0..mark.len()
        invariant
            mark.len() <= bytes.len(),
            forall|j: int| 0 <= j < i ==> bytes@[j] == mark@[j],
    {
        if bytes[i] != mark[i] {
            assert(bytes@.take(mark@.len() as int)[i as int] != mark@[i as int]);
            return false;
        }
    }
    assert(bytes@.take(mark@.len() as int) =~= mark@);
    true
}

/// Whether the bytes begin with a byte-order mark of any kind.
pub fn has_byte_order_mark(bytes: &[u8]) -> (r: bool)
    ensures
        r == (marked(bytes@, mark_utf16le()) || marked(bytes@, mark_utf16be()) || marked(
            bytes@,
            mark_utf8(),
        )),
{
    let le: [u8; 2] = [0xff, 0xfe];
    let be: [u8; 2] = [0xfe, 0xff];
    let u8m: [u8; 3] = [0xef, 0xbb, 0xbf];
    assert(le@ =~= mark_utf16le());
    assert(be@ =~= mark_utf16be());
    assert(u8m@ =~= mark_utf8());
    has_mark(bytes, &le) || has_mark(bytes, &be) || has_mark(bytes, &u8m)
}

/// The encoding of a file.
pub fn source_encoding(bytes: &[u8]) -> (r: SourceEncoding)
    ensures
        r == encoding_of(bytes@),
{
    let le: [u8; 2] = [0xff, 0xfe];
    let be: [u8; 2] = [0xfe, 0xff];
    let u8m: [u8; 3] = [0xef, 0xbb, 0xbf];
    assert(le@ =~= mark_utf16le());
    assert(be@ =~= mark_utf16be());
    assert(u8m@ =~= mark_utf8());
    if has_mark(bytes, &le) {
        SourceEncoding::Utf16Le
    } else if has_mark(bytes, &be) {
        SourceEncoding::Utf16Be
    } else if has_mark(bytes, &u8m) || utf8_text(bytes).is_ok() {
        SourceEncoding::Utf8
    } else {
        SourceEncoding::Ansi
    }
}

fn finish_utf16(odd: bool, units: Vec<u16>, encoding: SourceEncoding) -> (r: Result<
    (String, SourceEncoding),
    String,
>)
    ensures
        outcome_view(r) == utf16_outcome(odd, units@, encoding),
{
    if odd {
        return Err("UTF-16 input has an odd byte count".to_owned());
    }
    match decode(units.as_slice()) {
        Some(text) => Ok((string_of(text.as_slice()), encoding)),
        None => Err("UTF-16 input holds an unpaired surrogate".to_owned()),
    }
}

/// Decodes a file strictly.
pub fn decode_strict(bytes: &[u8], ansi: Option<String>) -> (r: Result<
    (String, SourceEncoding),
    String,
>)
    ensures
        outcome_view(r) == decode_outcome(bytes@, opt_text(ansi)),
{
    let le: [u8; 2] = [0xff, 0xfe];
    let be: [u8; 2] = [0xfe, 0xff];
    let u8m: [u8; 3] = [0xef, 0xbb, 0xbf];
    assert(le@ =~= mark_utf16le());
    assert(be@ =~= mark_utf16be());
    assert(u8m@ =~= mark_utf8());
    if has_mark(bytes, &le) {
        let body = slice_subrange(bytes, 2, bytes.len());
        finish_utf16(body.len() % 2 != 0, read_units_le(body), SourceEncoding::Utf16Le)
    } else if has_mark(bytes, &be) {
        let body = slice_subrange(bytes, 2, bytes.len());
        finish_utf16(body.len() % 2 != 0, read_units_be(body), SourceEncoding::Utf16Be)
    } else if has_mark(bytes, &u8m) {
        let body = slice_subrange(bytes, 3, bytes.len());
        match utf8_text(body) {
            Ok(s) => Ok((s, SourceEncoding::Utf8)),
            Err(e) => Err(concat("input is not valid UTF-8: ", e.as_str())),
        }
    } else {
        match utf8_text(bytes) {
            Ok(s) => Ok((s, SourceEncoding::Utf8)),
            Err(_) => match ansi {
                Some(text) => Ok((text, SourceEncoding::Ansi)),
                None => Err(
                    "input is neither UTF-8 nor text of the system code page".to_owned(),
                ),
            },
        }
    }
}

/// The bytes of a text in little-endian UTF-16 with a byte-order mark.
pub open spec fn utf16le_file(text: Seq<char>) -> Seq<u8> {
    mark_utf16le() + bytes_le(units_of(text))
}

/// Encodes a text as little-endian UTF-16 with a byte-order mark.
pub fn encode_utf16le_bom(text: &str) -> (out: Vec<u8>)
    ensures
        out@ == utf16le_file(text@),
{
    let chars = chars_of(text);
    let units = encode(chars.as_slice());
    let mut out: Vec<u8> = Vec::new();
    out.push(0xff);
    out.push(0xfe);
    push_units_le(&mut out, units.as_slice());
    assert(out@ =~= utf16le_file(text@));
    out
}

/// Every text is read back from the UTF-16 bytes that it was written as.
pub proof fn utf16_file_reads_back(text: Seq<char>, ansi: Option<Seq<char>>)
    ensures
        decode_outcome(utf16le_file(text), ansi) == Ok::<(Seq<char>, SourceEncoding), Seq<char>>(
            (text, SourceEncoding::Utf16Le),
        ),
{
    let bytes = utf16le_file(text);
    assert(bytes.take(2) =~= mark_utf16le());
    assert(bytes.skip(2) =~= bytes_le(units_of(text)));
    bytes_give_back_the_units(units_of(text));
    decoding_gives_back_the_text(text);
}

/// Every text is read back from its UTF-8 bytes, unless they begin with a
/// byte-order mark.
pub proof fn utf8_file_reads_back(text: Seq<char>, ansi: Option<Seq<char>>)
    requires
        !marked(vstd::utf8::encode_utf8(text), mark_utf8()),
    ensures
        decode_outcome(vstd::utf8::encode_utf8(text), ansi) == Ok::<
            (Seq<char>, SourceEncoding),
            Seq<char>,
        >((text, SourceEncoding::Utf8)),
{
    let bytes = vstd::utf8::encode_utf8(text);
    vstd::utf8::encode_utf8_valid_utf8(text);
    vstd::utf8::encode_utf8_decode_utf8(text);
    assert(!marked(bytes, mark_utf16le()) && !marked(bytes, mark_utf16be())) by {
        if bytes.len() >= 2 {
            assert(vstd::utf8::valid_first_scalar(bytes));
            assert(bytes.take(2)[0] == bytes[0]);
            vstd::utf8::utf8_byte_ranges_bitwise(bytes[0]);
        }
    }
}

/// The text of a shortcut manifest: by its byte-order mark where it has one,
/// UTF-8 otherwise.
pub open spec fn manifest_outcome(bytes: Seq<u8>) -> Result<Seq<char>, Seq<char>> {
    if marked(bytes, mark_utf16le()) || marked(bytes, mark_utf16be()) || marked(
        bytes,
        mark_utf8(),
    ) {
        match decode_outcome(bytes, None) {
            Ok((text, _)) => Ok(text),
            Err(e) => Err(e),
        }
    } else if valid_utf8(bytes) {
        Ok(decode_utf8(bytes))
    } else {
        Err("shortcut manifest is not valid UTF-8: "@ + utf8_error_text(bytes))
    }
}

/// Decodes a shortcut manifest.
pub fn decode_shortcut_manifest(bytes: &[u8]) -> (r: Result<String, String>)
    ensures
        match r {
            Ok(s) => manifest_outcome(bytes@) == Ok::<Seq<char>, Seq<char>>(s@),
            Err(e) => manifest_outcome(bytes@) == Err::<Seq<char>, Seq<char>>(e@),
        },
{
    if has_byte_order_mark(bytes) {
        return match decode_strict(bytes, None) {
            Ok((text, _)) => Ok(text),
            Err(e) => Err(e),
        };
    }
    match utf8_text(bytes) {
        Ok(s) => Ok(s),
        Err(e) => Err(concat("shortcut manifest is not valid UTF-8: ", e.as_str())),
    }
}

} // verus!
