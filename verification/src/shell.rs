//! Shell known folders in path-bearing text.
//!
//! `shell:Startup`, `shell:Desktop` and `shell:Programs` stand for folders that
//! the system reports; they are recognised in any ASCII case and anywhere in a
//! text. What else begins with `shell:` is refused.
use vstd::prelude::*;
use vstd::slice::slice_subrange;

use crate::number::{hex_of, push_hex};
use crate::text::{
    chars_of, concat, debug_text, lowered, push_chars, same_ignoring_case, string_of, text_result,
    to_debug,
};
use crate::utf16::{decode, decoded};

verus! {

/// A folder that a token stands for.
#[derive(Clone, Copy, Debug, PartialEq, Eq, Structural)]
pub enum KnownFolder {
    Startup,
    Desktop,
    Programs,
}

/// The token of a folder.
pub open spec fn token_of(folder: KnownFolder) -> Seq<char> {
    match folder {
        KnownFolder::Startup => "shell:Startup"@,
        KnownFolder::Desktop => "shell:Desktop"@,
        KnownFolder::Programs => "shell:Programs"@,
    }
}

impl KnownFolder {
    /// The token of the folder.
    pub fn token(self) -> (r: &'static str)
        ensures
            r@ == token_of(self),
    {
        match self {
            KnownFolder::Startup => "shell:Startup",
            KnownFolder::Desktop => "shell:Desktop",
            KnownFolder::Programs => "shell:Programs",
        }
    }

    /// The folder's number in the interface that preceded known folders.
    pub fn csidl(self) -> (r: i32)
        ensures
            r == (match self {
                KnownFolder::Startup => 0x0007i32,
                KnownFolder::Desktop => 0x0010i32,
                KnownFolder::Programs => 0x0002i32,
            }),
    {
        match self {
            KnownFolder::Startup => 0x0007,
            KnownFolder::Desktop => 0x0010,
            KnownFolder::Programs => 0x0002,
        }
    }
}

/// What the system reports of each folder: its path, or why there is none.
pub struct Folders {
    pub startup: Result<String, String>,
    pub desktop: Result<String, String>,
    pub programs: Result<String, String>,
}

/// What a `Folders` stands for.
pub struct FoldersView {
    pub startup: Result<Seq<char>, Seq<char>>,
    pub desktop: Result<Seq<char>, Seq<char>>,
    pub programs: Result<Seq<char>, Seq<char>>,
}

impl View for Folders {
    type V = FoldersView;

    open spec fn view(&self) -> FoldersView {
        FoldersView {
            startup: text_result(self.startup),
            desktop: text_result(self.desktop),
            programs: text_result(self.programs),
        }
    }
}

// ---------------------------------------------------------------------------
// Finding and replacing, ignoring ASCII case
// ---------------------------------------------------------------------------

/// The first place at which `needle` occurs, ignoring ASCII case, or -1. An
/// empty needle occurs nowhere.
pub open spec fn first_ignoring_case(s: Seq<char>, needle: Seq<char>) -> int
    decreases s.len(),
{
    if needle.len() == 0 || s.len() < needle.len() {
        -1
    } else if lowered(s.take(needle.len() as int)) == lowered(needle) {
        0
    } else {
        let r = first_ignoring_case(s.skip(1), needle);
        if r < 0 {
            -1
        } else {
            r + 1
        }
    }
}

proof fn first_ignoring_case_bounds(s: Seq<char>, needle: Seq<char>)
    ensures
        -1 <= first_ignoring_case(s, needle),
        first_ignoring_case(s, needle) >= 0 ==> needle.len() > 0 && first_ignoring_case(s, needle)
            + needle.len() <= s.len(),
    decreases s.len(),
{
    if needle.len() != 0 && s.len() >= needle.len() && lowered(s.take(needle.len() as int))
        != lowered(needle) {
        first_ignoring_case_bounds(s.skip(1), needle);
    }
}

/// `s` with every occurrence of `needle` replaced.
pub open spec fn replaced(s: Seq<char>, needle: Seq<char>, by: Seq<char>) -> Seq<char>
    decreases s.len(),
    via replaced_decreases
{
    let i = first_ignoring_case(s, needle);
    if i < 0 {
        s
    } else {
        s.take(i) + by + replaced(s.skip(i + needle.len()), needle, by)
    }
}

#[via_fn]
proof fn replaced_decreases(s: Seq<char>, needle: Seq<char>, by: Seq<char>) {
    first_ignoring_case_bounds(s, needle);
}

/// The first place at which `needle` occurs, ignoring ASCII case.
pub fn find_ascii_case_insensitive(s: &[char], needle: &[char]) -> (r: Option<usize>)
    ensures
        match r {
            Some(i) => i == first_ignoring_case(s@, needle@) && needle@.len() > 0 && i
                + needle@.len() <= s@.len(),
            None => first_ignoring_case(s@, needle@) < 0,
        },
{
    if needle.len() == 0 {
        return None;
    }
    let mut i: usize = 0;
    assert(s@.skip(0) =~= s@);
    while s.len() - i >= needle.len()
        invariant
            needle@.len() > 0,
            i <= s.len(),
            first_ignoring_case(s@, needle@) == (if first_ignoring_case(s@.skip(i as int), needle@)
                < 0 {
                -1
            } else {
                i + first_ignoring_case(s@.skip(i as int), needle@)
            }),
        decreases s.len() - i,
    {
        let ghost rest = s@.skip(i as int);
        assert(rest.skip(1) =~= s@.skip(i + 1));
        let window = slice_subrange(s, i, i + needle.len());
        assert(window@ =~= rest.take(needle@.len() as int));
        if same_ignoring_case(window, needle) {
            return Some(i);
        }
        i += 1;
    }
    None
}

/// Replaces every occurrence of `needle`, ignoring ASCII case.
pub fn replace_ascii_case_insensitive(input: &str, needle: &str, replacement: &str) -> (out: String)
    ensures
        out@ == replaced(input@, needle@, replacement@),
{
    let text = chars_of(input);
    let n = chars_of(needle);
    let by = chars_of(replacement);
    let mut out: Vec<char> = Vec::new();
    let mut rest: &[char] = text.as_slice();
    assert(Seq::<char>::empty() + replaced(rest@, needle@, replacement@) =~= replaced(
        rest@,
        needle@,
        replacement@,
    ));
    loop
        invariant
            n@ == needle@,
            by@ == replacement@,
            replaced(input@, needle@, replacement@) == out@ + replaced(
                rest@,
                needle@,
                replacement@,
            ),
        decreases rest@.len(),
    {
        match find_ascii_case_insensitive(rest, n.as_slice()) {
            Some(i) => {
                let ghost before = out@;
                let ghost old_rest = rest@;
                let total: usize = rest.len();
                push_chars(&mut out, slice_subrange(rest, 0, i));
                push_chars(&mut out, by.as_slice());
                rest = slice_subrange(rest, i + n.len(), total);
                proof {
                    assert(old_rest.skip(i as int + needle@.len()) =~= rest@);
                    let tail = replaced(rest@, needle@, replacement@);
                    assert(before + (old_rest.take(i as int) + replacement@ + tail) =~= before
                        + old_rest.take(i as int) + replacement@ + tail);
                }
            },
            None => {
                push_chars(&mut out, rest);
                return string_of(out.as_slice());
            },
        }
    }
}

// ---------------------------------------------------------------------------
// Tokens
// ---------------------------------------------------------------------------

/// A character that ends a token.
pub open spec fn ends_token(c: char) -> bool {
    c == '\\' || c == '/' || c == ' ' || c == '\t' || c == '\r' || c == '\n' || c == '"' || c
        == '\''
}

/// The first character of `s` that ends a token, or the length.
pub open spec fn token_end(s: Seq<char>) -> int
    decreases s.len(),
{
    if s.len() == 0 || ends_token(s[0]) {
        0
    } else {
        1 + token_end(s.skip(1))
    }
}

/// The first `shell:` token of a text.
pub open spec fn shell_token(s: Seq<char>) -> Option<Seq<char>> {
    let i = first_ignoring_case(s, "shell:"@);
    if i < 0 {
        None
    } else {
        Some(s.skip(i).take(token_end(s.skip(i))))
    }
}

/// The first `shell:` token of a text.
pub fn find_shell_token(s: &[char]) -> (r: Option<String>)
    ensures
        match r {
            Some(t) => shell_token(s@) == Some(t@),
            None => shell_token(s@) is None,
        },
{
    let mark = chars_of("shell:");
    match find_ascii_case_insensitive(s, mark.as_slice()) {
        None => None,
        Some(i) => {
            let tail = slice_subrange(s, i, s.len());
            let mut n: usize = 0;
            assert(tail@.skip(0) =~= tail@);
            while n < tail.len() && !is_token_end(tail[n])
                invariant
                    n <= tail.len(),
                    token_end(tail@) == n + token_end(tail@.skip(n as int)),
                decreases tail.len() - n,
            {
                assert(tail@.skip(n as int).skip(1) =~= tail@.skip(n + 1));
                n += 1;
            }
            Some(string_of(slice_subrange(tail, 0, n)))
        },
    }
}

fn is_token_end(c: char) -> (b: bool)
    ensures
        b == ends_token(c),
{
    c == '\\' || c == '/' || c == ' ' || c == '\t' || c == '\r' || c == '\n' || c == '"' || c
        == '\''
}

/// Whether a text names the shell at all.
pub fn mentions_shell(input: &str) -> (b: bool)
    ensures
        b == (first_ignoring_case(input@, "shell:"@) >= 0),
{
    let text = chars_of(input);
    let mark = chars_of("shell:");
    find_ascii_case_insensitive(text.as_slice(), mark.as_slice()).is_some()
}

/// A text with the token of one folder replaced; the system's error where the
/// token occurs and the folder has no path.
pub open spec fn with_folder(
    text: Seq<char>,
    folder: KnownFolder,
    path: Result<Seq<char>, Seq<char>>,
) -> Result<Seq<char>, Seq<char>> {
    if first_ignoring_case(text, token_of(folder)) < 0 {
        Ok(text)
    } else {
        match path {
            Ok(p) => Ok(replaced(text, token_of(folder), p)),
            Err(e) => Err(e),
        }
    }
}

/// The message for a token that stands for no supported folder.
pub open spec fn unsupported_token(token: Seq<char>) -> Seq<char> {
    "unsupported Windows Shell Known Folder token "@ + debug_text(token)
        + "; supported tokens are shell:Startup, shell:Desktop, and shell:Programs"@
}

/// A text with its folder tokens resolved; an error where another token is
/// left.
pub open spec fn resolved(input: Seq<char>, folders: FoldersView) -> Result<
    Seq<char>,
    Seq<char>,
> {
    match with_folder(input, KnownFolder::Startup, folders.startup) {
        Err(e) => Err(e),
        Ok(a) => match with_folder(a, KnownFolder::Desktop, folders.desktop) {
            Err(e) => Err(e),
            Ok(b) => match with_folder(b, KnownFolder::Programs, folders.programs) {
                Err(e) => Err(e),
                Ok(c) => match shell_token(c) {
                    Some(token) => Err(unsupported_token(token)),
                    None => Ok(c),
                },
            },
        },
    }
}

fn resolve_folder(text: String, folder: KnownFolder, path: &Result<String, String>) -> (r: Result<
    String,
    String,
>)
    ensures
        text_result(r) == with_folder(text@, folder, text_result(*path)),
{
    let chars = chars_of(text.as_str());
    let token = chars_of(folder.token());
    match find_ascii_case_insensitive(chars.as_slice(), token.as_slice()) {
        None => Ok(text),
        Some(_) => match path {
            Ok(p) => Ok(
                replace_ascii_case_insensitive(text.as_str(), folder.token(), p.as_str()),
            ),
            Err(e) => Err(e.clone()),
        },
    }
}

/// Resolves every supported token of a text.
pub fn resolve_text(input: &str, folders: &Folders) -> (r: Result<String, String>)
    ensures
        text_result(r) == resolved(input@, folders@),
{
    let a = match resolve_folder(input.to_owned(), KnownFolder::Startup, &folders.startup) {
        Ok(s) => s,
        Err(e) => {
            return Err(e);
        },
    };
    let b = match resolve_folder(a, KnownFolder::Desktop, &folders.desktop) {
        Ok(s) => s,
        Err(e) => {
            return Err(e);
        },
    };
    let c = match resolve_folder(b, KnownFolder::Programs, &folders.programs) {
        Ok(s) => s,
        Err(e) => {
            return Err(e);
        },
    };
    let chars = chars_of(c.as_str());
    match find_shell_token(chars.as_slice()) {
        Some(token) => {
            let mut message = concat(
                "unsupported Windows Shell Known Folder token ",
                to_debug(token.as_str()).as_str(),
            );
            message.append(
                "; supported tokens are shell:Startup, shell:Desktop, and shell:Programs",
            );
            Err(message)
        },
        None => Ok(c),
    }
}

/// Resolves every supported token of a path.
pub fn resolve_path(input: &str, folders: &Folders) -> (r: Result<String, String>)
    ensures
        text_result(r) == resolved(input@, folders@),
{
    resolve_text(input, folders)
}

/// No token is left in a text that was resolved: an unknown one is refused.
pub proof fn no_token_survives(input: Seq<char>, folders: FoldersView)
    ensures
        resolved(input, folders) matches Ok(text) ==> first_ignoring_case(text, "shell:"@) < 0,
{
}

proof fn no_needle_no_longer_needle(s: Seq<char>, short: Seq<char>, long: Seq<char>)
    requires
        short.len() > 0,
        short.len() <= long.len(),
        lowered(long.take(short.len() as int)) == lowered(short),
        first_ignoring_case(s, short) < 0,
    ensures
        first_ignoring_case(s, long) < 0,
    decreases s.len(),
{
    if s.len() >= long.len() {
        let k = short.len() as int;
        assert(lowered(s.take(long.len() as int)) == lowered(long) ==> lowered(s.take(k))
            == lowered(short)) by {
            if lowered(s.take(long.len() as int)) == lowered(long) {
                assert forall|i: int| 0 <= i < k implies lowered(s.take(k))[i] == lowered(
                    short,
                )[i] by {
                    assert(lowered(s.take(long.len() as int))[i] == lowered(long)[i]);
                    assert(lowered(long.take(k))[i] == lowered(short)[i]);
                }
                assert(lowered(s.take(k)) =~= lowered(short));
            }
        }
        no_needle_no_longer_needle(s.skip(1), short, long);
    }
}

/// A text that does not mention the shell is left as it is.
pub proof fn plain_text_is_untouched(input: Seq<char>, folders: FoldersView)
    requires
        first_ignoring_case(input, "shell:"@) < 0,
    ensures
        resolved(input, folders) == Ok::<Seq<char>, Seq<char>>(input),
{
    reveal_strlit("shell:");
    reveal_strlit("shell:Startup");
    reveal_strlit("shell:Desktop");
    reveal_strlit("shell:Programs");
    assert("shell:Startup"@.take(6) =~= "shell:"@);
    assert("shell:Desktop"@.take(6) =~= "shell:"@);
    assert("shell:Programs"@.take(6) =~= "shell:"@);
    no_needle_no_longer_needle(input, "shell:"@, "shell:Startup"@);
    no_needle_no_longer_needle(input, "shell:"@, "shell:Desktop"@);
    no_needle_no_longer_needle(input, "shell:"@, "shell:Programs"@);
}

// ---------------------------------------------------------------------------
// The system's answers
// ---------------------------------------------------------------------------

/// The first zero unit, or the length.
pub open spec fn first_zero(units: Seq<u16>) -> int
    decreases units.len(),
{
    if units.len() == 0 || units[0] == 0 {
        0
    } else {
        1 + first_zero(units.skip(1))
    }
}

/// The position of the first zero unit, or the length.
pub fn find_zero(units: &[u16]) -> (n: usize)
    ensures
        n == first_zero(units@),
        n <= units@.len(),
{
    let mut n: usize = 0;
    assert(units@.skip(0) =~= units@);
    while n < units.len() && units[n] != 0
        invariant
            n <= units.len(),
            first_zero(units@) == n + first_zero(units@.skip(n as int)),
        decreases units.len() - n,
    {
        assert(units@.skip(n as int).skip(1) =~= units@.skip(n + 1));
        n += 1;
    }
    n
}

/// The text in front of the terminator of a path that the system allocated, of
/// which at most 32768 units are looked at.
pub open spec fn allocated_text(units: Seq<u16>) -> Result<Seq<char>, Seq<char>> {
    let n = first_zero(units);
    if n >= 32_768 || n >= units.len() {
        Err("Known Folder path is not NUL-terminated within 32768 UTF-16 units"@)
    } else {
        match decoded(units.take(n)) {
            Some(text) => Ok(text),
            None => Err("Known Folder path contains malformed UTF-16"@),
        }
    }
}

/// Reads a path that the system allocated.
pub fn wide_to_string(units: &[u16]) -> (r: Result<String, String>)
    ensures
        text_result(r) == allocated_text(units@),
{
    let n = find_zero(units);
    if n >= 32_768 || n >= units.len() {
        return Err(
            "Known Folder path is not NUL-terminated within 32768 UTF-16 units".to_owned(),
        );
    }
    match decode(slice_subrange(units, 0, n)) {
        Some(text) => Ok(string_of(text.as_slice())),
        None => Err("Known Folder path contains malformed UTF-16".to_owned()),
    }
}

/// A signed number as the unsigned one with the same bits.
pub open spec fn bits_of(n: i32) -> nat {
    if n < 0 {
        (n + 0x1_0000_0000) as nat
    } else {
        n as nat
    }
}

/// A signed number as the unsigned one with the same bits.
pub fn to_bits(n: i32) -> (r: u64)
    ensures
        r == bits_of(n),
{
    if n < 0 {
        (n as i64 + 0x1_0000_0000) as u64
    } else {
        n as u64
    }
}

/// The path of a folder from the system's answers: that of the known-folder
/// call where it succeeded, else that of the older call.
pub open spec fn folder_outcome(
    folder: KnownFolder,
    hr: i32,
    allocated: Option<Seq<u16>>,
    fallback: i32,
    buffer: Seq<u16>,
) -> Result<Seq<char>, Seq<char>> {
    if hr >= 0 && allocated is Some {
        allocated_text(allocated->0)
    } else if fallback < 0 {
        Err(
            "cannot resolve "@ + token_of(folder) + " (SHGetKnownFolderPath=0x"@ + hex_of(
                bits_of(hr),
                8,
            ) + ", SHGetFolderPathW=0x"@ + hex_of(bits_of(fallback), 8) + ")"@,
        )
    } else {
        match decoded(buffer.take(first_zero(buffer))) {
            Some(text) => Ok(text),
            None => Err(token_of(folder) + " resolved to malformed UTF-16"@),
        }
    }
}

/// The path of a folder from the system's answers. `allocated` is what the
/// known-folder call returned, if anything; `fallback` and `buffer` are the
/// answer of the older call, which counts only where the first one failed.
pub fn folder_path(
    folder: KnownFolder,
    hr: i32,
    allocated: Option<Vec<u16>>,
    fallback: i32,
    buffer: &[u16],
) -> (r: Result<String, String>)
    ensures
        text_result(r) == folder_outcome(
            folder,
            hr,
            (match allocated {
                Some(units) => Some(units@),
                None => None,
            }),
            fallback,
            buffer@,
        ),
{
    if hr >= 0 {
        if let Some(units) = &allocated {
            return wide_to_string(units.as_slice());
        }
    }
    if fallback < 0 {
        let mut message = concat("cannot resolve ", folder.token());
        message.append(" (SHGetKnownFolderPath=0x");
        push_hex(&mut message, to_bits(hr), 8);
        message.append(", SHGetFolderPathW=0x");
        push_hex(&mut message, to_bits(fallback), 8);
        message.append(")");
        return Err(message);
    }
    let n = find_zero(buffer);
    match decode(slice_subrange(buffer, 0, n)) {
        Some(text) => Ok(string_of(text.as_slice())),
        None => Err(concat(folder.token(), " resolved to malformed UTF-16")),
    }
}

} // verus!
