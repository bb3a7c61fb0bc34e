//! What was asked for on the command line, before anything is done.
use vstd::prelude::*;
use vstd::slice::slice_subrange;

use crate::exit::{done_result, failed, plain_error, usage, usage_error, ErrorView, ExitError};
use crate::model::{long_name_of, Hive};
use crate::number::{dec_of, push_dec, read_unsigned, unsigned};
use crate::select::is_hex_digit;
use crate::shell::{first_ignoring_case, mentions_shell, resolve_text, resolved, Folders, FoldersView};
use crate::text::{
    begins, begins_char, chars_of, concat, concat3, contains_char, debug_text, is_control_char,
    is_text, is_white, lowered, opt_text, same_ignoring_case, same_str, split, split_by,
    starts_with, starts_with_char, string_of, strip_start, stripped_start, to_debug, trim, trimmed,
    views, views_push,
};

verus! {

// ---------------------------------------------------------------------------
// Arguments
// ---------------------------------------------------------------------------

/// An argument: one that was given, by its position, or a text in its place.
#[derive(Debug, PartialEq, Eq)]
pub enum Argument {
    Given(usize),
    Text(String),
}

/// What an `Argument` stands for.
pub enum ArgumentView {
    Given(int),
    Text(Seq<char>),
}

impl View for Argument {
    type V = ArgumentView;

    open spec fn view(&self) -> ArgumentView {
        match self {
            Argument::Given(i) => ArgumentView::Given(*i as int),
            Argument::Text(s) => ArgumentView::Text(s@),
        }
    }
}

/// `json` or `text`.
pub open spec fn is_format(s: Seq<char>) -> bool {
    s == "json"@ || s == "text"@
}

/// The arguments from `i` on. `--output` means the output format everywhere,
/// but in `lnk create` a value that is no format names the shortcut's file.
pub open spec fn normalized(
    texts: Seq<Seq<char>>,
    i: int,
    saw_lnk: bool,
    saw_create: bool,
) -> Seq<ArgumentView>
    decreases texts.len() - i,
{
    if i >= texts.len() {
        Seq::empty()
    } else {
        let t = texts[i];
        let lnk = saw_lnk || lowered(t) == lowered("lnk"@);
        let create = saw_create || lowered(t) != lowered("lnk"@) && saw_lnk && lowered(t)
            == lowered("create"@);
        if create && t == "--output"@ && i + 1 < texts.len() && !is_format(texts[i + 1]) {
            seq![ArgumentView::Text("--shortcut-output"@), ArgumentView::Given(i + 1)]
                + normalized(texts, i + 2, lnk, create)
        } else if create && t != "--output"@ && begins(t, "--output="@) && !is_format(t.skip(9)) {
            seq![ArgumentView::Text("--shortcut-output="@ + t.skip(9))] + normalized(
                texts,
                i + 1,
                lnk,
                create,
            )
        } else {
            seq![ArgumentView::Given(i)] + normalized(texts, i + 1, lnk, create)
        }
    }
}

fn is_lowered(s: &[char], t: &str) -> (b: bool)
    ensures
        b == (lowered(s@) == lowered(t@)),
{
    let x = chars_of(t);
    same_ignoring_case(s, x.as_slice())
}

fn names_format(s: &[char]) -> (b: bool)
    ensures
        b == is_format(s@),
{
    is_text(s, "json") || is_text(s, "text")
}

/// Tells the two meanings of `--output` apart.
pub fn normalize_lnk_output_args(args: &Vec<String>) -> (out: Vec<Argument>)
    ensures
        views(out@) == normalized(views(args@), 0, false, false),
{
    broadcast use views_push;

    let ghost all = views(args@);
    let mut out: Vec<Argument> = Vec::new();
    let mut saw_lnk = false;
    let mut saw_create = false;
    let mut i: usize = 0;
    let assign = chars_of("--output=");
    proof {
        reveal_strlit("--output=");
    }
    assert(views(out@) + normalized(all, 0, false, false) =~= normalized(all, 0, false, false));
    while i < args.len()
        invariant
            all == views(args@),
            assign@ == "--output="@,
            assign@.len() == 9,
            i <= args@.len(),
            normalized(all, 0, false, false) == views(out@) + normalized(
                all,
                i as int,
                saw_lnk,
                saw_create,
            ),
        decreases args@.len() - i,
    {
        let ghost before = views(out@);
        let ghost rest = normalized(all, i as int, saw_lnk, saw_create);
        let text = chars_of(args[i].as_str());
        let t = text.as_slice();
        assert(all[i as int] == t@);
        if is_lowered(t, "lnk") {
            saw_lnk = true;
        } else if saw_lnk && is_lowered(t, "create") {
            saw_create = true;
        }
        let mut taken: usize = 1;
        if saw_create && is_text(t, "--output") {
            let mut path = false;
            if i + 1 < args.len() {
                let next = chars_of(args[i + 1].as_str());
                assert(all[i + 1] == next@);
                path = !names_format(next.as_slice());
            }
            if path {
                let flag = Argument::Text("--shortcut-output".to_owned());
                let ghost a = out@;
                out.push(flag);
                assert(views(out@) == views(a).push(flag@));
                let value = Argument::Given(i + 1);
                let ghost b = out@;
                out.push(value);
                assert(views(out@) == views(b).push(value@));
                taken = 2;
                proof {
                    let tail = normalized(all, i + 2, saw_lnk, saw_create);
                    assert(before + (seq![flag@, value@] + tail) =~= views(out@) + tail);
                }
            } else {
                let given = Argument::Given(i);
                let ghost a = out@;
                out.push(given);
                proof {
                    assert(views(out@) == views(a).push(given@));
                    let tail = normalized(all, i + 1, saw_lnk, saw_create);
                    assert(before + (seq![given@] + tail) =~= views(out@) + tail);
                }
            }
        } else if saw_create && starts_with(t, assign.as_slice()) && !names_format(
            slice_subrange(t, 9, t.len()),
        ) {
            let value = string_of(slice_subrange(t, 9, t.len()));
            let flag = Argument::Text(concat("--shortcut-output=", value.as_str()));
            let ghost a = out@;
            out.push(flag);
            proof {
                assert(views(out@) == views(a).push(flag@));
                let tail = normalized(all, i + 1, saw_lnk, saw_create);
                assert(before + (seq![flag@] + tail) =~= views(out@) + tail);
            }
        } else {
            let given = Argument::Given(i);
            let ghost a = out@;
            out.push(given);
            proof {
                assert(views(out@) == views(a).push(given@));
                let tail = normalized(all, i + 1, saw_lnk, saw_create);
                assert(before + (seq![given@] + tail) =~= views(out@) + tail);
            }
        }
        i += taken;
    }
    assert(views(out@) + Seq::<ArgumentView>::empty() =~= views(out@));
    out
}

/// Optional texts as views.
pub open spec fn opt_texts(s: Seq<Option<String>>) -> Seq<Option<Seq<char>>> {
    s.map_values(|t: Option<String>| opt_text(t))
}

/// One argument with its folder tokens resolved. What is no Unicode text, or
/// does not mention the shell, is taken as it was given.
pub open spec fn resolved_argument(
    text: Option<Seq<char>>,
    i: int,
    folders: FoldersView,
) -> Result<ArgumentView, Seq<char>> {
    match text {
        None => Ok(ArgumentView::Given(i)),
        Some(t) => if first_ignoring_case(t, "shell:"@) < 0 {
            Ok(ArgumentView::Given(i))
        } else {
            match resolved(t, folders) {
                Ok(u) => Ok(ArgumentView::Text(u)),
                Err(e) => Err(e),
            }
        },
    }
}

/// The arguments with their folder tokens resolved, or the first error.
pub open spec fn resolved_arguments(
    texts: Seq<Option<Seq<char>>>,
    done: Seq<ArgumentView>,
    i: int,
    folders: FoldersView,
) -> Result<Seq<ArgumentView>, Seq<char>>
    decreases texts.len() - i,
{
    if i >= texts.len() {
        Ok(done)
    } else {
        match resolved_argument(texts[i], i, folders) {
            Err(e) => Err(e),
            Ok(a) => resolved_arguments(texts, done.push(a), i + 1, folders),
        }
    }
}

/// Resolves the folder tokens of arguments; none for one that is no Unicode
/// text.
pub fn resolve_shell_cli_args(args: &Vec<Option<String>>, folders: &Folders) -> (r: Result<
    Vec<Argument>,
    String,
>)
    ensures
        match r {
            Ok(out) => resolved_arguments(opt_texts(args@), Seq::empty(), 0, folders@) == Ok::<
                Seq<ArgumentView>,
                Seq<char>,
            >(views(out@)),
            Err(e) => resolved_arguments(opt_texts(args@), Seq::empty(), 0, folders@) == Err::<
                Seq<ArgumentView>,
                Seq<char>,
            >(e@),
        },
{
    broadcast use views_push;

    let ghost all = opt_texts(args@);
    let mut out: Vec<Argument> = Vec::new();
    assert(views(out@) =~= Seq::<ArgumentView>::empty());
    for i in 0..args.len()
        invariant
            all == opt_texts(args@),
            resolved_arguments(all, Seq::empty(), 0, folders@) == resolved_arguments(
                all,
                views(out@),
                i as int,
                folders@,
            ),
    {
        assert(all[i as int] == opt_text(args@[i as int]));
        let next = match &args[i] {
            None => Argument::Given(i),
            Some(text) => if !mentions_shell(text.as_str()) {
                Argument::Given(i)
            } else {
                match resolve_text(text.as_str(), folders) {
                    Ok(u) => Argument::Text(u),
                    Err(e) => {
                        return Err(e);
                    },
                }
            },
        };
        let ghost before = out@;
        out.push(next);
        assert(views(out@) == views(before).push(next@));
    }
    Ok(out)
}

// ---------------------------------------------------------------------------
// Operation lines
// ---------------------------------------------------------------------------

/// The arguments so far with `cur` behind them, unless it is empty.
pub open spec fn closed_argument(out: Seq<Seq<char>>, cur: Seq<char>) -> Seq<Seq<char>> {
    if cur.len() == 0 {
        out
    } else {
        out.push(cur)
    }
}

/// Splits what is left of a line: quotes group, `\"` within quotes is a quote,
/// and white space outside of them separates.
pub open spec fn argv_from(
    out: Seq<Seq<char>>,
    cur: Seq<char>,
    in_quotes: bool,
    rest: Seq<char>,
) -> Seq<Seq<char>>
    decreases rest.len(),
{
    if rest.len() == 0 {
        closed_argument(out, cur)
    } else if rest[0] == '\\' && in_quotes && rest.len() > 1 && rest[1] == '"' {
        argv_from(out, cur.push('"'), in_quotes, rest.skip(2))
    } else if rest[0] == '"' {
        argv_from(out, cur, !in_quotes, rest.skip(1))
    } else if is_white(rest[0]) && !in_quotes {
        argv_from(closed_argument(out, cur), Seq::empty(), in_quotes, rest.skip(1))
    } else {
        argv_from(out, cur.push(rest[0]), in_quotes, rest.skip(1))
    }
}

/// Splits an operation line into arguments.
pub fn split_argv(s: &str) -> (out: Vec<String>)
    ensures
        views(out@) == argv_from(Seq::empty(), Seq::empty(), false, s@),
{
    broadcast use views_push;

    let chars = chars_of(s);
    let mut out: Vec<String> = Vec::new();
    let mut cur: Vec<char> = Vec::new();
    let mut in_quotes = false;
    let mut i: usize = 0;
    assert(views(out@) =~= Seq::<Seq<char>>::empty());
    assert(cur@ =~= Seq::<char>::empty());
    assert(s@.skip(0) =~= s@);
    while i < chars.len()
        invariant
            chars@ == s@,
            i <= chars@.len(),
            argv_from(Seq::empty(), Seq::empty(), false, s@) == argv_from(
                views(out@),
                cur@,
                in_quotes,
                s@.skip(i as int),
            ),
        decreases chars@.len() - i,
    {
        let ghost rest = s@.skip(i as int);
        let c = chars[i];
        assert(rest[0] == c);
        assert(rest.skip(1) =~= s@.skip(i + 1));
        if c == '\\' && in_quotes && i + 1 < chars.len() && chars[i + 1] == '"' {
            assert(rest[1] == '"');
            assert(rest.skip(2) =~= s@.skip(i + 2));
            cur.push('"');
            i += 2;
        } else if c == '"' {
            in_quotes = !in_quotes;
            i += 1;
        } else if c.is_whitespace() && !in_quotes {
            if cur.len() != 0 {
                let one = string_of(cur.as_slice());
                let ghost before = out@;
                out.push(one);
                assert(views(out@) == views(before).push(one@));
                cur = Vec::new();
            }
            assert(cur@ =~= Seq::<char>::empty());
            i += 1;
        } else {
            cur.push(c);
            i += 1;
        }
    }
    assert(s@.skip(i as int) =~= Seq::<char>::empty());
    if cur.len() != 0 {
        let one = string_of(cur.as_slice());
        let ghost before = out@;
        out.push(one);
        assert(views(out@) == views(before).push(one@));
    }
    out
}

proof fn quoted_run_is_kept(out: Seq<Seq<char>>, cur: Seq<char>, s: Seq<char>)
    requires
        !s.contains('"'),
        s.len() > 0 ==> s.last() != '\\',
    ensures
        argv_from(out, cur, true, s + seq!['"']) == closed_argument(out, cur + s),
    decreases s.len(),
{
    let text = s + seq!['"'];
    if s.len() == 0 {
        assert(text[0] == '"');
        assert(text.skip(1) =~= Seq::<char>::empty());
        assert(cur + s =~= cur);
        reveal_with_fuel(argv_from, 2);
    } else {
        let rest = s.skip(1);
        assert(s[0] != '"') by {
            assert(s.contains(s[0]));
        }
        assert(!rest.contains('"')) by {
            if rest.contains('"') {
                let k = choose|k: int| 0 <= k < rest.len() && rest[k] == '"';
                assert(s[k + 1] == '"');
            }
        }
        assert(rest.len() > 0 ==> rest.last() == s.last());
        assert(text[0] == s[0]);
        assert(text.skip(1) =~= rest + seq!['"']);
        if text.len() > 1 && s[0] == '\\' {
            assert(s.len() > 1);
            assert(text[1] == s[1]);
            assert(s.contains(s[1]));
        }
        quoted_run_is_kept(out, cur.push(s[0]), rest);
        assert(cur.push(s[0]) + rest =~= cur + s);
    }
}

/// A text in quotes is one argument, white space and all, where it has no quote
/// and does not end with a backslash.
pub proof fn quotes_group(s: Seq<char>)
    requires
        s.len() > 0,
        !s.contains('"'),
        s.last() != '\\',
    ensures
        argv_from(Seq::empty(), Seq::empty(), false, seq!['"'] + s + seq!['"']) == seq![s],
{
    let text = seq!['"'] + s + seq!['"'];
    assert(text[0] == '"');
    assert(text.skip(1) =~= s + seq!['"']);
    quoted_run_is_kept(Seq::empty(), Seq::empty(), s);
    assert(Seq::<char>::empty() + s =~= s);
    assert(Seq::<Seq<char>>::empty().push(s) =~= seq![s]);
}

/// The operations of a script among lines, in order: what is neither blank nor
/// a comment.
pub open spec fn script_operations(lines: Seq<Seq<char>>) -> Seq<Seq<char>>
    decreases lines.len(),
{
    if lines.len() == 0 {
        Seq::empty()
    } else {
        let before = script_operations(lines.drop_last());
        let t = trimmed(lines.last());
        if t.len() == 0 || begins_char(t, '#') || begins_char(t, ';') {
            before
        } else {
            before.push(t)
        }
    }
}

/// The operations of a script.
pub fn script_lines(text: &str) -> (out: Vec<String>)
    ensures
        views(out@) == script_operations(split_by(text@, '\n')),
{
    broadcast use views_push;

    let chars = chars_of(text);
    let lines = split(chars.as_slice(), '\n');
    let ghost all = split_by(text@, '\n');
    let mut out: Vec<String> = Vec::new();
    assert(views(out@) =~= Seq::<Seq<char>>::empty());
    assert(all.take(0) =~= Seq::<Seq<char>>::empty());
    for i in 0..lines.len()
        invariant
            all == views(lines@),
            views(out@) == script_operations(all.take(i as int)),
    {
        assert(all.take(i + 1).drop_last() =~= all.take(i as int));
        assert(all.take(i + 1).last() == lines@[i as int]@);
        let t = trim(lines[i].as_slice());
        if !(t.len() == 0 || starts_with_char(t, '#') || starts_with_char(t, ';')) {
            let one = string_of(t);
            let ghost before = out@;
            out.push(one);
            assert(views(out@) == views(before).push(one@));
        }
    }
    assert(all.take(all.len() as int) =~= all);
    out
}

// ---------------------------------------------------------------------------
// Inputs
// ---------------------------------------------------------------------------

/// How often standard input is named.
pub open spec fn stdin_count(paths: Seq<Seq<char>>) -> nat
    decreases paths.len(),
{
    if paths.len() == 0 {
        0
    } else {
        stdin_count(paths.drop_last()) + if paths.last() == "-"@ {
            1nat
        } else {
            0
        }
    }
}

/// Refuses a command that reads standard input more than once.
pub fn ensure_single_stdin(paths: &Vec<String>) -> (r: Result<(), ExitError>)
    ensures
        done_result(r) == (if stdin_count(views(paths@)) > 1 {
            Err::<(), ErrorView>(
                usage_error("standard input (`-`) can only be used once in a command"@),
            )
        } else {
            Ok(())
        }),
{
    let ghost all = views(paths@);
    let mut count: usize = 0;
    assert(all.take(0) =~= Seq::<Seq<char>>::empty());
    for i in 0..paths.len()
        invariant
            all == views(paths@),
            count <= i,
            count == stdin_count(all.take(i as int)),
    {
        assert(all.take(i + 1).drop_last() =~= all.take(i as int));
        assert(all.take(i + 1).last() == paths@[i as int]@);
        if same_str(paths[i].as_str(), "-") {
            count += 1;
        }
    }
    assert(all.take(all.len() as int) =~= all);
    if count > 1 {
        return Err(
            usage("standard input (`-`) can only be used once in a command".to_owned()),
        );
    }
    Ok(())
}

/// Bytes of a stream, which may not exceed a limit. One byte more than the
/// limit is enough to tell.
pub open spec fn bounded(bytes: Seq<u8>, max: u64, label: Seq<char>) -> Result<
    Seq<u8>,
    ErrorView,
> {
    if bytes.len() > max {
        Err(
            plain_error(
                "registry-data input exceeds the "@ + dec_of(max as nat) + "-byte size limit: "@
                    + label,
            ),
        )
    } else {
        Ok(bytes)
    }
}

/// Accepts the bytes of a stream up to a limit.
pub fn read_bounded(bytes: Vec<u8>, max_bytes: u64, label: &str) -> (r: Result<Vec<u8>, ExitError>)
    ensures
        match r {
            Ok(b) => bounded(bytes@, max_bytes, label@) == Ok::<Seq<u8>, ErrorView>(b@),
            Err(e) => bounded(bytes@, max_bytes, label@) == Err::<Seq<u8>, ErrorView>(e@),
        },
{
    if bytes.len() as u64 > max_bytes {
        let mut message = "registry-data input exceeds the ".to_owned();
        push_dec(&mut message, max_bytes);
        message.append("-byte size limit: ");
        message.append(label);
        return Err(failed(message));
    }
    Ok(bytes)
}

/// The largest input that is read, in bytes.
pub const MAX_REGISTRY_INPUT_BYTES: u64 = 67_108_864;

/// The name under which an input is reported.
pub open spec fn label_of_input(path: Seq<char>, pipe: Option<Seq<char>>) -> Seq<char> {
    if path == "-"@ {
        "<stdin>"@
    } else {
        match pipe {
            Some(label) => label,
            None => path,
        }
    }
}

/// The name under which an input is reported; `pipe` is that of a named pipe.
pub fn input_label(path: &str, pipe: Option<&str>) -> (r: String)
    ensures
        r@ == label_of_input(path@, crate::text::opt_str(pipe)),
{
    if same_str(path, "-") {
        "<stdin>".to_owned()
    } else {
        match pipe {
            Some(label) => label.to_owned(),
            None => path.to_owned(),
        }
    }
}

/// A language identifier: four hexadecimal digits.
pub open spec fn langid_of(language: Seq<char>) -> Result<nat, ErrorView> {
    if language.len() == 4 && forall|i: int|
        0 <= i < language.len() ==> is_hex_digit(#[trigger] language[i]) {
        Ok(unsigned(language, 16, 0xffff)->0)
    } else {
        Err(
            usage_error(
                "--inf-language "@ + debug_text(language)
                    + " is not a four-hex-digit Windows LANGID"@,
            ),
        )
    }
}

proof fn four_digits_fit(s: Seq<char>)
    requires
        s.len() == 4,
        forall|i: int| 0 <= i < s.len() ==> is_hex_digit(#[trigger] s[i]),
    ensures
        unsigned(s, 16, 0xffff) is Some,
{
    reveal_with_fuel(crate::number::digits_value, 5);
    assert(is_hex_digit(s[0]) && is_hex_digit(s[1]) && is_hex_digit(s[2]) && is_hex_digit(s[3]));
    assert(s.last() == s[3]);
    assert(s.drop_last().last() == s[2]);
    assert(s.drop_last().drop_last().last() == s[1]);
    assert(s.drop_last().drop_last().drop_last().last() == s[0]);
    assert(s.drop_last().drop_last().drop_last().drop_last().len() == 0);
}

/// Reads a language identifier.
pub fn read_langid(language: &str) -> (r: Result<u16, ExitError>)
    ensures
        match r {
            Ok(id) => langid_of(language@) == Ok::<nat, ErrorView>(id as nat),
            Err(e) => langid_of(language@) == Err::<nat, ErrorView>(e@),
        },
{
    let chars = chars_of(language);
    let mut good = chars.len() == 4;
    let mut i: usize = 0;
    while good && i < chars.len()
        invariant
            chars@ == language@,
            i <= chars@.len(),
            good ==> language@.len() == 4 && forall|j: int|
                0 <= j < i ==> is_hex_digit(#[trigger] language@[j]),
            !good ==> language@.len() != 4 || exists|j: int|
                0 <= j < language@.len() && !is_hex_digit(#[trigger] language@[j]),
        decreases chars@.len() - i,
    {
        let hex = match crate::number::read_digit(chars[i]) {
            Some(d) => d < 16,
            None => false,
        };
        if !hex {
            assert(!is_hex_digit(language@[i as int]));
            good = false;
        }
        i += 1;
    }
    if good {
        proof {
            four_digits_fit(language@);
        }
        if let Some(id) = read_unsigned(chars.as_slice(), 16, 0xffff) {
            return Ok(id as u16);
        }
    }
    Err(
        usage(
            concat3(
                "--inf-language ",
                to_debug(language).as_str(),
                " is not a four-hex-digit Windows LANGID",
            ),
        ),
    )
}

// ---------------------------------------------------------------------------
// Other computers
// ---------------------------------------------------------------------------

/// The name of a computer without the backslashes in front of it.
pub open spec fn bare_name(computer: Seq<char>) -> Seq<char> {
    stripped_start(trimmed(computer), '\\')
}

/// A text can name a computer.
pub open spec fn names_computer(bare: Seq<char>) -> bool {
    bare.len() != 0 && !bare.contains('\\') && !bare.contains('/') && forall|i: int|
        0 <= i < bare.len() ==> !is_control_char(#[trigger] bare[i]) && !is_white(bare[i])
}

/// What stands against reading a hive of another computer.
pub open spec fn remote_barred(computer: Seq<char>, hive: Hive) -> Result<(), ErrorView> {
    if !names_computer(bare_name(computer)) {
        Err(usage_error("--computer must name a Windows computer"@))
    } else if hive != Hive::Hklm && hive != Hive::Hku {
        Err(
            usage_error(
                "remote registry reads support only HKLM and HKU; "@ + long_name_of(hive)
                    + " is not accepted by RegConnectRegistryW"@,
            ),
        )
    } else {
        Ok(())
    }
}

fn is_computer(bare: &[char]) -> (b: bool)
    ensures
        b == names_computer(bare@),
{
    if bare.len() == 0 || contains_char(bare, '\\') || contains_char(bare, '/') {
        return false;
    }
    for i in 0..bare.len()
        invariant
            forall|j: int|
                0 <= j < i ==> !is_control_char(#[trigger] bare@[j]) && !is_white(bare@[j]),
    {
        if bare[i].is_control() || bare[i].is_whitespace() {
            assert(is_control_char(bare@[i as int]) || is_white(bare@[i as int]));
            return false;
        }
    }
    true
}

/// Whether a hive of another computer can be read.
pub fn check_remote(computer: &str, hive: Hive) -> (r: Result<(), ExitError>)
    ensures
        done_result(r) == remote_barred(computer@, hive),
{
    let chars = chars_of(computer);
    let bare = strip_start(trim(chars.as_slice()), '\\');
    if !is_computer(bare) {
        return Err(usage("--computer must name a Windows computer".to_owned()));
    }
    if hive != Hive::Hklm && hive != Hive::Hku {
        return Err(
            usage(
                concat3(
                    "remote registry reads support only HKLM and HKU; ",
                    hive.long_name(),
                    " is not accepted by RegConnectRegistryW",
                ),
            ),
        );
    }
    Ok(())
}

// ---------------------------------------------------------------------------
// Confirmation and the audit log
// ---------------------------------------------------------------------------

/// Whether a change has to be confirmed.
#[derive(Clone, Copy, Debug, PartialEq, Eq, Structural)]
pub enum Confirmation {
    Proceed,
    Ask,
    /// Ask, and say that `-y` does not apply.
    AskDespiteYes,
}

/// Whether a change has to be confirmed: never in a dry run, and always where
/// the policy says so.
pub open spec fn confirmation_of(dry_run: bool, yes: bool, required: bool) -> Confirmation {
    if dry_run {
        Confirmation::Proceed
    } else if !yes {
        Confirmation::Ask
    } else if required {
        Confirmation::AskDespiteYes
    } else {
        Confirmation::Proceed
    }
}

/// Whether a change has to be confirmed.
pub fn confirmation(dry_run: bool, yes: bool, require_confirm: bool) -> (r: Confirmation)
    ensures
        r == confirmation_of(dry_run, yes, require_confirm),
{
    if dry_run {
        Confirmation::Proceed
    } else if !yes {
        Confirmation::Ask
    } else if require_confirm {
        Confirmation::AskDespiteYes
    } else {
        Confirmation::Proceed
    }
}

/// Where the policy requires confirmation, a change for real is never made
/// without asking.
pub proof fn required_confirmation_is_asked(yes: bool)
    ensures
        confirmation_of(false, yes, true) != Confirmation::Proceed,
{
}

/// Whether an answer confirms.
pub fn confirms(line: &str) -> (b: bool)
    ensures
        b == ({
            let t = trimmed(line@);
            t == "y"@ || t == "Y"@ || t == "yes"@ || t == "YES"@
        }),
{
    let chars = chars_of(line);
    let t = trim(chars.as_slice());
    is_text(t, "y") || is_text(t, "Y") || is_text(t, "yes") || is_text(t, "YES")
}

/// A stream cannot be confirmed interactively: it is in the way of a change for
/// real that would have to be confirmed.
pub fn stream_blocks(stream: bool, dry_run: bool, yes: bool, require_confirm: bool) -> (b: bool)
    ensures
        b == (stream && confirmation_of(dry_run, yes, require_confirm) != Confirmation::Proceed),
{
    stream && !dry_run && (!yes || require_confirm)
}

/// The audit logs that are written: the one that the policy requires, and the
/// one that was asked for.
pub open spec fn audit_logs_of(required: Option<Seq<char>>, asked: Option<Seq<char>>) -> Seq<
    Seq<char>,
> {
    (match required {
        Some(p) => seq![p],
        None => Seq::empty(),
    }) + (match asked {
        Some(p) => seq![p],
        None => Seq::empty(),
    })
}

/// The audit logs that are written.
pub fn audit_logs(required: &Option<String>, asked: &Option<String>) -> (out: Vec<String>)
    ensures
        views(out@) == audit_logs_of(opt_text(*required), opt_text(*asked)),
{
    broadcast use views_push;

    let mut out: Vec<String> = Vec::new();
    if let Some(p) = required {
        out.push(p.clone());
    }
    if let Some(p) = asked {
        out.push(p.clone());
    }
    assert(views(out@) =~= audit_logs_of(opt_text(*required), opt_text(*asked)));
    out
}

/// A log that the policy requires is always written.
pub proof fn required_logs_are_written(required: Seq<char>, asked: Option<Seq<char>>)
    ensures
        audit_logs_of(Some(required), asked)[0] == required,
        audit_logs_of(Some(required), asked).len() > 0,
{
}

/// Whether logged values are redacted: the policy can turn it on, and nothing
/// can turn it off.
pub fn audit_redacts(asked: bool, required: bool) -> (b: bool)
    ensures
        b == (asked || required),
{
    asked || required
}

} // verus!
