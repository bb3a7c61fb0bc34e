//! How folder tokens, link options and links fit together.
use vstd::prelude::*;

use crate::number::{dec_of, dec_of_int, digit_char, digit_value, digits_value, signed};
use crate::shell::{first_ignoring_case, replaced, resolved, FoldersView, KnownFolder};
use crate::shortcut::{
    creation_barred, holds, icon_of, inspect_outcome, link_of, link_outcome, resolved_options,
    show_command, steps_of, style_shown, validity, LinkFacts, LinkFields, LinkView, OptionsFacts,
    OptionsView, ShowStyle, StepView,
};
use crate::text::{is_white, last_of, last_of_is_last, lowered};
use crate::text_laws::{lacks, trim_free, trimming_leaves_the_text};

verus! {

// ---------------------------------------------------------------------------
// Numbers
// ---------------------------------------------------------------------------

/// Every character is a decimal digit.
pub open spec fn digits_only(s: Seq<char>) -> bool {
    forall|i: int| 0 <= i < s.len() ==> '0' <= #[trigger] s[i] && s[i] <= '9'
}

proof fn decimal_digits(n: nat)
    ensures
        digits_only(dec_of(n)),
        dec_of(n).len() > 0,
    decreases n,
{
    let d = digit_char(n % 10);
    vstd::utf8::char_u32_cast(d, (48 + n % 10) as u32);
    assert('0' <= d && d <= '9');
    if n >= 10 {
        decimal_digits(n / 10);
        let s = dec_of(n / 10);
        assert forall|i: int| 0 <= i < dec_of(n).len() implies '0' <= #[trigger] dec_of(n)[i]
            && dec_of(n)[i] <= '9' by {
            if i < s.len() {
                assert(dec_of(n)[i] == s[i]);
            }
        }
    }
}

/// A number written in decimal is read back.
pub proof fn decimals_read_back(n: nat)
    ensures
        digits_value(dec_of(n), 10) == Some(n),
    decreases n,
{
    let d = digit_char(n % 10);
    vstd::utf8::char_u32_cast(d, (48 + n % 10) as u32);
    assert(digit_value(d) == Some(n % 10));
    let s = dec_of(n);
    assert(s.last() == d);
    if n >= 10 {
        decimals_read_back(n / 10);
        assert(s.drop_last() =~= dec_of(n / 10));
        assert(n == (n / 10) * 10 + n % 10);
    } else {
        assert(s.drop_last() =~= Seq::<char>::empty());
        assert(digits_value(Seq::<char>::empty(), 10) == Some(0nat));
    }
}

/// A number of 32 bits, with a minus sign where it is negative, is read back.
pub proof fn signed_numbers_read_back(n: i32)
    ensures
        signed(dec_of_int(n as int)) == Some(n as int),
{
    if n < 0 {
        let m = (-(n as int)) as nat;
        decimal_digits(m);
        decimals_read_back(m);
        assert(dec_of_int(n as int)[0] == '-');
        assert(dec_of_int(n as int).skip(1) =~= dec_of(m));
    } else {
        decimal_digits(n as nat);
        decimals_read_back(n as nat);
        assert('0' <= dec_of(n as nat)[0]);
    }
}

// ---------------------------------------------------------------------------
// Folder tokens
// ---------------------------------------------------------------------------

/// `needle` stands at `at`, ignoring ASCII case.
pub open spec fn stands_at(s: Seq<char>, needle: Seq<char>, at: int) -> bool {
    0 <= at && at + needle.len() <= s.len() && lowered(s.subrange(at, at + needle.len()))
        == lowered(needle)
}

proof fn first_where(s: Seq<char>, needle: Seq<char>, at: int)
    requires
        needle.len() > 0,
        stands_at(s, needle, at),
        forall|i: int| 0 <= i < at ==> !stands_at(s, needle, i),
    ensures
        first_ignoring_case(s, needle) == at,
    decreases s.len(),
{
    if at == 0 {
        assert(s.take(needle.len() as int) =~= s.subrange(0, needle.len() as int));
    } else {
        assert(!stands_at(s, needle, 0));
        assert(s.take(needle.len() as int) =~= s.subrange(0, needle.len() as int));
        let t = s.skip(1);
        assert(t.subrange(at - 1, at - 1 + needle.len()) =~= s.subrange(at, at + needle.len()));
        assert forall|i: int| 0 <= i < at - 1 implies !stands_at(t, needle, i) by {
            assert(!stands_at(s, needle, i + 1));
            assert(t.subrange(i, i + needle.len()) =~= s.subrange(i + 1, i + 1 + needle.len()));
        }
        first_where(t, needle, at - 1);
    }
}

proof fn nowhere(s: Seq<char>, needle: Seq<char>)
    requires
        forall|i: int| 0 <= i < s.len() ==> !stands_at(s, needle, i),
    ensures
        first_ignoring_case(s, needle) == -1,
    decreases s.len(),
{
    if needle.len() != 0 && s.len() >= needle.len() {
        assert(!stands_at(s, needle, 0));
        assert(s.take(needle.len() as int) =~= s.subrange(0, needle.len() as int));
        let t = s.skip(1);
        assert forall|i: int| 0 <= i < t.len() implies !stands_at(t, needle, i) by {
            assert(!stands_at(s, needle, i + 1));
            if i + needle.len() <= t.len() {
                assert(t.subrange(i, i + needle.len()) =~= s.subrange(
                    i + 1,
                    i + 1 + needle.len(),
                ));
            }
        }
        nowhere(t, needle);
    }
}

proof fn found_means_standing(s: Seq<char>, needle: Seq<char>)
    ensures
        first_ignoring_case(s, needle) < 0 && needle.len() > 0 ==> forall|i: int|
            !stands_at(s, needle, i),
        first_ignoring_case(s, needle) >= 0 ==> stands_at(
            s,
            needle,
            first_ignoring_case(s, needle),
        ),
    decreases s.len(),
{
    if needle.len() != 0 && s.len() >= needle.len() {
        assert(s.take(needle.len() as int) =~= s.subrange(0, needle.len() as int));
        let t = s.skip(1);
        found_means_standing(t, needle);
        let r = first_ignoring_case(t, needle);
        if lowered(s.take(needle.len() as int)) != lowered(needle) {
            if r < 0 {
                assert forall|i: int| !stands_at(s, needle, i) by {
                    if i > 0 && i + needle.len() <= s.len() {
                        assert(!stands_at(t, needle, i - 1));
                        assert(t.subrange(i - 1, i - 1 + needle.len()) =~= s.subrange(
                            i,
                            i + needle.len(),
                        ));
                    }
                }
            } else {
                assert(t.subrange(r, r + needle.len()) =~= s.subrange(
                    r + 1,
                    r + 1 + needle.len(),
                ));
            }
        }
    }
}

/// `token` is the name of a folder in the shell, in any case.
pub open spec fn names_folder(token: Seq<char>, folder: KnownFolder) -> bool {
    match folder {
        KnownFolder::Startup => lowered(token) == lowered("shell:Startup"@),
        KnownFolder::Desktop => lowered(token) == lowered("shell:Desktop"@),
        KnownFolder::Programs => lowered(token) == lowered("shell:Programs"@),
    }
}

/// What the system reports of one folder.
pub open spec fn reported(folders: FoldersView, folder: KnownFolder) -> Result<
    Seq<char>,
    Seq<char>,
> {
    match folder {
        KnownFolder::Startup => folders.startup,
        KnownFolder::Desktop => folders.desktop,
        KnownFolder::Programs => folders.programs,
    }
}

/// A text mentions the shell at one place and nowhere else.
pub open spec fn only_at(s: Seq<char>, at: int) -> bool {
    &&& stands_at(s, "shell:"@, at)
    &&& forall|i: int| i != at ==> !stands_at(s, "shell:"@, i)
}

proof fn longer_needles(s: Seq<char>, long: Seq<char>, at: int)
    requires
        long.len() >= 6,
        lowered(long.take(6)) == lowered("shell:"@),
        stands_at(s, long, at),
    ensures
        stands_at(s, "shell:"@, at),
{
    reveal_strlit("shell:");
    let part = s.subrange(at, at + long.len());
    let head = s.subrange(at, at + 6);
    assert forall|i: int| 0 <= i < 6 implies lowered(head)[i] == lowered("shell:"@)[i] by {
        assert(lowered(part)[i] == lowered(long)[i]);
        assert(lowered(long.take(6))[i] == lowered("shell:"@)[i]);
    }
    assert(lowered(head) =~= lowered("shell:"@));
}

proof fn token_words()
    ensures
        "shell:"@.len() == 6,
        "shell:Startup"@.len() == 13,
        "shell:Desktop"@.len() == 13,
        "shell:Programs"@.len() == 14,
        lowered("shell:Startup"@.take(6)) == lowered("shell:"@),
        lowered("shell:Desktop"@.take(6)) == lowered("shell:"@),
        lowered("shell:Programs"@.take(6)) == lowered("shell:"@),
        lowered("shell:Startup"@)[6] == 's',
        lowered("shell:Desktop"@)[6] == 'd',
        lowered("shell:Programs"@)[6] == 'p',
{
    reveal_strlit("shell:");
    reveal_strlit("shell:Startup");
    reveal_strlit("shell:Desktop");
    reveal_strlit("shell:Programs");
    assert("shell:Startup"@.take(6) =~= "shell:"@);
    assert("shell:Desktop"@.take(6) =~= "shell:"@);
    assert("shell:Programs"@.take(6) =~= "shell:"@);
}

/// Another folder's token does not occur where the one mention of the shell is
/// a token that differs from it behind the colon.
proof fn other_tokens(s: Seq<char>, long: Seq<char>, token: Seq<char>, at: int)
    requires
        only_at(s, at),
        long.len() > 6,
        token.len() > 6,
        lowered(long.take(6)) == lowered("shell:"@),
        at + token.len() <= s.len(),
        s.subrange(at, at + token.len()) == token,
        lowered(token)[6] != lowered(long)[6],
    ensures
        first_ignoring_case(s, long) == -1,
{
    assert forall|i: int| 0 <= i < s.len() implies !stands_at(s, long, i) by {
        if stands_at(s, long, i) {
            longer_needles(s, long, i);
            assert(i == at);
            assert(lowered(s.subrange(at, at + long.len()))[6] == lowered(long)[6]);
            assert(s.subrange(at, at + long.len())[6] == token[6]);
        }
    }
    nowhere(s, long);
}

proof fn replaced_once(
    before: Seq<char>,
    token: Seq<char>,
    after: Seq<char>,
    long: Seq<char>,
    path: Seq<char>,
)
    requires
        long.len() > 6,
        lowered(long.take(6)) == lowered("shell:"@),
        lowered(token) == lowered(long),
        only_at(before + token + after, before.len() as int),
    ensures
        first_ignoring_case(before + token + after, long) == before.len(),
        replaced(before + token + after, long, path) == before + path + after,
{
    token_words();
    let s = before + token + after;
    let at = before.len() as int;
    assert(lowered(token).len() == token.len());
    assert(lowered(long).len() == long.len());
    assert(s.subrange(at, at + long.len()) =~= token);
    assert forall|i: int| 0 <= i < at implies !stands_at(s, long, i) by {
        if stands_at(s, long, i) {
            longer_needles(s, long, i);
        }
    }
    first_where(s, long, at);
    assert(s.take(at) =~= before);
    assert(s.skip(at + long.len()) =~= after);
    assert forall|i: int| 0 <= i < after.len() implies !stands_at(after, long, i) by {
        if stands_at(after, long, i) {
            let j = at + long.len() + i;
            assert(s.subrange(j, j + long.len()) =~= after.subrange(i, i + long.len()));
            assert(stands_at(s, long, j));
            longer_needles(s, long, j);
        }
    }
    nowhere(after, long);
    assert(replaced(after, long, path) == after);
    assert(before + path + after =~= s.take(at) + path + after);
}

proof fn untouched(s: Seq<char>, long: Seq<char>)
    requires
        first_ignoring_case(s, "shell:"@) < 0,
        long.len() > 6,
        lowered(long.take(6)) == lowered("shell:"@),
    ensures
        first_ignoring_case(s, long) == -1,
{
    token_words();
    found_means_standing(s, "shell:"@);
    assert forall|i: int| 0 <= i < s.len() implies !stands_at(s, long, i) by {
        if stands_at(s, long, i) {
            longer_needles(s, long, i);
        }
    }
    nowhere(s, long);
}

/// A folder's token gives way to the path that the system reports of that
/// folder, and nothing around it changes; the system's complaint is the answer
/// where it reports none.
pub proof fn folders_replace_their_tokens(
    before: Seq<char>,
    token: Seq<char>,
    after: Seq<char>,
    folder: KnownFolder,
    folders: FoldersView,
)
    requires
        names_folder(token, folder),
        only_at(before + token + after, before.len() as int),
    ensures
        match reported(folders, folder) {
            Ok(path) => first_ignoring_case(before + path + after, "shell:"@) < 0 ==> resolved(
                before + token + after,
                folders,
            ) == Ok::<Seq<char>, Seq<char>>(before + path + after),
            Err(e) => resolved(before + token + after, folders) == Err::<Seq<char>, Seq<char>>(e),
        },
{
    token_words();
    let s = before + token + after;
    let at = before.len() as int;
    let startup = "shell:Startup"@;
    let desktop = "shell:Desktop"@;
    let programs = "shell:Programs"@;
    let long = match folder {
        KnownFolder::Startup => startup,
        KnownFolder::Desktop => desktop,
        KnownFolder::Programs => programs,
    };
    assert(lowered(token).len() == token.len());
    assert(lowered(long).len() == long.len());
    assert(s.subrange(at, at + token.len()) =~= token);
    let path = match reported(folders, folder) {
        Ok(p) => p,
        Err(_) => Seq::empty(),
    };
    replaced_once(before, token, after, long, path);
    match folder {
        KnownFolder::Startup => {},
        KnownFolder::Desktop => {
            other_tokens(s, startup, token, at);
        },
        KnownFolder::Programs => {
            other_tokens(s, startup, token, at);
            other_tokens(s, desktop, token, at);
        },
    }
    if first_ignoring_case(before + path + after, "shell:"@) < 0 {
        untouched(before + path + after, desktop);
        untouched(before + path + after, programs);
    }
}

// ---------------------------------------------------------------------------
// Options
// ---------------------------------------------------------------------------

/// An icon's path and index, written with a comma between them, are read back.
pub proof fn icons_read_back(path: Seq<char>, index: i32)
    requires
        path.len() > 0,
        trim_free(path),
    ensures
        icon_of(path + seq![','] + dec_of_int(index as int)) == Ok::<(Seq<char>, int), Seq<char>>(
            (path, index as int),
        ),
{
    let number = dec_of_int(index as int);
    let s = path + seq![','] + number;
    let m = if index < 0 {
        (-(index as int)) as nat
    } else {
        index as nat
    };
    decimal_digits(m);
    signed_numbers_read_back(index);
    assert forall|i: int| 0 <= i < number.len() implies number[i] != ',' && !is_white(
        #[trigger] number[i],
    ) by {
        if index < 0 {
            assert(number[i] == if i == 0 {
                '-'
            } else {
                dec_of(m)[i - 1]
            });
        } else {
            assert(number[i] == dec_of(m)[i]);
        }
    }
    assert(number.len() > 0);
    assert(s[0] == path[0]);
    assert(s.last() == number.last());
    let none = Seq::<char>::empty();
    trimming_leaves_the_text(none, s, none);
    assert(none + s + none =~= s);
    trimming_leaves_the_text(none, path, none);
    assert(none + path + none =~= path);
    trimming_leaves_the_text(none, number, none);
    assert(none + number + none =~= number);
    last_of_is_last(s, ',');
    let i = last_of(s, ',');
    assert(s[path.len() as int] == ',');
    assert(i == path.len()) by {
        if i > path.len() {
            assert(s[i] == number[i - path.len() - 1]);
        }
    }
    assert(s.skip(i + 1) =~= number);
    assert(s.take(i) =~= path);
}

/// An icon's path without a comma has the first icon.
pub proof fn plain_icons_are_the_first(path: Seq<char>)
    requires
        path.len() > 0,
        trim_free(path),
        lacks(path, ','),
    ensures
        icon_of(path) == Ok::<(Seq<char>, int), Seq<char>>((path, 0)),
{
    let none = Seq::<char>::empty();
    trimming_leaves_the_text(none, path, none);
    assert(none + path + none =~= path);
    last_of_is_last(path, ',');
}

/// Every path of the options has its own tokens replaced, the arguments too;
/// the description, the icon's index and the window's style stay. That works
/// where each of the texts can be resolved, and fails otherwise.
pub proof fn options_are_resolved_one_by_one(o: OptionsView, folders: FoldersView)
    ensures
        resolved_options(o, folders) matches Ok(r) ==> {
            &&& resolved(o.target, folders) == Ok::<Seq<char>, Seq<char>>(r.target)
            &&& resolved(o.output, folders) == Ok::<Seq<char>, Seq<char>>(r.output)
            &&& r.working_directory is Some <==> o.working_directory is Some
            &&& o.working_directory matches Some(s) ==> resolved(s, folders) == Ok::<
                Seq<char>,
                Seq<char>,
            >(r.working_directory->0)
            &&& r.arguments is Some <==> o.arguments is Some
            &&& o.arguments matches Some(s) ==> resolved(s, folders) == Ok::<Seq<char>, Seq<char>>(
                r.arguments->0,
            )
            &&& r.icon_path is Some <==> o.icon_path is Some
            &&& o.icon_path matches Some(s) ==> resolved(s, folders) == Ok::<Seq<char>, Seq<char>>(
                r.icon_path->0,
            )
            &&& r.description == o.description
            &&& r.icon_index == o.icon_index
            &&& r.style == o.style
        },
        resolved_options(o, folders) is Err <==> {
            ||| resolved(o.target, folders) is Err
            ||| resolved(o.output, folders) is Err
            ||| o.working_directory is Some && resolved(o.working_directory->0, folders) is Err
            ||| o.arguments is Some && resolved(o.arguments->0, folders) is Err
            ||| o.icon_path is Some && resolved(o.icon_path->0, folders) is Err
        },
        resolved(o.target, folders) matches Err(e) ==> resolved_options(o, folders) == Err::<
            OptionsView,
            Seq<char>,
        >(e),
{
}

/// Options are sound where the target is a file, the output a link in a
/// directory that exists, what else they name is there, and no text that goes
/// into the link has a NUL.
pub proof fn sound_options_pass(o: OptionsView, facts: OptionsFacts)
    ensures
        validity(o, facts) is Ok <==> {
            &&& facts.target_absolute
            &&& facts.target_file == Ok::<bool, String>(true)
            &&& facts.output_absolute
            &&& facts.output_extension is Some
            &&& lowered((facts.output_extension->0)@) == lowered("lnk"@)
            &&& facts.output_parent is Some
            &&& (facts.output_parent->0).1
            &&& o.working_directory is Some ==> facts.workdir_usable
            &&& o.icon_path is Some ==> facts.icon_usable
            &&& o.arguments matches Some(s) ==> !s.contains('\0')
            &&& o.description matches Some(s) ==> !s.contains('\0')
        },
{
}

/// A link is created where its options are sound and nothing is in the way,
/// or what is there may be replaced.
pub proof fn nothing_is_replaced_unasked(
    o: OptionsView,
    facts: OptionsFacts,
    exists_already: bool,
    overwrite: bool,
)
    ensures
        creation_barred(o, facts, exists_already, overwrite) is Ok <==> validity(o, facts) is Ok
            && (exists_already ==> overwrite),
        exists_already && !overwrite && validity(o, facts) is Ok ==> creation_barred(
            o,
            facts,
            exists_already,
            overwrite,
        ) == Err::<(), Seq<char>>("shortcut already exists (use -y to replace it): "@ + o.output),
{
}

// ---------------------------------------------------------------------------
// Links
// ---------------------------------------------------------------------------

/// Only a normal window is shown as such; a hidden one is minimised.
pub proof fn styles_are_shown(style: ShowStyle)
    ensures
        style == ShowStyle::Normal <==> show_command(style) == show_command(ShowStyle::Normal),
        style == ShowStyle::Normal ==> style_shown(show_command(style)) == ShowStyle::Normal,
        style != ShowStyle::Normal ==> style_shown(show_command(style)) == ShowStyle::Minimized,
{
}

proof fn step_among(a: Seq<StepView>, b: Seq<StepView>, x: StepView)
    ensures
        (a + b).contains(x) <==> a.contains(x) || b.contains(x),
{
    if a.contains(x) {
        let i = choose|i: int| 0 <= i < a.len() && a[i] == x;
        assert((a + b)[i] == x);
    }
    if b.contains(x) {
        let i = choose|i: int| 0 <= i < b.len() && b[i] == x;
        assert((a + b)[a.len() + i] == x);
    }
}

proof fn only_step(a: StepView, x: StepView)
    ensures
        seq![a].contains(x) <==> a == x,
{
    assert(seq![a][0] == a);
}

proof fn step_of_options(o: OptionsView, x: StepView)
    ensures
        steps_of(o).contains(x) <==> {
            ||| x == StepView::Target(o.target)
            ||| o.arguments is Some && x == StepView::Arguments(o.arguments->0)
            ||| o.working_directory is Some && x == StepView::WorkingDirectory(
                o.working_directory->0,
            )
            ||| o.description is Some && x == StepView::Description(o.description->0)
            ||| o.icon_path is Some && x == StepView::Icon(o.icon_path->0, o.icon_index)
            ||| x == StepView::Show(show_command(o.style))
        },
{
    let none = Seq::<StepView>::empty();
    let a = seq![StepView::Target(o.target)];
    let b = match o.arguments {
        Some(s) => seq![StepView::Arguments(s)],
        None => none,
    };
    let c = match o.working_directory {
        Some(s) => seq![StepView::WorkingDirectory(s)],
        None => none,
    };
    let d = match o.description {
        Some(s) => seq![StepView::Description(s)],
        None => none,
    };
    let e = match o.icon_path {
        Some(s) => seq![StepView::Icon(s, o.icon_index)],
        None => none,
    };
    let f = seq![StepView::Show(show_command(o.style))];
    step_among(a + b + c + d + e, f, x);
    step_among(a + b + c + d, e, x);
    step_among(a + b + c, d, x);
    step_among(a + b, c, x);
    step_among(a, b, x);
    only_step(StepView::Target(o.target), x);
    only_step(StepView::Show(show_command(o.style)), x);
    if o.arguments is Some {
        only_step(StepView::Arguments(o.arguments->0), x);
    }
    if o.working_directory is Some {
        only_step(StepView::WorkingDirectory(o.working_directory->0), x);
    }
    if o.description is Some {
        only_step(StepView::Description(o.description->0), x);
    }
    if o.icon_path is Some {
        only_step(StepView::Icon(o.icon_path->0, o.icon_index), x);
    }
}

/// A property is set where the options have it, to what they have, and is left
/// alone otherwise.
pub proof fn links_are_given_what_was_asked(o: OptionsView, s: Seq<char>, n: i32)
    ensures
        steps_of(o).contains(StepView::Target(s)) <==> s == o.target,
        steps_of(o).contains(StepView::Arguments(s)) <==> o.arguments == Some(s),
        steps_of(o).contains(StepView::WorkingDirectory(s)) <==> o.working_directory == Some(s),
        steps_of(o).contains(StepView::Description(s)) <==> o.description == Some(s),
        steps_of(o).contains(StepView::Icon(s, n)) <==> o.icon_path == Some(s) && n
            == o.icon_index,
        steps_of(o).contains(StepView::Show(n)) <==> n == (if o.style == ShowStyle::Normal {
            1i32
        } else {
            7i32
        }),
{
    step_of_options(o, StepView::Target(s));
    step_of_options(o, StepView::Arguments(s));
    step_of_options(o, StepView::WorkingDirectory(s));
    step_of_options(o, StepView::Description(s));
    step_of_options(o, StepView::Icon(s, n));
    step_of_options(o, StepView::Show(n));
}

/// A link that passes the verification of its options has their target and
/// directories up to case, and their texts, icon and window to the letter.
pub proof fn verified_links_hold_what_was_asked(o: OptionsView, l: LinkView)
    ensures
        holds(o, l) <==> {
            &&& lowered(l.target) == lowered(o.target)
            &&& (o.arguments == Some(l.arguments) || o.arguments is None && l.arguments.len() == 0)
            &&& (o.description == Some(l.description) || o.description is None
                && l.description.len() == 0)
            &&& o.working_directory is Some <==> l.working_directory is Some
            &&& o.working_directory is Some ==> lowered(l.working_directory->0) == lowered(
                o.working_directory->0,
            )
            &&& o.icon_path is Some <==> l.icon_path is Some
            &&& o.icon_path is Some ==> lowered(l.icon_path->0) == lowered(o.icon_path->0)
            &&& l.icon_index == o.icon_index
            &&& l.style == ShowStyle::Normal <==> o.style == ShowStyle::Normal
        },
{
    assert(l.arguments.len() == 0 ==> l.arguments =~= Seq::empty());
    assert(l.description.len() == 0 ==> l.description =~= Seq::empty());
}

/// What is read of a link is what the system reports of it; a directory or an
/// icon without a name is none.
pub proof fn links_are_read_as_they_are(file: Seq<char>, f: LinkFields)
    ensures
        link_of(file, f).file == file,
        link_of(file, f).target == f.target@,
        link_of(file, f).arguments == f.arguments@,
        link_of(file, f).description == f.description@,
        link_of(file, f).icon_index == f.icon_index,
        link_of(file, f).working_directory == (if f.working_directory@.len() == 0 {
            None
        } else {
            Some(f.working_directory@)
        }),
        link_of(file, f).icon_path == (if f.icon_path@.len() == 0 {
            None
        } else {
            Some(f.icon_path@)
        }),
        link_of(file, f).style == ShowStyle::Minimized <==> f.show == 7,
        link_of(file, f).style == ShowStyle::Normal <==> f.show != 7,
{
}

/// A link is read where its path ends in `.lnk`, it is a regular file and the
/// system reads it.
pub proof fn only_links_are_read(path: Seq<char>, extension: Option<Seq<char>>, facts: LinkFacts)
    ensures
        inspect_outcome(path, extension, facts) is Ok <==> {
            &&& extension is Some
            &&& lowered(extension->0) == lowered("lnk"@)
            &&& facts.regular == Ok::<bool, String>(true)
            &&& facts.fields is Ok
        },
        inspect_outcome(path, extension, facts) matches Ok(l) ==> l == link_of(
            path,
            facts.fields->Ok_0,
        ) && link_outcome(path, facts) == Ok::<LinkView, Seq<char>>(l),
{
}

} // verus!
