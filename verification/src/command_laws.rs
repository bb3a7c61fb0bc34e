//! What holds of arguments, views and limits, whatever they are.
use vstd::prelude::*;

use crate::args::{
    argv_from, audit_logs_of, bounded, closed_argument, confirmation_of, langid_of, normalized,
    remote_barred, resolved_argument, resolved_arguments, script_operations, stdin_count,
    ArgumentView, Confirmation,
};
use crate::exit::ErrorView;
use crate::model::{Hive, RegData};
use crate::number::hex_of;
use crate::parser_laws::{digits_are_plain, fits, fixed_hex_reads_back, is_digit};
use crate::policy::{constrains, described, not_blank, policy_of, PolicyValues, PolicyView};
use crate::saved_plan::{RegistryView, Snapshot};
use crate::select::is_hex_digit;
use crate::shell::{first_ignoring_case, resolved, FoldersView};
use crate::text::{begins, is_white, lowered};
use crate::text_laws::{blank, trim_free, trimming_leaves_the_text};
use crate::views::{incomplete_of, undo_names, view_name, views_of, ViewChoice};

verus! {

// ---------------------------------------------------------------------------
// Operation lines
// ---------------------------------------------------------------------------

/// A text with a backslash before each quote.
pub open spec fn escaped(s: Seq<char>) -> Seq<char>
    decreases s.len(),
{
    if s.len() == 0 {
        Seq::empty()
    } else if s[0] == '"' {
        seq!['\\', '"'] + escaped(s.skip(1))
    } else {
        seq![s[0]] + escaped(s.skip(1))
    }
}

/// Arguments in quotes, each behind a space.
pub open spec fn quoted_line(args: Seq<Seq<char>>) -> Seq<char>
    decreases args.len(),
{
    if args.len() == 0 {
        Seq::empty()
    } else {
        seq![' ', '"'] + escaped(args[0]) + seq!['"'] + quoted_line(args.skip(1))
    }
}

proof fn quoted_run(out: Seq<Seq<char>>, cur: Seq<char>, s: Seq<char>, rest: Seq<char>)
    requires
        s.len() > 0 ==> s.last() != '\\',
    ensures
        argv_from(out, cur, true, escaped(s) + seq!['"'] + rest) == argv_from(
            out,
            cur + s,
            false,
            rest,
        ),
    decreases s.len(),
{
    let line = escaped(s) + seq!['"'] + rest;
    if s.len() == 0 {
        assert(line[0] == '"');
        assert(line.skip(1) =~= rest);
        assert(cur + s =~= cur);
    } else {
        let t = s.skip(1);
        let more = escaped(t) + seq!['"'] + rest;
        if t.len() > 0 {
            assert(t.last() == s.last());
        }
        quoted_run(out, cur.push(s[0]), t, rest);
        assert(cur.push(s[0]) + t =~= cur + s);
        if s[0] == '"' {
            assert(line[0] == '\\' && line[1] == '"');
            assert(line.skip(2) =~= more);
        } else {
            assert(line[0] == s[0]);
            assert(line.skip(1) =~= more);
            if s[0] == '\\' {
                assert(t.len() > 0);
                assert(line[1] == more[0]);
                assert(escaped(t)[0] == if t[0] == '"' {
                    '\\'
                } else {
                    t[0]
                });
                assert(more[0] == escaped(t)[0]);
            }
        }
    }
}

proof fn quoted_args(out: Seq<Seq<char>>, cur: Seq<char>, args: Seq<Seq<char>>)
    requires
        forall|i: int| 0 <= i < args.len() ==> (#[trigger] args[i]).len() > 0 && args[i].last()
            != '\\',
    ensures
        argv_from(out, cur, false, quoted_line(args)) == closed_argument(out, cur) + args,
    decreases args.len(),
{
    if args.len() == 0 {
        assert(closed_argument(out, cur) + args =~= closed_argument(out, cur));
    } else {
        let line = quoted_line(args);
        let rest = quoted_line(args.skip(1));
        let behind = seq!['"'] + (escaped(args[0]) + seq!['"'] + rest);
        assert(line[0] == ' ');
        assert(line.skip(1) =~= behind);
        let done = closed_argument(out, cur);
        assert(is_white(' '));
        assert(argv_from(out, cur, false, line) == argv_from(done, Seq::empty(), false, behind));
        assert(behind[0] == '"');
        assert(behind.skip(1) =~= escaped(args[0]) + seq!['"'] + rest);
        assert(argv_from(done, Seq::empty(), false, behind) == argv_from(
            done,
            Seq::empty(),
            true,
            escaped(args[0]) + seq!['"'] + rest,
        ));
        quoted_run(done, Seq::empty(), args[0], rest);
        assert(Seq::<char>::empty() + args[0] =~= args[0]);
        assert forall|i: int| 0 <= i < args.skip(1).len() implies (#[trigger] args.skip(1)[i]).len()
            > 0 && args.skip(1)[i].last() != '\\' by {
            assert(args.skip(1)[i] == args[i + 1]);
        }
        quoted_args(done, args[0], args.skip(1));
        assert(done.push(args[0]) + args.skip(1) =~= done + args);
    }
}

/// Arguments that are put in quotes, with their own quotes escaped, come back
/// from the line one by one. None may be empty or end with a backslash.
pub proof fn quoted_arguments_come_back(args: Seq<Seq<char>>)
    requires
        forall|i: int| 0 <= i < args.len() ==> (#[trigger] args[i]).len() > 0 && args[i].last()
            != '\\',
    ensures
        argv_from(Seq::empty(), Seq::empty(), false, quoted_line(args)) == args,
{
    quoted_args(Seq::empty(), Seq::empty(), args);
    assert(Seq::<Seq<char>>::empty() + args =~= args);
}

/// A line of a script is an operation, without the white space around it,
/// unless it is blank or a comment.
pub proof fn scripts_are_read_line_by_line(
    lines: Seq<Seq<char>>,
    before: Seq<char>,
    text: Seq<char>,
    behind: Seq<char>,
)
    requires
        blank(before),
        blank(behind),
        trim_free(text),
    ensures
        script_operations(lines.push(before + text + behind)) == (if text.len() == 0 || text[0]
            == '#' || text[0] == ';' {
            script_operations(lines)
        } else {
            script_operations(lines).push(text)
        }),
        script_operations(Seq::empty()) == Seq::<Seq<char>>::empty(),
{
    trimming_leaves_the_text(before, text, behind);
    assert(lines.push(before + text + behind).drop_last() =~= lines);
}

// ---------------------------------------------------------------------------
// Arguments
// ---------------------------------------------------------------------------

/// The arguments from `from` up to `to`, as they were given.
pub open spec fn as_given(from: int, to: int) -> Seq<ArgumentView> {
    Seq::new((to - from) as nat, |i: int| ArgumentView::Given(from + i))
}

proof fn given_behind(from: int, to: int, rest: Seq<ArgumentView>)
    requires
        from < to,
    ensures
        seq![ArgumentView::Given(from)] + (as_given(from + 1, to) + rest) == as_given(from, to)
            + rest,
{
    assert(seq![ArgumentView::Given(from)] + (as_given(from + 1, to) + rest) =~= as_given(from, to)
        + rest);
}

proof fn before_links(texts: Seq<Seq<char>>, i: int, to: int)
    requires
        0 <= i <= to <= texts.len(),
        forall|k: int| i <= k < to ==> lowered(#[trigger] texts[k]) != lowered("lnk"@),
    ensures
        normalized(texts, i, false, false) == as_given(i, to) + normalized(texts, to, false, false),
    decreases to - i,
{
    if i < to {
        before_links(texts, i + 1, to);
        given_behind(i, to, normalized(texts, to, false, false));
    } else {
        assert(as_given(i, to) + normalized(texts, to, false, false) =~= normalized(
            texts,
            to,
            false,
            false,
        ));
    }
}

proof fn before_creating(texts: Seq<Seq<char>>, i: int, to: int)
    requires
        0 <= i <= to <= texts.len(),
        forall|k: int| i <= k < to ==> lowered(#[trigger] texts[k]) != lowered("create"@),
    ensures
        normalized(texts, i, true, false) == as_given(i, to) + normalized(texts, to, true, false),
    decreases to - i,
{
    if i < to {
        before_creating(texts, i + 1, to);
        given_behind(i, to, normalized(texts, to, true, false));
    } else {
        assert(as_given(i, to) + normalized(texts, to, true, false) =~= normalized(
            texts,
            to,
            true,
            false,
        ));
    }
}

proof fn output_is_a_prefix(t: Seq<char>)
    ensures
        begins(t, "--output="@) ==> begins(t, "--output"@),
        t == "--output"@ ==> begins(t, "--output"@),
{
    reveal_strlit("--output=");
    reveal_strlit("--output");
    if begins(t, "--output="@) {
        assert(t.take(8) =~= t.take(9).take(8));
        assert("--output="@.take(8) =~= "--output"@);
    }
    if t == "--output"@ {
        assert(t.take(8) =~= t);
    }
}

proof fn before_output(texts: Seq<Seq<char>>, i: int, to: int)
    requires
        0 <= i <= to <= texts.len(),
        forall|k: int| i <= k < to ==> !begins(#[trigger] texts[k], "--output"@),
    ensures
        normalized(texts, i, true, true) == as_given(i, to) + normalized(texts, to, true, true),
    decreases to - i,
{
    if i < to {
        output_is_a_prefix(texts[i]);
        before_output(texts, i + 1, to);
        given_behind(i, to, normalized(texts, to, true, true));
    } else {
        assert(as_given(i, to) + normalized(texts, to, true, true) =~= normalized(
            texts,
            to,
            true,
            true,
        ));
    }
}

/// Without `lnk` among them, arguments stay as they were given.
pub proof fn other_commands_keep_their_arguments(texts: Seq<Seq<char>>)
    requires
        forall|k: int| 0 <= k < texts.len() ==> lowered(#[trigger] texts[k]) != lowered("lnk"@),
    ensures
        normalized(texts, 0, false, false) == Seq::new(
            texts.len(),
            |i: int| ArgumentView::Given(i),
        ),
{
    before_links(texts, 0, texts.len() as int);
    assert(as_given(0, texts.len() as int) + Seq::<ArgumentView>::empty() =~= Seq::new(
        texts.len(),
        |i: int| ArgumentView::Given(i),
    ));
}

/// In `lnk create` the value of `--output` is the shortcut's file, unless it is
/// one of the two formats; what stands before it stays as it was given.
pub proof fn shortcut_outputs_are_told_apart(texts: Seq<Seq<char>>, a: int, b: int, c: int)
    requires
        0 <= a < b < c,
        c + 2 == texts.len(),
        forall|k: int| 0 <= k < a ==> lowered(#[trigger] texts[k]) != lowered("lnk"@),
        texts[a] == "lnk"@,
        forall|k: int| a < k < b ==> lowered(#[trigger] texts[k]) != lowered("create"@),
        texts[b] == "create"@,
        forall|k: int| b < k < c ==> !begins(#[trigger] texts[k], "--output"@),
        texts[c] == "--output"@,
        !begins(texts[c + 1], "--output"@),
    ensures
        normalized(texts, 0, false, false) == Seq::new(
            c as nat,
            |i: int| ArgumentView::Given(i),
        ) + (if texts[c + 1] == "json"@ || texts[c + 1] == "text"@ {
            seq![ArgumentView::Given(c), ArgumentView::Given(c + 1)]
        } else {
            seq![ArgumentView::Text("--shortcut-output"@), ArgumentView::Given(c + 1)]
        }),
{
    reveal_strlit("lnk");
    reveal_strlit("create");
    reveal_strlit("--output");
    assert(lowered("lnk"@).len() == 3);
    assert(lowered("create"@).len() == 6);
    assert(!begins("lnk"@, "--output="@)) by {
        reveal_strlit("--output=");
    }
    assert(!begins("create"@, "--output="@)) by {
        reveal_strlit("--output=");
    }
    before_links(texts, 0, a);
    before_creating(texts, a + 1, b);
    before_output(texts, b + 1, c);
    let end = texts.len() as int;
    let none = Seq::<ArgumentView>::empty();
    assert(normalized(texts, end, true, true) == none);
    output_is_a_prefix(texts[c + 1]);
    assert(normalized(texts, c + 1, true, true) =~= seq![ArgumentView::Given(c + 1)] + none);
    let tail = normalized(texts, c, true, true);
    let last = if texts[c + 1] == "json"@ || texts[c + 1] == "text"@ {
        seq![ArgumentView::Given(c), ArgumentView::Given(c + 1)]
    } else {
        seq![ArgumentView::Text("--shortcut-output"@), ArgumentView::Given(c + 1)]
    };
    assert(tail =~= last);
    assert(normalized(texts, b, true, false) == seq![ArgumentView::Given(b)] + (as_given(b + 1, c)
        + tail));
    assert(normalized(texts, a, false, false) == seq![ArgumentView::Given(a)] + (as_given(a + 1, b)
        + normalized(texts, b, true, false)));
    assert(normalized(texts, 0, false, false) =~= Seq::new(
        c as nat,
        |i: int| ArgumentView::Given(i),
    ) + last);
}

proof fn resolved_from(
    texts: Seq<Option<Seq<char>>>,
    done: Seq<ArgumentView>,
    i: int,
    folders: FoldersView,
    k: int,
)
    requires
        0 <= i == done.len() <= texts.len(),
    ensures
        resolved_arguments(texts, done, i, folders) matches Ok(out) ==> out.len() == texts.len()
            && (0 <= k < i ==> out[k] == done[k]) && (i <= k < texts.len() ==> resolved_argument(
            texts[k],
            k,
            folders,
        ) == Ok::<ArgumentView, Seq<char>>(out[k])),
        resolved_arguments(texts, done, i, folders) is Err && (forall|j: int|
            i <= j < texts.len() ==> resolved_argument(#[trigger] texts[j], j, folders) is Ok)
            ==> false,
    decreases texts.len() - i,
{
    if i < texts.len() {
        match resolved_argument(texts[i], i, folders) {
            Err(e) => {},
            Ok(a) => {
                resolved_from(texts, done.push(a), i + 1, folders, k);
            },
        }
    }
}

/// Each argument is resolved by itself and keeps its place: one that mentions
/// the shell gives way to its resolved text, any other stays as it was given.
/// The whole is refused only where one of them cannot be resolved.
pub proof fn arguments_are_resolved_one_by_one(
    texts: Seq<Option<Seq<char>>>,
    folders: FoldersView,
    k: int,
)
    requires
        0 <= k < texts.len(),
    ensures
        resolved_arguments(texts, Seq::empty(), 0, folders) matches Ok(out) ==> {
            &&& out.len() == texts.len()
            &&& texts[k] is None || first_ignoring_case(texts[k]->0, "shell:"@) < 0 ==> out[k]
                == ArgumentView::Given(k)
            &&& texts[k] is Some && first_ignoring_case(texts[k]->0, "shell:"@) >= 0 ==> out[k]
                == ArgumentView::Text(resolved(texts[k]->0, folders)->Ok_0) && resolved(
                texts[k]->0,
                folders,
            ) is Ok
        },
        resolved_arguments(texts, Seq::empty(), 0, folders) is Err ==> exists|j: int|
            0 <= j < texts.len() && (#[trigger] texts[j]) is Some && resolved(
                texts[j]->0,
                folders,
            ) is Err,
{
    resolved_from(texts, Seq::empty(), 0, folders, k);
    if resolved_arguments(texts, Seq::empty(), 0, folders) is Err {
        let j = choose|j: int|
            0 <= j < texts.len() && resolved_argument(#[trigger] texts[j], j, folders) is Err;
        assert(texts[j] is Some);
    }
}

/// Standard input is counted wherever it is named.
pub proof fn every_mention_of_standard_input_counts(paths: Seq<Seq<char>>)
    ensures
        stdin_count(paths) == paths.filter(|p: Seq<char>| p == "-"@).len(),
    decreases paths.len(),
{
    reveal(Seq::filter);
    if paths.len() > 0 {
        every_mention_of_standard_input_counts(paths.drop_last());
    }
}

/// An input of up to the limit is taken as it is; one byte more is refused.
pub proof fn inputs_are_taken_up_to_the_limit(bytes: Seq<u8>, max: u64, label: Seq<char>)
    ensures
        bounded(bytes, max, label) is Ok <==> bytes.len() <= max,
        bounded(bytes, max, label) matches Ok(b) ==> b == bytes,
{
}

/// A language written as four hexadecimal digits is read back.
pub proof fn languages_read_back(id: u16)
    ensures
        langid_of(hex_of(id as nat, 4)) == Ok::<nat, ErrorView>(id as nat),
{
    reveal_with_fuel(fits, 5);
    fixed_hex_reads_back(id as nat, 4);
    let s = hex_of(id as nat, 4);
    assert forall|i: int| 0 <= i < s.len() implies is_hex_digit(#[trigger] s[i]) by {
        assert(is_digit(s[i]));
    }
    assert(is_digit(s[0]));
    digits_are_plain(s[0]);
}

/// Another computer is read by its plain name, with or without backslashes in
/// front of it, and of its hives only two can be.
pub proof fn computers_are_read_by_name(name: Seq<char>, hive: Hive)
    requires
        name.len() > 0,
        forall|i: int|
            0 <= i < name.len() ==> 'A' <= #[trigger] name[i] && name[i] <= 'Z',
    ensures
        remote_barred(name, hive) is Ok <==> hive == Hive::Hklm || hive == Hive::Hku,
        remote_barred(seq!['\\', '\\'] + name, hive) == remote_barred(name, hive),
{
    let none = Seq::<char>::empty();
    let marked = seq!['\\', '\\'] + name;
    assert('A' <= name[0] && name[0] <= 'Z');
    assert('A' <= name[name.len() - 1] && name[name.len() - 1] <= 'Z');
    assert(marked.last() == name.last());
    trimming_leaves_the_text(none, name, none);
    trimming_leaves_the_text(none, marked, none);
    assert(marked.skip(1).skip(1) =~= name);
    assert(marked.skip(1)[0] == '\\');
    reveal_with_fuel(crate::text::stripped_start, 3);
    assert(crate::text::stripped_start(name, '\\') == name);
    assert(crate::text::stripped_start(marked, '\\') == name);
}

/// A change goes ahead unasked in a dry run, and where `-y` was given and the
/// policy does not insist.
pub proof fn changes_are_confirmed(dry_run: bool, yes: bool, required: bool)
    ensures
        confirmation_of(dry_run, yes, required) == Confirmation::Proceed <==> dry_run || yes
            && !required,
        confirmation_of(dry_run, yes, required) == Confirmation::AskDespiteYes <==> !dry_run && yes
            && required,
{
}

/// Every log that is required or asked for is written, the required one first,
/// and no other.
pub proof fn logs_are_written_where_wanted(
    required: Option<Seq<char>>,
    asked: Option<Seq<char>>,
    log: Seq<char>,
)
    ensures
        audit_logs_of(required, asked).contains(log) <==> required == Some(log) || asked == Some(
            log,
        ),
        required is Some ==> audit_logs_of(required, asked)[0] == required->0,
{
    let all = audit_logs_of(required, asked);
    if required == Some(log) {
        assert(all[0] == log);
    }
    if asked == Some(log) {
        assert(all.last() == log);
    }
}

// ---------------------------------------------------------------------------
// Views
// ---------------------------------------------------------------------------

/// A choice names the view it is called after, and both stands for the two
/// that have a width.
pub proof fn choices_name_their_views()
    ensures
        views_of(ViewChoice::Native) == seq![RegistryView::Native],
        views_of(ViewChoice::Both) == views_of(ViewChoice::Bits32) + views_of(ViewChoice::Bits64),
        views_of(ViewChoice::Bits32) == seq![RegistryView::Bits32],
        views_of(ViewChoice::Bits64) == seq![RegistryView::Bits64],
{
    assert(views_of(ViewChoice::Both) =~= views_of(ViewChoice::Bits32) + views_of(
        ViewChoice::Bits64,
    ));
}

/// One view uses the common name. Two have a file each, under the common stem
/// and extension, and never the same.
pub proof fn undo_files_are_kept_apart(
    stem: Seq<char>,
    extension: Option<Seq<char>>,
    choice: ViewChoice,
)
    ensures
        undo_names(views_of(choice), Some(stem), extension).len() == views_of(choice).len(),
        choice != ViewChoice::Both ==> undo_names(views_of(choice), Some(stem), extension)[0]
            is None,
        choice == ViewChoice::Both ==> ({
            let names = undo_names(views_of(choice), Some(stem), extension);
            let mark = if extension is None || extension->0.len() == 0 {
                Seq::empty()
            } else {
                seq!['.'] + extension->0
            };
            &&& names[0] == Some(stem + seq!['.', '3', '2'] + mark)
            &&& names[1] == Some(stem + seq!['.', '6', '4'] + mark)
            &&& names[0] != names[1]
        }),
{
    reveal_strlit(".");
    reveal_strlit("32");
    reveal_strlit("64");
    let names = undo_names(views_of(choice), Some(stem), extension);
    if choice == ViewChoice::Both {
        let mark = if extension is None || extension->0.len() == 0 {
            Seq::empty()
        } else {
            seq!['.'] + extension->0
        };
        assert(view_name(Some(stem), extension, "32"@) =~= stem + seq!['.', '3', '2'] + mark);
        assert(view_name(Some(stem), extension, "64"@) =~= stem + seq!['.', '6', '4'] + mark);
        assert((stem + seq!['.', '3', '2'] + mark)[stem.len() as int + 1] == '3');
        assert((stem + seq!['.', '6', '4'] + mark)[stem.len() as int + 1] == '6');
    }
}

/// A snapshot is listed where something of it could not be read.
pub proof fn incomplete_snapshots_are_listed(snapshots: Seq<Snapshot>, i: int)
    ensures
        incomplete_of(snapshots).contains(i) <==> 0 <= i < snapshots.len()
            && snapshots[i].unreadable@.len() > 0,
    decreases snapshots.len(),
{
    if snapshots.len() > 0 {
        let front = snapshots.drop_last();
        let before = incomplete_of(front);
        let all = incomplete_of(snapshots);
        incomplete_snapshots_are_listed(front, i);
        if before.contains(i) {
            let k = choose|k: int| 0 <= k < before.len() && before[k] == i;
            assert(all[k] == i);
        }
        if snapshots.last().unreadable@.len() != 0 {
            assert(all.last() == snapshots.len() - 1);
            if all.contains(i) && !before.contains(i) {
                let k = choose|k: int| 0 <= k < all.len() && all[k] == i;
                assert(k == all.len() - 1) by {
                    if k < before.len() {
                        assert(before[k] == i);
                    }
                }
            }
        }
    }
}

// ---------------------------------------------------------------------------
// Policy
// ---------------------------------------------------------------------------

/// Each flag of a policy is set by a number other than zero in the value of its
/// own name, and by nothing else.
pub proof fn flags_are_set_by_their_values(v: PolicyValues)
    ensures
        policy_of(Some(v)).configured,
        policy_of(Some(v)).audit_redact <==> (v.audit_redact matches Some(RegData::Dword(n)) && n
            != 0),
        policy_of(Some(v)).disable_hive <==> (v.disable_hive matches Some(RegData::Dword(n)) && n
            != 0),
        policy_of(Some(v)).require_confirm <==> (v.require_confirm matches Some(RegData::Dword(n))
            && n != 0),
        !policy_of(None).configured && !constrains(policy_of(None)),
{
}

/// Each text of a policy is the string in the value of its own name, without
/// the white space around it, and the confidence is read in any case.
pub proof fn texts_are_read_from_their_values(
    v: PolicyValues,
    before: Seq<char>,
    text: Seq<char>,
    behind: Seq<char>,
)
    requires
        blank(before),
        blank(behind),
        trim_free(text),
    ensures
        (v.audit_log matches Some(RegData::Sz(s)) && s@ == before + text + behind) ==> policy_of(
            Some(v),
        ).audit_log == (if text.len() == 0 {
            None
        } else {
            Some(text)
        }),
        (v.min_confidence matches Some(RegData::Sz(s)) && s@ == before + text + behind)
            ==> policy_of(Some(v)).min_confidence == (if text.len() == 0 {
            None
        } else {
            Some(lowered(text))
        }),
        !(v.audit_log matches Some(RegData::Sz(s))) ==> policy_of(Some(v)).audit_log is None,
        !(v.min_confidence matches Some(RegData::Sz(s))) ==> policy_of(
            Some(v),
        ).min_confidence is None,
{
    trimming_leaves_the_text(before, text, behind);
}

/// A rule is read of each text of the list, without the white space around it;
/// a blank text is none.
pub proof fn rules_are_read_one_by_one(
    texts: Seq<Seq<char>>,
    before: Seq<char>,
    rule: Seq<char>,
    behind: Seq<char>,
)
    requires
        blank(before),
        blank(behind),
        trim_free(rule),
    ensures
        not_blank(Seq::empty()) == Seq::<Seq<char>>::empty(),
        not_blank(texts.push(before + rule + behind)) == (if rule.len() == 0 {
            not_blank(texts)
        } else {
            not_blank(texts).push(rule)
        }),
{
    trimming_leaves_the_text(before, rule, behind);
    assert(texts.push(before + rule + behind).drop_last() =~= texts);
}

/// A policy that sets nothing says nothing, and one that sets something has a
/// line for each thing it sets.
pub proof fn every_constraint_is_described(p: PolicyView)
    ensures
        described(p).len() == (if p.audit_log is Some {
            1int
        } else {
            0
        }) + (if p.audit_redact {
            1int
        } else {
            0
        }) + (if p.min_confidence is Some {
            1int
        } else {
            0
        }) + (if p.deny_keys.len() > 0 {
            1int
        } else {
            0
        }) + (if p.disable_hive {
            1int
        } else {
            0
        }) + (if p.require_confirm {
            1int
        } else {
            0
        }),
        constrains(p) <==> described(p).len() > 0,
{
}

} // verus!
