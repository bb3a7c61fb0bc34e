//! Findings as lines of text.
use vstd::prelude::*;

use crate::audit::{Break, Verification};
use crate::diff::{Change, Diff, DiffView, KeyDiff, KeyDiffView, ValueDiff, ValueDiffView};
use crate::find_report::DiffCounts;
use crate::inspection::{
    count_deletes, count_refused, deletes_in, entry_of, format_table, hive_names, hive_order, hives_of,
    known_formats, refused_in, Companion, Discovery, FormatEntry, FoundConflict, Inspection, Risk,
};
use crate::model::{name_text, path_text, preview_of, DataView, RegData};
use crate::notice::{listing_text, Listing};
use crate::number::{dec_of, push_dec};
use crate::select::{capped, count_values, total_values};
use crate::text::{
    chars_of, concat, concat3, join, joined, opt_text, same_str, trim, trimmed, views, views_push,
};
use crate::text_report::{pad, padded, spaces};

verus! {

// ---------------------------------------------------------------------------
// Lines
// ---------------------------------------------------------------------------

fn push_line(out: &mut Vec<String>, line: String)
    ensures
        views(final(out)@) == views(old(out)@).push(line@),
        views(final(out)@) == views(old(out)@) + seq![line@],
{
    broadcast use views_push;

    let ghost before = out@;
    out.push(line);
    assert(views(out@) == views(before).push(line@));
    assert(views(out@) =~= views(before) + seq![line@]);
}

/// Each text behind a common beginning.
pub open spec fn behind_each(beginning: Seq<char>, texts: Seq<Seq<char>>) -> Seq<Seq<char>> {
    texts.map_values(|t: Seq<char>| beginning + t)
}

fn push_each(out: &mut Vec<String>, beginning: &str, texts: &Vec<String>)
    ensures
        views(final(out)@) == views(old(out)@) + behind_each(beginning@, views(texts@)),
{
    let ghost all = views(texts@);
    let ghost start = views(out@);
    assert(start + behind_each(beginning@, all.take(0)) =~= start);
    for i in 0..texts.len()
        invariant
            all == views(texts@),
            views(out@) == start + behind_each(beginning@, all.take(i as int)),
    {
        let line = concat(beginning, texts[i].as_str());
        assert(all[i as int] == texts@[i as int]@);
        assert(start + behind_each(beginning@, all.take(i + 1)) =~= (start + behind_each(
            beginning@,
            all.take(i as int),
        )).push(line@));
        push_line(out, line);
    }
    assert(all.take(all.len() as int) =~= all);
}

// ---------------------------------------------------------------------------
// Differences
// ---------------------------------------------------------------------------

/// The signs that stand for what happened.
#[derive(Debug)]
pub struct Signs {
    pub added: String,
    pub modified: String,
    pub removed: String,
}

/// The sign of what happened.
pub open spec fn sign_of(signs: Signs, change: Change) -> Seq<char> {
    match change {
        Change::Added => signs.added@,
        Change::Modified => signs.modified@,
        Change::Removed => signs.removed@,
    }
}

impl Signs {
    fn sign(&self, change: Change) -> (r: &str)
        ensures
            r@ == sign_of(*self, change),
    {
        match change {
            Change::Added => self.added.as_str(),
            Change::Modified => self.modified.as_str(),
            Change::Removed => self.removed.as_str(),
        }
    }
}

/// Some data as it is shown, or nothing.
pub open spec fn shown_data(data: Option<DataView>) -> Seq<char> {
    match data {
        Some(d) => preview_of(d),
        None => Seq::empty(),
    }
}

fn show_data(data: &Option<RegData>) -> (r: String)
    ensures
        r@ == shown_data(crate::diff::opt_data(*data)),
{
    match data {
        Some(d) => d.preview(),
        None => {
            let r = String::new();
            assert(r@ =~= Seq::<char>::empty());
            r
        },
    }
}

/// The line of a key.
pub open spec fn key_row(k: KeyDiffView, signs: Signs) -> Seq<char> {
    sign_of(signs, k.change) + " ["@ + path_text(k.path) + "]"@
}

/// The lines of a value: one that was modified shows both its data, another the
/// data that it has or had.
pub open spec fn value_rows(v: ValueDiffView, signs: Signs) -> Seq<Seq<char>> {
    let place = sign_of(signs, v.change) + " "@ + path_text(v.path) + "\\"@ + name_text(v.name);
    if v.change == Change::Modified {
        seq![place, "    - "@ + shown_data(v.left), "    + "@ + shown_data(v.right)]
    } else {
        seq![place + " = "@ + shown_data(if v.right is Some { v.right } else { v.left })]
    }
}

/// The lines of keys.
pub open spec fn keys_rows(keys: Seq<KeyDiffView>, signs: Signs) -> Seq<Seq<char>> {
    keys.map_values(|k: KeyDiffView| key_row(k, signs))
}

/// The lines of values.
pub open spec fn values_rows(values: Seq<ValueDiffView>, signs: Signs) -> Seq<Seq<char>>
    decreases values.len(),
{
    if values.len() == 0 {
        Seq::empty()
    } else {
        values_rows(values.drop_last(), signs) + value_rows(values.last(), signs)
    }
}

/// How much differs, in words.
pub open spec fn counts_text(n: DiffCounts) -> Seq<char> {
    listing_text(
        Listing::Differences { added: n.added, modified: n.modified, removed: n.removed },
    )
}

/// The lines of a comparison of `a` with `b`.
pub open spec fn difference_rows(
    d: DiffView,
    a: Seq<char>,
    b: Seq<char>,
    n: DiffCounts,
    signs: Signs,
    summary_only: bool,
) -> Seq<Seq<char>> {
    if summary_only {
        seq![counts_text(n)]
    } else if d.keys.len() == 0 && d.values.len() == 0 {
        seq!["No differences."@]
    } else {
        seq!["--- "@ + a, "+++ "@ + b, ""@] + keys_rows(d.keys, signs) + values_rows(
            d.values,
            signs,
        ) + seq![""@] + seq![counts_text(n)]
    }
}

fn key_line(k: &KeyDiff, signs: &Signs) -> (r: String)
    ensures
        r@ == key_row(k@, *signs),
{
    let mut r = concat(signs.sign(k.change), " [");
    r.append(k.path.to_string().as_str());
    r.append("]");
    r
}

fn push_value(out: &mut Vec<String>, v: &ValueDiff, signs: &Signs)
    ensures
        views(final(out)@) == views(old(out)@) + value_rows(v@, *signs),
{
    let ghost start = views(out@);
    let mut place = concat(signs.sign(v.change), " ");
    place.append(v.path.to_string().as_str());
    place.append("\\");
    place.append(v.name.to_string().as_str());
    if v.change == Change::Modified {
        let left = concat("    - ", show_data(&v.left).as_str());
        let right = concat("    + ", show_data(&v.right).as_str());
        let ghost rows = seq![place@, left@, right@];
        push_line(out, place);
        push_line(out, left);
        push_line(out, right);
        assert(views(out@) =~= start + rows);
    } else {
        place.append(" = ");
        let data = if v.right.is_some() {
            show_data(&v.right)
        } else {
            show_data(&v.left)
        };
        place.append(data.as_str());
        push_line(out, place);
    }
}

fn push_values(out: &mut Vec<String>, values: &Vec<ValueDiff>, signs: &Signs)
    ensures
        views(final(out)@) == views(old(out)@) + values_rows(views(values@), *signs),
{
    let ghost all = views(values@);
    let ghost start = views(out@);
    assert(all.take(0) =~= Seq::<ValueDiffView>::empty());
    assert(start + Seq::<Seq<char>>::empty() =~= start);
    for i in 0..values.len()
        invariant
            all == views(values@),
            views(out@) == start + values_rows(all.take(i as int), *signs),
    {
        assert(all.take(i + 1).drop_last() =~= all.take(i as int));
        assert(all.take(i + 1).last() == values@[i as int]@);
        let ghost before = values_rows(all.take(i as int), *signs);
        let ghost own = value_rows(values@[i as int]@, *signs);
        push_value(out, &values[i], signs);
        assert((start + before) + own =~= start + (before + own));
    }
    assert(all.take(all.len() as int) =~= all);
}

/// The lines of a comparison of `a` with `b`.
pub fn difference_lines(
    difference: &Diff,
    a: &str,
    b: &str,
    counts: DiffCounts,
    signs: &Signs,
    summary_only: bool,
) -> (out: Vec<String>)
    ensures
        views(out@) == difference_rows(difference@, a@, b@, counts, *signs, summary_only),
{
    let ghost d = difference@;
    let mut out: Vec<String> = Vec::new();
    assert(views(out@) =~= Seq::<Seq<char>>::empty());
    let total = Listing::Differences {
        added: counts.added,
        modified: counts.modified,
        removed: counts.removed,
    }.text();
    if summary_only {
        push_line(&mut out, total);
        assert(views(out@) =~= seq![counts_text(counts)]);
        return out;
    }
    if difference.keys.len() == 0 && difference.values.len() == 0 {
        push_line(&mut out, "No differences.".to_owned());
        assert(views(out@) =~= seq!["No differences."@]);
        return out;
    }
    push_line(&mut out, concat("--- ", a));
    push_line(&mut out, concat("+++ ", b));
    push_line(&mut out, "".to_owned());
    let ghost head = seq!["--- "@ + a@, "+++ "@ + b@, ""@];
    assert(views(out@) =~= head);
    assert(head + keys_rows(d.keys.take(0), *signs) =~= head);
    for i in 0..difference.keys.len()
        invariant
            d == difference@,
            views(out@) == head + keys_rows(d.keys.take(i as int), *signs),
    {
        let line = key_line(&difference.keys[i], signs);
        assert(d.keys[i as int] == difference.keys@[i as int]@);
        assert(head + keys_rows(d.keys.take(i + 1), *signs) =~= (head + keys_rows(
            d.keys.take(i as int),
            *signs,
        )).push(line@));
        push_line(&mut out, line);
    }
    assert(d.keys.take(d.keys.len() as int) =~= d.keys);
    push_values(&mut out, &difference.values, signs);
    push_line(&mut out, "".to_owned());
    push_line(&mut out, total);
    out
}

/// The line of a key that changed while it was watched.
pub open spec fn watched_key_row(k: KeyDiffView, signs: Signs) -> Seq<char> {
    "  "@ + sign_of(signs, k.change) + " key "@ + path_text(k.path)
}

/// The line of a value that changed while it was watched.
pub open spec fn watched_value_row(v: ValueDiffView, signs: Signs) -> Seq<char> {
    "  "@ + sign_of(signs, v.change) + " value "@ + path_text(v.path) + "\\"@ + name_text(v.name)
}

/// The lines of what changed while it was watched.
pub open spec fn watched_rows(d: DiffView, signs: Signs) -> Seq<Seq<char>> {
    d.keys.map_values(|k: KeyDiffView| watched_key_row(k, signs)) + d.values.map_values(
        |v: ValueDiffView| watched_value_row(v, signs),
    )
}

/// The lines of what changed while it was watched.
pub fn watched_lines(changes: &Diff, signs: &Signs) -> (out: Vec<String>)
    ensures
        views(out@) == watched_rows(changes@, *signs),
{
    let ghost d = changes@;
    let ghost key = |k: KeyDiffView| watched_key_row(k, *signs);
    let ghost value = |v: ValueDiffView| watched_value_row(v, *signs);
    let mut out: Vec<String> = Vec::new();
    for i in 0..changes.keys.len()
        invariant
            d == changes@,
            key == (|k: KeyDiffView| watched_key_row(k, *signs)),
            views(out@) =~= d.keys.take(i as int).map_values(key),
    {
        let mut line = concat3("  ", signs.sign(changes.keys[i].change), " key ");
        line.append(changes.keys[i].path.to_string().as_str());
        assert(d.keys[i as int] == changes.keys@[i as int]@);
        push_line(&mut out, line);
    }
    assert(d.keys.take(d.keys.len() as int) =~= d.keys);
    let ghost head = d.keys.map_values(key);
    for i in 0..changes.values.len()
        invariant
            d == changes@,
            value == (|v: ValueDiffView| watched_value_row(v, *signs)),
            views(out@) =~= head + d.values.take(i as int).map_values(value),
    {
        let mut line = concat3("  ", signs.sign(changes.values[i].change), " value ");
        line.append(changes.values[i].path.to_string().as_str());
        line.append("\\");
        line.append(changes.values[i].name.to_string().as_str());
        assert(d.values[i as int] == changes.values@[i as int]@);
        push_line(&mut out, line);
    }
    assert(d.values.take(d.values.len() as int) =~= d.values);
    out
}

// ---------------------------------------------------------------------------
// Logs
// ---------------------------------------------------------------------------

/// The line of a break, in a log or in a chain of logs.
pub open spec fn break_row(b: Break, chain: bool) -> Seq<char> {
    if chain {
        listing_text(Listing::BrokenSegment { position: b.place, problem: b.problem })
    } else {
        listing_text(Listing::BrokenLine { line: b.place, problem: b.problem })
    }
}

/// The lines of breaks, under their number.
pub open spec fn breaks_rows(broken: Seq<Break>, chain: bool) -> Seq<Seq<char>> {
    seq!["  CHAIN BROKEN at "@ + dec_of(broken.len()) + " point(s):"@] + broken.map_values(
        |b: Break| break_row(b, chain),
    )
}

fn push_breaks(out: &mut Vec<String>, broken: &Vec<Break>, chain: bool)
    ensures
        views(final(out)@) == views(old(out)@) + breaks_rows(broken@, chain),
{
    let ghost start = views(out@);
    let ghost row = |b: Break| break_row(b, chain);
    let mut head = "  CHAIN BROKEN at ".to_owned();
    push_dec(&mut head, broken.len() as u64);
    head.append(" point(s):");
    let ghost first = start.push(head@);
    push_line(out, head);
    for i in 0..broken.len()
        invariant
            row == (|b: Break| break_row(b, chain)),
            views(out@) =~= first + broken@.take(i as int).map_values(row),
    {
        let mut line = if chain {
            "    segment ".to_owned()
        } else {
            "    line ".to_owned()
        };
        push_dec(&mut line, broken[i].place as u64);
        line.append(": ");
        line.append(broken[i].problem.as_str());
        push_line(out, line);
    }
    assert(broken@.take(broken@.len() as int) =~= broken@);
    assert(views(out@) =~= start + breaks_rows(broken@, chain));
}

/// The lines of a check of a chain of logs.
pub open spec fn chain_rows(segments: usize, v: Verification) -> Seq<Seq<char>> {
    seq![
        listing_text(Listing::Chain { segments, records: v.records, sessions: v.sessions }),
    ] + if v.broken@.len() == 0 {
        seq![listing_text(Listing::ChainIntact)]
    } else {
        breaks_rows(v.broken@, true)
    }
}

/// The lines of a check of a chain of logs.
pub fn chain_lines(segments: usize, v: &Verification) -> (out: Vec<String>)
    ensures
        views(out@) == chain_rows(segments, *v),
{
    let head = Listing::Chain { segments, records: v.records, sessions: v.sessions }.text();
    let mut out: Vec<String> = Vec::new();
    let ghost first = seq![head@];
    push_line(&mut out, head);
    assert(views(out@) =~= first);
    if v.is_intact() {
        push_line(&mut out, Listing::ChainIntact.text());
    } else {
        push_breaks(&mut out, &v.broken, true);
    }
    out
}

/// The lines of a check of a log.
pub open spec fn log_rows(
    file: Seq<char>,
    v: Verification,
    digest: Option<Seq<char>>,
) -> Seq<Seq<char>> {
    seq![file, "  records   "@ + dec_of(v.records as nat), "  sessions  "@ + dec_of(
        v.sessions as nat,
    )] + (match digest {
        Some(d) => seq!["  sha256    "@ + d],
        None => Seq::empty(),
    }) + seq![""@] + (if v.broken@.len() == 0 {
        seq!["  Chain intact: no record has been altered or removed."@]
    } else {
        breaks_rows(v.broken@, false) + seq![""@] + seq![
            "  A break means the file was changed after it was written. The records"@,
            "  before the first break are still trustworthy; those after it are not."@,
        ]
    })
}

fn push_log_head(out: &mut Vec<String>, file: &str, v: &Verification, digest: &Option<String>)
    ensures
        views(final(out)@) == views(old(out)@) + (seq![file@, "  records   "@ + dec_of(
            v.records as nat,
        ), "  sessions  "@ + dec_of(v.sessions as nat)] + (match opt_text(*digest) {
            Some(d) => seq!["  sha256    "@ + d],
            None => Seq::empty(),
        })),
{
    let ghost start = views(out@);
    push_line(out, file.to_owned());
    let mut records = "  records   ".to_owned();
    push_dec(&mut records, v.records as u64);
    push_line(out, records);
    let mut sessions = "  sessions  ".to_owned();
    push_dec(&mut sessions, v.sessions as u64);
    push_line(out, sessions);
    let ghost three = seq![file@, "  records   "@ + dec_of(v.records as nat), "  sessions  "@
        + dec_of(v.sessions as nat)];
    assert(views(out@) =~= start + three);
    match digest {
        Some(d) => {
            push_line(out, concat("  sha256    ", d.as_str()));
            assert(views(out@) =~= start + (three + seq!["  sha256    "@ + d@]));
        },
        None => {
            assert(three + Seq::<Seq<char>>::empty() =~= three);
        },
    }
}

/// The lines of a check of a log.
pub fn log_lines(file: &str, v: &Verification, digest: &Option<String>) -> (out: Vec<String>)
    ensures
        views(out@) == log_rows(file@, *v, opt_text(*digest)),
{
    let mut out: Vec<String> = Vec::new();
    push_log_head(&mut out, file, v, digest);
    let ghost head = seq![file@, "  records   "@ + dec_of(v.records as nat), "  sessions  "@
        + dec_of(v.sessions as nat)] + (match opt_text(*digest) {
        Some(d) => seq!["  sha256    "@ + d],
        None => Seq::empty(),
    });
    assert(views(out@) =~= head);
    push_line(&mut out, "".to_owned());
    if v.is_intact() {
        push_line(
            &mut out,
            "  Chain intact: no record has been altered or removed.".to_owned(),
        );
    } else {
        let ghost before = views(out@);
        push_breaks(&mut out, &v.broken, false);
        push_line(&mut out, "".to_owned());
        push_line(
            &mut out,
            "  A break means the file was changed after it was written. The records".to_owned(),
        );
        push_line(
            &mut out,
            "  before the first break are still trustworthy; those after it are not.".to_owned(),
        );
        assert(views(out@) =~= before + (breaks_rows(v.broken@, false) + seq![""@] + seq![
            "  A break means the file was changed after it was written. The records"@,
            "  before the first break are still trustworthy; those after it are not."@,
        ]));
    }
    out
}

/// The numbered records of a log: blank lines are counted but not shown.
pub open spec fn record_rows(lines: Seq<Seq<char>>) -> Seq<Seq<char>>
    decreases lines.len(),
{
    if lines.len() == 0 {
        Seq::empty()
    } else if trimmed(lines.last()).len() == 0 {
        record_rows(lines.drop_last())
    } else {
        let number = dec_of(lines.len());
        record_rows(lines.drop_last()).push(
            "  "@ + spaces(4 - number.len()) + number + "  "@ + lines.last(),
        )
    }
}

/// The numbered records of a log.
pub fn record_lines(lines: &Vec<String>) -> (out: Vec<String>)
    ensures
        views(out@) == record_rows(views(lines@)),
{
    let ghost all = views(lines@);
    let mut out: Vec<String> = Vec::new();
    assert(views(out@) =~= Seq::<Seq<char>>::empty());
    assert(all.take(0) =~= Seq::<Seq<char>>::empty());
    for i in 0..lines.len()
        invariant
            all == views(lines@),
            views(out@) == record_rows(all.take(i as int)),
    {
        assert(all.take(i + 1).drop_last() =~= all.take(i as int));
        assert(all.take(i + 1).last() == lines@[i as int]@);
        let chars = chars_of(lines[i].as_str());
        if trim(chars.as_slice()).len() != 0 {
            let mut number = String::new();
            push_dec(&mut number, i as u64 + 1);
            assert(number@ =~= dec_of((i + 1) as nat));
            let used = chars_of(number.as_str()).len();
            let gap = pad("", if used < 4 { 4 - used } else { 0 });
            proof {
                reveal_strlit("");
                assert(gap@ =~= spaces(4 - number@.len()));
            }
            let mut line = concat3("  ", gap.as_str(), number.as_str());
            line.append("  ");
            line.append(lines[i].as_str());
            push_line(&mut out, line);
        }
    }
    assert(all.take(all.len() as int) =~= all);
    out
}

// ---------------------------------------------------------------------------
// Companion files
// ---------------------------------------------------------------------------

/// The line of a risk.
pub open spec fn risk_row(r: Risk) -> Seq<char> {
    "      RISK   "@ + r.kind@ + ": "@ + r.explanation@
}

/// The name of a format, or that it is unknown.
pub open spec fn format_or_unknown(format: Option<Seq<char>>) -> Seq<char> {
    match format {
        Some(name) => name,
        None => "unknown"@,
    }
}

/// The lines of a file that was found.
pub open spec fn companion_rows(c: Companion) -> Seq<Seq<char>> {
    seq![
        "  ["@ + dec_of(c.rank as nat) + "] "@ + padded(c.origin@, 22) + " "@ + c.path@,
        "      "@ + padded(format_or_unknown(opt_text(c.format)), 10) + " "@ + dec_of(
            c.size as nat,
        ) + " bytes"@,
    ] + (if c.resolved_path@ == c.path@ {
        Seq::empty()
    } else {
        seq!["      resolved  "@ + c.resolved_path@]
    }) + c.risks@.map_values(|r: Risk| risk_row(r))
}

/// The lines of files that were found.
pub open spec fn companions_rows(found: Seq<Companion>) -> Seq<Seq<char>>
    decreases found.len(),
{
    if found.len() == 0 {
        Seq::empty()
    } else {
        companions_rows(found.drop_last()) + companion_rows(found.last())
    }
}

fn push_companion(out: &mut Vec<String>, c: &Companion)
    ensures
        views(final(out)@) == views(old(out)@) + companion_rows(*c),
{
    let ghost start = views(out@);
    let mut first = "  [".to_owned();
    push_dec(&mut first, c.rank as u64);
    first.append("] ");
    first.append(pad(c.origin.as_str(), 22).as_str());
    first.append(" ");
    first.append(c.path.as_str());
    let name = match &c.format {
        Some(n) => n.as_str(),
        None => "unknown",
    };
    let mut second = concat3("      ", pad(name, 10).as_str(), " ");
    push_dec(&mut second, c.size);
    second.append(" bytes");
    let ghost two = seq![first@, second@];
    push_line(out, first);
    push_line(out, second);
    assert(views(out@) =~= start + two);
    let ghost third = if c.resolved_path@ == c.path@ {
        Seq::<Seq<char>>::empty()
    } else {
        seq!["      resolved  "@ + c.resolved_path@]
    };
    if !same_str(c.resolved_path.as_str(), c.path.as_str()) {
        push_line(out, concat("      resolved  ", c.resolved_path.as_str()));
    }
    assert(views(out@) =~= start + (two + third));
    let ghost row = |r: Risk| risk_row(r);
    for i in 0..c.risks.len()
        invariant
            row == (|r: Risk| risk_row(r)),
            views(out@) =~= start + (two + third + c.risks@.take(i as int).map_values(row)),
    {
        let mut line = concat("      RISK   ", c.risks[i].kind.as_str());
        line.append(": ");
        line.append(c.risks[i].explanation.as_str());
        push_line(out, line);
    }
    assert(c.risks@.take(c.risks@.len() as int) =~= c.risks@);
}

fn push_companions(out: &mut Vec<String>, found: &Vec<Companion>)
    ensures
        views(final(out)@) == views(old(out)@) + companions_rows(found@),
{
    let ghost start = views(out@);
    assert(found@.take(0) =~= Seq::<Companion>::empty());
    assert(start + Seq::<Seq<char>>::empty() =~= start);
    for i in 0..found.len()
        invariant
            views(out@) == start + companions_rows(found@.take(i as int)),
    {
        assert(found@.take(i + 1).drop_last() =~= found@.take(i as int));
        let ghost before = companions_rows(found@.take(i as int));
        let ghost own = companion_rows(found@[i as int]);
        push_companion(out, &found[i]);
        assert((start + before) + own =~= start + (before + own));
    }
    assert(found@.take(found@.len() as int) =~= found@);
}

/// The first lines of a search for companion files.
pub open spec fn discovery_head(d: Discovery) -> Seq<Seq<char>> {
    (match opt_text(d.executable) {
        Some(e) => seq!["executable  "@ + e],
        None => Seq::empty(),
    }) + seq!["anchor      "@ + d.anchor@, "stem        "@ + d.stem@] + behind_each(
        "note        "@,
        views(d.notes@),
    )
}

/// The lines of what a search for companion files found.
pub open spec fn discovery_found(d: Discovery) -> Seq<Seq<char>> {
    if d.found@.len() == 0 {
        seq![""@, "No companion files found."@]
    } else {
        seq![""@, dec_of(d.found@.len()) + " companion file(s), in search order:"@, ""@]
            + companions_rows(d.found@)
    }
}

/// The lines of where a search for companion files found nothing.
pub open spec fn discovery_absent(d: Discovery, verbose: bool) -> Seq<Seq<char>> {
    if verbose && d.searched@.len() != 0 {
        seq![""@, "Probed and absent ("@ + dec_of(d.searched@.len()) + "):"@] + behind_each(
            "  "@,
            views(d.searched@),
        )
    } else {
        Seq::empty()
    }
}

/// The lines that warn of risks.
pub open spec fn discovery_warning(d: Discovery) -> Seq<Seq<char>> {
    if d.risky > 0 {
        seq![
            ""@,
            dec_of(d.risky as nat) + " of "@ + dec_of(d.found@.len())
                + " hit(s) carry a risk. Read them with `regx inspect`, and confirm the application really uses that rung before trusting it."@,
        ]
    } else {
        Seq::empty()
    }
}

/// The lines of a search for companion files.
pub open spec fn discovery_rows(d: Discovery, verbose: bool) -> Seq<Seq<char>> {
    discovery_head(d) + discovery_found(d) + discovery_absent(d, verbose) + discovery_warning(d)
}

fn push_discovery_head(out: &mut Vec<String>, d: &Discovery)
    ensures
        views(final(out)@) == views(old(out)@) + discovery_head(*d),
{
    let ghost start = views(out@);
    let ghost program = match opt_text(d.executable) {
        Some(e) => seq!["executable  "@ + e],
        None => Seq::empty(),
    };
    match &d.executable {
        Some(e) => {
            push_line(out, concat("executable  ", e.as_str()));
        },
        None => {
            assert(start + program =~= start);
        },
    }
    let anchor = concat("anchor      ", d.anchor.as_str());
    let stem = concat("stem        ", d.stem.as_str());
    let ghost two = seq![anchor@, stem@];
    push_line(out, anchor);
    push_line(out, stem);
    assert(views(out@) =~= start + (program + two));
    push_each(out, "note        ", &d.notes);
    assert(views(out@) =~= start + discovery_head(*d));
}

fn push_discovery_found(out: &mut Vec<String>, d: &Discovery)
    ensures
        views(final(out)@) == views(old(out)@) + discovery_found(*d),
{
    let ghost start = views(out@);
    push_line(out, "".to_owned());
    if d.found.len() == 0 {
        push_line(out, "No companion files found.".to_owned());
        assert(views(out@) =~= start + discovery_found(*d));
    } else {
        let mut line = String::new();
        push_dec(&mut line, d.found.len() as u64);
        line.append(" companion file(s), in search order:");
        assert(line@ =~= dec_of(d.found@.len()) + " companion file(s), in search order:"@);
        push_line(out, line);
        push_line(out, "".to_owned());
        push_companions(out, &d.found);
        assert(views(out@) =~= start + discovery_found(*d));
    }
}

/// The lines of a search for companion files.
pub fn discovery_lines(d: &Discovery, verbose: bool) -> (out: Vec<String>)
    ensures
        views(out@) == discovery_rows(*d, verbose),
{
    let mut out: Vec<String> = Vec::new();
    push_discovery_head(&mut out, d);
    assert(views(out@) =~= discovery_head(*d));
    push_discovery_found(&mut out, d);
    let ghost before = views(out@);
    if verbose && d.searched.len() != 0 {
        push_line(&mut out, "".to_owned());
        let mut line = "Probed and absent (".to_owned();
        push_dec(&mut line, d.searched.len() as u64);
        line.append("):");
        push_line(&mut out, line);
        push_each(&mut out, "  ", &d.searched);
    }
    assert(views(out@) =~= before + discovery_absent(*d, verbose));
    let ghost before = views(out@);
    if d.risky > 0 {
        push_line(&mut out, "".to_owned());
        let mut line = String::new();
        push_dec(&mut line, d.risky as u64);
        assert(line@ =~= dec_of(d.risky as nat));
        line.append(" of ");
        push_dec(&mut line, d.found.len() as u64);
        line.append(
            " hit(s) carry a risk. Read them with `regx inspect`, and confirm the application really uses that rung before trusting it.",
        );
        push_line(&mut out, line);
    }
    assert(views(out@) =~= before + discovery_warning(*d));
    out
}

// ---------------------------------------------------------------------------
// Inspected files
// ---------------------------------------------------------------------------

/// The line of a value that a file gives twice.
pub open spec fn found_conflict_row(c: FoundConflict) -> Seq<char> {
    "  conflict    "@ + c.path@ + "\\"@ + c.value@ + ": line "@ + dec_of(c.first_line as nat)
        + " "@ + crate::text::debug_text(c.old@) + " overridden by line "@ + dec_of(
        c.last_line as nat,
    ) + " "@ + crate::text::debug_text(c.new@)
}

/// An optional text behind a beginning, as a line.
pub open spec fn optional_row(beginning: Seq<char>, text: Option<Seq<char>>) -> Seq<Seq<char>> {
    match text {
        Some(t) => seq![beginning + t],
        None => Seq::empty(),
    }
}

/// The lines of what a file is and holds.
pub open spec fn inspection_head(d: Inspection, format: Seq<char>) -> Seq<Seq<char>> {
    let keys = views(d.data.keys@);
    seq![d.label@, "  format      "@ + format] + optional_row(
        "  encoding    "@,
        opt_text(d.encoding),
    ) + optional_row("  dialect     "@, opt_text(d.dialect)) + seq![
        "  key blocks  "@ + dec_of(keys.len()) + " ("@ + dec_of(deletes_in(keys))
            + " whole-key delete(s))"@,
        "  values      "@ + dec_of(capped(total_values(keys)) as nat),
        "  hives       "@ + joined(hive_names(keys, hive_order()), ", "@),
    ]
}

/// The lines of what is to be said of a file.
pub open spec fn inspection_tail(d: Inspection) -> Seq<Seq<char>> {
    behind_each("  note        "@, views(d.notes@)) + behind_each(
        "  loss        "@,
        views(d.losses@),
    ) + d.conflicts@.map_values(|c: FoundConflict| found_conflict_row(c))
}

/// The line that tells of keys without a per-user equivalent.
pub open spec fn inspection_refused(refused: nat) -> Seq<Seq<char>> {
    if refused > 0 {
        seq![
            "  "@ + dec_of(refused)
                + " key(s) have no per-user equivalent; `regx convert` shows which"@,
        ]
    } else {
        Seq::empty()
    }
}

/// The lines of an inspected file. `format` is the format as it is shown.
pub open spec fn inspection_rows(d: Inspection, format: Seq<char>) -> Seq<Seq<char>> {
    inspection_head(d, format) + inspection_tail(d) + inspection_refused(
        refused_in(views(d.data.keys@)),
    )
}

fn push_optional(out: &mut Vec<String>, beginning: &str, text: &Option<String>)
    ensures
        views(final(out)@) == views(old(out)@) + optional_row(beginning@, opt_text(*text)),
{
    let ghost start = views(out@);
    match text {
        Some(t) => {
            push_line(out, concat(beginning, t.as_str()));
        },
        None => {
            assert(start + Seq::<Seq<char>>::empty() =~= start);
        },
    }
}

fn push_inspection_head(out: &mut Vec<String>, d: &Inspection, format: &str)
    ensures
        views(final(out)@) == views(old(out)@) + inspection_head(*d, format@),
{
    let ghost start = views(out@);
    let ghost keys = views(d.data.keys@);
    push_line(out, d.label.clone());
    push_line(out, concat("  format      ", format));
    push_optional(out, "  encoding    ", &d.encoding);
    push_optional(out, "  dialect     ", &d.dialect);
    let mut blocks = "  key blocks  ".to_owned();
    push_dec(&mut blocks, d.data.keys.len() as u64);
    blocks.append(" (");
    push_dec(&mut blocks, count_deletes(&d.data.keys) as u64);
    blocks.append(" whole-key delete(s))");
    push_line(out, blocks);
    let mut values = "  values      ".to_owned();
    push_dec(&mut values, count_values(&d.data.keys) as u64);
    push_line(out, values);
    let names = hives_of(&d.data.keys);
    push_line(out, concat("  hives       ", join(names.as_slice(), ", ").as_str()));
    assert(views(out@) =~= start + inspection_head(*d, format@));
}

fn push_inspection_tail(out: &mut Vec<String>, d: &Inspection)
    ensures
        views(final(out)@) == views(old(out)@) + inspection_tail(*d),
{
    let ghost start = views(out@);
    push_each(out, "  note        ", &d.notes);
    push_each(out, "  loss        ", &d.losses);
    let ghost said = behind_each("  note        "@, views(d.notes@)) + behind_each(
        "  loss        "@,
        views(d.losses@),
    );
    assert(views(out@) =~= start + said);
    let ghost row = |c: FoundConflict| found_conflict_row(c);
    for i in 0..d.conflicts.len()
        invariant
            row == (|c: FoundConflict| found_conflict_row(c)),
            views(out@) =~= start + (said + d.conflicts@.take(i as int).map_values(row)),
    {
        let c = &d.conflicts[i];
        let mut line = concat3("  conflict    ", c.path.as_str(), "\\");
        line.append(c.value.as_str());
        line.append(": line ");
        push_dec(&mut line, c.first_line as u64);
        line.append(" ");
        line.append(crate::text::to_debug(c.old.as_str()).as_str());
        line.append(" overridden by line ");
        push_dec(&mut line, c.last_line as u64);
        line.append(" ");
        line.append(crate::text::to_debug(c.new.as_str()).as_str());
        push_line(out, line);
    }
    assert(d.conflicts@.take(d.conflicts@.len() as int) =~= d.conflicts@);
}

/// The lines of an inspected file. `format` is the format as it is shown.
pub fn inspection_lines(d: &Inspection, format: &str) -> (out: Vec<String>)
    ensures
        views(out@) == inspection_rows(*d, format@),
{
    let mut out: Vec<String> = Vec::new();
    push_inspection_head(&mut out, d, format);
    assert(views(out@) =~= inspection_head(*d, format@));
    push_inspection_tail(&mut out, d);
    let refused = count_refused(&d.data.keys);
    let ghost before = views(out@);
    if refused > 0 {
        let mut line = "  ".to_owned();
        push_dec(&mut line, refused as u64);
        line.append(" key(s) have no per-user equivalent; `regx convert` shows which");
        push_line(&mut out, line);
    }
    assert(views(out@) =~= before + inspection_refused(refused as nat));
    out
}

// ---------------------------------------------------------------------------
// Formats
// ---------------------------------------------------------------------------

/// The line of a format.
pub open spec fn format_row(e: (Seq<char>, Seq<char>, Seq<char>)) -> Seq<char> {
    "  "@ + padded(e.0, 6) + " "@ + padded(e.1, 14) + " "@ + e.2
}

/// The lines of the input formats.
pub open spec fn formats_rows() -> Seq<Seq<char>> {
    seq!["Input formats (detected from content first, extension second):"@, ""@]
        + known_formats().map_values(|e: (Seq<char>, Seq<char>, Seq<char>)| format_row(e)) + seq![
        ""@,
        "Force one with --from <FORMAT> on import, convert, sync or inspect."@,
        "A Registry.pol carries no hive of its own: it is inferred from a Machine\\ or"@,
        "User\\ path component, or set with --pol-root."@,
    ]
}

/// The lines of the input formats.
pub fn formats_lines() -> (out: Vec<String>)
    ensures
        views(out@) == formats_rows(),
{
    let table = format_table();
    let ghost all = known_formats();
    let ghost row = |e: (Seq<char>, Seq<char>, Seq<char>)| format_row(e);
    let mut out: Vec<String> = Vec::new();
    push_line(
        &mut out,
        "Input formats (detected from content first, extension second):".to_owned(),
    );
    push_line(&mut out, "".to_owned());
    let ghost head = seq![
        "Input formats (detected from content first, extension second):"@,
        ""@,
    ];
    for i in 0..table.len()
        invariant
            table@.map_values(|e: FormatEntry| entry_of(e)) == all,
            row == (|e: (Seq<char>, Seq<char>, Seq<char>)| format_row(e)),
            views(out@) =~= head + all.take(i as int).map_values(row),
    {
        assert(all[i as int] == entry_of(table@[i as int]));
        let mut line = concat3("  ", pad(table[i].name, 6).as_str(), " ");
        line.append(pad(table[i].typical, 14).as_str());
        line.append(" ");
        line.append(table[i].notes);
        push_line(&mut out, line);
    }
    assert(all.take(all.len() as int) =~= all);
    let ghost before = views(out@);
    push_line(&mut out, "".to_owned());
    push_line(
        &mut out,
        "Force one with --from <FORMAT> on import, convert, sync or inspect.".to_owned(),
    );
    push_line(
        &mut out,
        "A Registry.pol carries no hive of its own: it is inferred from a Machine\\ or".to_owned(),
    );
    push_line(&mut out, "User\\ path component, or set with --pol-root.".to_owned());
    assert(views(out@) =~= before + seq![
        ""@,
        "Force one with --from <FORMAT> on import, convert, sync or inspect."@,
        "A Registry.pol carries no hive of its own: it is inferred from a Machine\\ or"@,
        "User\\ path component, or set with --pol-root."@,
    ]);
    out
}

} // verus!
