//! Reports as lines of text.
use vstd::prelude::*;

use crate::apply::{ApplyReport, ViewApplyReport};
use crate::model::{
    name_text, path_text, preview_of, type_id_of, type_name_of, BlockView, EntryView, KeyBlock,
};
use crate::number::{dec_of, push_dec};
use crate::report::{
    count_views, display_path, field_name, label_below, name_of_field, TypeCount,
};
use crate::saved_plan::Snapshot;
use crate::search::{Match, MatchView};
use crate::select::RegistryStats;
use crate::selfcheck::{Finding, FindingView, Verdict};
use crate::text::{chars_of, concat, concat3, opt_text, views, views_concat, views_push};

verus! {

// ---------------------------------------------------------------------------
// Columns
// ---------------------------------------------------------------------------

/// `n` spaces.
pub open spec fn spaces(n: int) -> Seq<char>
    decreases n,
{
    if n <= 0 {
        Seq::empty()
    } else {
        spaces(n - 1).push(' ')
    }
}

/// A text filled up with spaces to a width; a longer one stays as it is.
pub open spec fn padded(s: Seq<char>, width: int) -> Seq<char> {
    s + spaces(width - s.len())
}

/// A text filled up with spaces to a width.
pub fn pad(s: &str, width: usize) -> (out: String)
    ensures
        out@ == padded(s@, width as int),
{
    let mut out = s.to_owned();
    let used = chars_of(s).len();
    let missing: usize = if used < width {
        width - used
    } else {
        0
    };
    for i in 0..missing
        invariant
            out@ == s@ + spaces(i as int),
    {
        let ghost before = out@;
        out.push(' ');
        assert(out@ =~= s@ + spaces(i + 1));
    }
    assert(spaces(missing as int) == spaces(width - s@.len()));
    out
}

/// A padded text fills its column.
pub proof fn padding_fills_the_column(s: Seq<char>, width: int)
    ensures
        padded(s, width).len() == if s.len() < width {
            width
        } else {
            s.len() as int
        },
        padded(s, width).take(s.len() as int) == s,
{
    spaces_count(width - s.len());
    assert(padded(s, width).take(s.len() as int) =~= s);
}

proof fn spaces_count(n: int)
    ensures
        spaces(n).len() == if n > 0 {
            n
        } else {
            0
        },
    decreases n,
{
    if n > 0 {
        spaces_count(n - 1);
    }
}

// ---------------------------------------------------------------------------
// Queries
// ---------------------------------------------------------------------------

/// The line of a value.
pub open spec fn value_row(v: EntryView) -> Seq<char> {
    "    "@ + padded(name_text(v.name), 28) + " "@ + padded(
        type_name_of(type_id_of(v.data)),
        14,
    ) + " "@ + preview_of(v.data)
}

/// The lines of a key.
pub open spec fn key_rows(root: Option<Seq<char>>, b: BlockView) -> Seq<Seq<char>> {
    seq![label_below(root, b.path)] + b.values.map_values(|v: EntryView| value_row(v))
}

/// The lines of the keys of a query.
pub open spec fn query_rows(root: Option<Seq<char>>, keys: Seq<BlockView>) -> Seq<Seq<char>>
    decreases keys.len(),
{
    if keys.len() == 0 {
        Seq::empty()
    } else {
        query_rows(root, keys.drop_last()) + key_rows(root, keys.last())
    }
}

fn render_key_rows(root: &Option<String>, b: &KeyBlock) -> (out: Vec<String>)
    ensures
        views(out@) == key_rows(opt_text(*root), b@),
{
    broadcast use views_push;

    let ghost all = views(b.values@);
    let head = display_path(root, &b.path);
    let ghost first = head@;
    let mut out: Vec<String> = Vec::new();
    out.push(head);
    for i in 0..b.values.len()
        invariant
            all == views(b.values@),
            views(out@) =~= seq![first] + all.take(i as int).map_values(
                |v: EntryView| value_row(v),
            ),
    {
        let v = &b.values[i];
        let mut one = concat("    ", pad(v.name.to_string().as_str(), 28).as_str());
        one.append(" ");
        one.append(pad(v.data.type_label(), 14).as_str());
        one.append(" ");
        one.append(v.data.preview().as_str());
        let ghost before = out@;
        out.push(one);
        assert(views(out@) == views(before).push(one@));
    }
    assert(all.take(all.len() as int) =~= all);
    out
}

/// The lines of the keys of a query.
pub fn render_query_text(keys: &Vec<KeyBlock>, root: &Option<String>) -> (out: Vec<String>)
    ensures
        views(out@) == query_rows(opt_text(*root), views(keys@)),
{
    let ghost all = views(keys@);
    let mut out: Vec<String> = Vec::new();
    assert(views(out@) =~= Seq::<Seq<char>>::empty());
    assert(all.take(0) =~= Seq::<BlockView>::empty());
    for i in 0..keys.len()
        invariant
            all == views(keys@),
            views(out@) == query_rows(opt_text(*root), all.take(i as int)),
    {
        assert(all.take(i + 1).drop_last() =~= all.take(i as int));
        assert(all.take(i + 1).last() == keys@[i as int]@);
        let mut more = render_key_rows(root, &keys[i]);
        proof {
            views_concat(out@, more@);
        }
        out.append(&mut more);
    }
    assert(all.take(all.len() as int) =~= all);
    out
}

// ---------------------------------------------------------------------------
// Searches
// ---------------------------------------------------------------------------

/// The line of a match; a match of a key has no value.
pub open spec fn match_row(m: MatchView) -> Seq<char> {
    match m.value {
        Some(v) => padded(field_name(m.field), 4) + " "@ + path_text(m.path) + "\\"@ + name_text(
            v.name,
        ) + "  "@ + type_name_of(type_id_of(v.data)) + "  "@ + preview_of(v.data),
        None => padded(field_name(m.field), 4) + " "@ + path_text(m.path),
    }
}

/// The lines of matches.
pub fn search_matches_text(matches: &Vec<Match>) -> (out: Vec<String>)
    ensures
        views(out@) == views(matches@).map_values(|m: MatchView| match_row(m)),
{
    broadcast use views_push;

    let ghost all = views(matches@);
    let mut out: Vec<String> = Vec::new();
    for i in 0..matches.len()
        invariant
            all == views(matches@),
            views(out@) =~= all.take(i as int).map_values(|m: MatchView| match_row(m)),
    {
        let m = &matches[i];
        let mut one = pad(name_of_field(m.field), 4);
        one.append(" ");
        one.append(m.path.to_string().as_str());
        if let Some(v) = &m.exact {
            one.append("\\");
            one.append(v.name.to_string().as_str());
            one.append("  ");
            one.append(v.data.type_label());
            one.append("  ");
            one.append(v.data.preview().as_str());
        }
        assert(one@ == match_row(m@));
        let ghost before = out@;
        out.push(one);
        assert(views(out@) == views(before).push(one@));
    }
    assert(all.take(all.len() as int) =~= all);
    out
}

// ---------------------------------------------------------------------------
// Changes
// ---------------------------------------------------------------------------

/// The counts of a change in words.
pub open spec fn apply_row(r: ApplyReport, dry_run: bool) -> Seq<char> {
    let would = if dry_run {
        "would "@
    } else {
        ""@
    };
    "regx: "@ + would + "create "@ + dec_of(r.keys_created as nat) + " key(s), "@ + would
        + "delete "@ + dec_of(r.keys_deleted as nat) + " key(s), "@ + would + "set "@ + dec_of(
        r.values_set as nat,
    ) + " value(s), "@ + would + "delete "@ + dec_of(r.values_deleted as nat) + " value(s)"@
}

/// The lines of a change.
pub open spec fn apply_rows(r: ApplyReport, dry_run: bool) -> Seq<Seq<char>> {
    seq![apply_row(r, dry_run)] + r.failures@.map_values(
        |f: (String, String)| "  failed "@ + f.0@ + ": "@ + f.1@,
    )
}

/// The lines of a change.
pub fn apply_text(report: &ApplyReport, dry_run: bool) -> (out: Vec<String>)
    ensures
        views(out@) == apply_rows(*report, dry_run),
{
    broadcast use views_push;

    let would = if dry_run {
        "would "
    } else {
        ""
    };
    let mut head = concat3("regx: ", would, "create ");
    push_dec(&mut head, report.keys_created as u64);
    head.append(" key(s), ");
    head.append(would);
    head.append("delete ");
    push_dec(&mut head, report.keys_deleted as u64);
    head.append(" key(s), ");
    head.append(would);
    head.append("set ");
    push_dec(&mut head, report.values_set as u64);
    head.append(" value(s), ");
    head.append(would);
    head.append("delete ");
    push_dec(&mut head, report.values_deleted as u64);
    head.append(" value(s)");
    let ghost first = head@;
    assert(first == apply_row(*report, dry_run));
    let mut out: Vec<String> = Vec::new();
    out.push(head);
    for i in 0..report.failures.len()
        invariant
            views(out@) =~= seq![first] + report.failures@.take(i as int).map_values(
                |f: (String, String)| "  failed "@ + f.0@ + ": "@ + f.1@,
            ),
    {
        let mut one = concat3("  failed ", report.failures[i].0.as_str(), ": ");
        one.append(report.failures[i].1.as_str());
        let ghost before = out@;
        out.push(one);
        assert(views(out@) == views(before).push(one@));
    }
    assert(report.failures@.take(report.failures@.len() as int) =~= report.failures@);
    out
}

/// The lines of what became of one view.
pub open spec fn view_rows(v: ViewApplyReport, dry_run: bool) -> Seq<Seq<char>> {
    seq!["regx: view "@ + v.label@] + (match v.applied {
        Some(r) => apply_rows(r, dry_run),
        None => seq!["regx: not attempted because an earlier view failed"@],
    }) + (match v.rollback {
        Some(r) => seq!["regx: rollback:"@] + apply_rows(r, dry_run),
        None => Seq::empty(),
    })
}

/// The lines of what became of one view.
pub fn view_apply_text(v: &ViewApplyReport, dry_run: bool) -> (out: Vec<String>)
    ensures
        views(out@) == view_rows(*v, dry_run),
{
    let mut out: Vec<String> = Vec::new();
    out.push(concat("regx: view ", v.label.as_str()));
    let mut applied = match &v.applied {
        Some(r) => apply_text(r, dry_run),
        None => vec!["regx: not attempted because an earlier view failed".to_owned()],
    };
    proof {
        assert(views(out@) =~= seq!["regx: view "@ + v.label@]);
        if v.applied is None {
            assert(views(applied@) =~= seq!["regx: not attempted because an earlier view failed"@]);
        }
        views_concat(out@, applied@);
    }
    out.append(&mut applied);
    let mut back: Vec<String> = Vec::new();
    assert(views(back@) =~= Seq::<Seq<char>>::empty());
    if let Some(r) = &v.rollback {
        back.push("regx: rollback:".to_owned());
        let mut more = apply_text(r, dry_run);
        proof {
            assert(views(back@) =~= seq!["regx: rollback:"@]);
            views_concat(back@, more@);
        }
        back.append(&mut more);
    }
    proof {
        views_concat(out@, back@);
    }
    out.append(&mut back);
    out
}

/// The line that tells what a snapshot holds.
pub fn captured_text(snapshot: &Snapshot) -> (out: String)
    ensures
        out@ == dec_of(snapshot.restored_values as nat) + " value(s) captured, "@ + dec_of(
            snapshot.new_keys@.len(),
        ) + " key(s) to remove on rollback"@,
{
    let mut out = crate::number::to_dec(snapshot.restored_values as u64);
    out.append(" value(s) captured, ");
    push_dec(&mut out, snapshot.new_keys.len() as u64);
    out.append(" key(s) to remove on rollback");
    out
}

/// The lines of a view that could not be read in full; five targets are named.
pub open spec fn unreadable_rows(
    label: Seq<char>,
    unreadable: Seq<(String, String)>,
) -> Seq<Seq<char>> {
    let shown = if unreadable.len() > 5 {
        unreadable.take(5)
    } else {
        unreadable
    };
    seq!["  view "@ + label + ": "@ + dec_of(unreadable.len()) + " unreadable target(s)"@]
        + shown.map_values(|f: (String, String)| "    "@ + f.0@ + ": "@ + f.1@)
}

/// The lines of a view that could not be read in full.
pub fn unreadable_text(label: &str, unreadable: &Vec<(String, String)>) -> (out: Vec<String>)
    ensures
        views(out@) == unreadable_rows(label@, unreadable@),
{
    broadcast use views_push;

    let mut head = concat3("  view ", label, ": ");
    push_dec(&mut head, unreadable.len() as u64);
    head.append(" unreadable target(s)");
    let ghost first = head@;
    let mut out: Vec<String> = Vec::new();
    out.push(head);
    let shown: usize = if unreadable.len() > 5 {
        5
    } else {
        unreadable.len()
    };
    for i in 0..shown
        invariant
            shown <= unreadable@.len(),
            views(out@) =~= seq![first] + unreadable@.take(i as int).map_values(
                |f: (String, String)| "    "@ + f.0@ + ": "@ + f.1@,
            ),
    {
        let mut one = concat3("    ", unreadable[i].0.as_str(), ": ");
        one.append(unreadable[i].1.as_str());
        let ghost before = out@;
        out.push(one);
        assert(views(out@) == views(before).push(one@));
    }
    assert(unreadable@.take(unreadable@.len() as int) =~= unreadable@);
    out
}

// ---------------------------------------------------------------------------
// Statistics
// ---------------------------------------------------------------------------

/// A label with a number behind it.
pub open spec fn count_row(label: Seq<char>, n: nat) -> Seq<char> {
    label + dec_of(n)
}

fn render_count(label: &str, n: usize) -> (out: String)
    ensures
        out@ == count_row(label@, n as nat),
{
    let mut out = label.to_owned();
    push_dec(&mut out, n as u64);
    out
}

/// The lines of statistics.
pub open spec fn stats_rows(
    s: RegistryStats,
    conflicts: nat,
    incomplete: bool,
    types: Seq<(Seq<char>, usize)>,
) -> Seq<Seq<char>> {
    seq![
        count_row("keys          "@, s.keys as nat),
        count_row("values        "@, s.values as nat),
        count_row("key deletes   "@, s.key_deletes as nat),
        count_row("value deletes "@, s.value_deletes as nat),
        count_row("max depth     "@, s.max_depth as nat),
        count_row("payload bytes "@, s.payload_bytes as nat),
        count_row("conflicts     "@, conflicts),
        "incomplete    "@ + crate::json::json_bool(incomplete),
    ] + types.map_values(
        |t: (Seq<char>, usize)| "type "@ + padded(t.0, 20) + " "@ + dec_of(t.1 as nat),
    )
}

/// The lines of statistics.
pub fn stats_lines(
    stats: &RegistryStats,
    conflicts: usize,
    incomplete: bool,
    types: &Vec<TypeCount>,
) -> (out: Vec<String>)
    ensures
        views(out@) == stats_rows(*stats, conflicts as nat, incomplete, count_views(types@)),
{
    broadcast use views_push;

    let mut out = vec![
        render_count("keys          ", stats.keys),
        render_count("values        ", stats.values),
        render_count("key deletes   ", stats.key_deletes),
        render_count("value deletes ", stats.value_deletes),
        render_count("max depth     ", stats.max_depth),
        render_count("payload bytes ", stats.payload_bytes),
        render_count("conflicts     ", conflicts),
        concat("incomplete    ", crate::json::jbool(incomplete)),
    ];
    let ghost head = views(out@);
    let ghost all = count_views(types@);
    for i in 0..types.len()
        invariant
            all == count_views(types@),
            views(out@) =~= head + all.take(i as int).map_values(
                |t: (Seq<char>, usize)| "type "@ + padded(t.0, 20) + " "@ + dec_of(t.1 as nat),
            ),
    {
        assert(all[i as int] == (types@[i as int].name@, types@[i as int].count));
        let mut one = concat3("type ", pad(types[i].name.as_str(), 20).as_str(), " ");
        push_dec(&mut one, types[i].count as u64);
        let ghost before = out@;
        out.push(one);
        assert(views(out@) == views(before).push(one@));
    }
    assert(all.take(all.len() as int) =~= all);
    assert(views(out@) =~= stats_rows(*stats, conflicts as nat, incomplete, all));
    out
}

// ---------------------------------------------------------------------------
// Self-check
// ---------------------------------------------------------------------------

/// The mark of a verdict.
pub open spec fn verdict_mark(v: Verdict) -> Seq<char> {
    match v {
        Verdict::Fine => "  [ok  ] "@,
        Verdict::Note => "  [note] "@,
        Verdict::Warn => "  [WARN] "@,
    }
}

/// The line of a finding.
pub open spec fn finding_row(f: FindingView) -> Seq<char> {
    verdict_mark(f.verdict) + padded(f.area, 16) + " "@ + f.detail
}

/// The line of a rule of the policy.
pub open spec fn policy_row(line: Seq<char>) -> Seq<char> {
    "  [pol ] "@ + padded("administration"@, 16) + " "@ + line
}

/// The lines of a self-check.
pub open spec fn self_check_rows(
    findings: Seq<FindingView>,
    policy: Seq<Seq<char>>,
) -> Seq<Seq<char>> {
    seq!["regx self-check"@] + policy.map_values(|l: Seq<char>| policy_row(l))
        + findings.map_values(|f: FindingView| finding_row(f))
}

/// The lines of a self-check.
pub fn self_check_text(findings: &Vec<Finding>, policy: &Vec<String>) -> (out: Vec<String>)
    ensures
        views(out@) == self_check_rows(views(findings@), views(policy@)),
{
    broadcast use views_push;

    let mut out: Vec<String> = Vec::new();
    out.push("regx self-check".to_owned());
    let ghost title = views(out@);
    assert(title =~= seq!["regx self-check"@]);
    let ghost ps = views(policy@);
    for i in 0..policy.len()
        invariant
            ps == views(policy@),
            views(out@) =~= title + ps.take(i as int).map_values(|l: Seq<char>| policy_row(l)),
    {
        let mut one = concat3("  [pol ] ", pad("administration", 16).as_str(), " ");
        one.append(policy[i].as_str());
        let ghost before = out@;
        out.push(one);
        assert(views(out@) == views(before).push(one@));
    }
    assert(ps.take(ps.len() as int) =~= ps);
    let ghost head = views(out@);
    let ghost fs = views(findings@);
    for i in 0..findings.len()
        invariant
            fs == views(findings@),
            views(out@) =~= head + fs.take(i as int).map_values(|f: FindingView| finding_row(f)),
    {
        let f = &findings[i];
        let mut one = concat3(
            match f.verdict {
                Verdict::Fine => "  [ok  ] ",
                Verdict::Note => "  [note] ",
                Verdict::Warn => "  [WARN] ",
            },
            pad(f.area, 16).as_str(),
            " ",
        );
        one.append(f.detail.as_str());
        assert(one@ == finding_row(f@));
        let ghost before = out@;
        out.push(one);
        assert(views(out@) == views(before).push(one@));
    }
    assert(fs.take(fs.len() as int) =~= fs);
    out
}

} // verus!
