//! What the rows, names and questions of a report tell.
use vstd::prelude::*;

use crate::apply::{evidence_json, ApplyReport};
use crate::diff::{change_name, Change, ValueDiffView};
use crate::hive_report::met;
use crate::inspection::verdict_name;
use crate::json::json_string;
use crate::listing::{record_rows, sign_of, value_rows, values_rows, Signs};
use crate::model::{name_text, path_text, preview_of, BlockView, DataView, EntryView, PathView};
use crate::notice::{listing_text, Listing};
use crate::number::dec_of;
use crate::parts::pair_text;
use crate::planning::{change_line, stale_text};
use crate::question::{question_text, Question};
use crate::report::{
    change_json, differences, field_name, label_below, match_json, op_name, pair_json, plan_data,
    plan_text, query_json, query_key, query_lines, written_json, PermissionView, PlanChange,
    PlanOp, WrittenFile,
};
use crate::search::{Field, MatchView};
use crate::selfcheck::{FindingView, Verdict};
use crate::shortcut::{style_name, ShowStyle};
use crate::shortcut_changes::{link_line, operation_name};
use crate::shortcut_manifest::ActionView;
use crate::telling::{tells, told_first_words, told_on, told_words};
use crate::text::trimmed;
use crate::text_report::{
    apply_row, apply_rows, finding_row, key_rows, padded, query_rows, value_row,
};

verus! {

// ---------------------------------------------------------------------------
// Names
// ---------------------------------------------------------------------------

/// Changes, operations, fields and verdicts go by names that say what they are.
pub proof fn names_say_what_is_meant()
    ensures
        change_name(Change::Added) == "added"@,
        change_name(Change::Modified) == "modified"@,
        change_name(Change::Removed) == "removed"@,
        op_name(PlanOp::KeyCreate) == "key.create"@,
        op_name(PlanOp::KeyDelete) == "key.delete"@,
        op_name(PlanOp::ValueSet) == "value.set"@,
        op_name(PlanOp::ValueDelete) == "value.delete"@,
        field_name(Field::Key) == "key"@,
        field_name(Field::Name) == "name"@,
        field_name(Field::Type) == "type"@,
        field_name(Field::Data) == "data"@,
        verdict_name(Verdict::Fine) == "ok"@,
        verdict_name(Verdict::Note) == "note"@,
        verdict_name(Verdict::Warn) == "warn"@,
        style_name(ShowStyle::Normal) == "normal"@,
        style_name(ShowStyle::Hidden) == "hidden"@,
        style_name(ShowStyle::Minimized) == "minimized"@,
{
}

/// An action is named after what it does.
pub proof fn actions_are_named_after_what_they_do(a: ActionView)
    ensures
        operation_name(a) == "create"@ <==> a is Create,
        operation_name(a) == "delete"@ <==> a is Delete,
{
    reveal_strlit("create");
    reveal_strlit("delete");
    assert("create"@[0] == 'c' && "delete"@[0] == 'd');
}

// ---------------------------------------------------------------------------
// Documents
// ---------------------------------------------------------------------------

/// A planned change tells its operation and its key, and the data before and
/// after, each in its place.
pub proof fn planned_changes_are_told(indent: Seq<char>, c: PlanChange, redact: bool)
    ensures
        ({
            let name = match c.name {
                Some(n) => n@,
                None => None,
            };
            &&& tells(change_json(indent, c, redact), "{\"op\": "@, json_string(op_name(c.op)))
            &&& tells(
                change_json(indent, c, redact),
                ", \"path\": "@,
                json_string(path_text(c.path@)),
            )
            &&& tells(
                change_json(indent, c, redact),
                ", \"before\": "@,
                plan_data(name, crate::diff::opt_data(c.before), redact),
            )
            &&& tells(
                change_json(indent, c, redact),
                ", \"after\": "@,
                plan_data(name, crate::diff::opt_data(c.after), redact),
            )
        }),
{
    broadcast use {told_on, told_words, told_first_words};

}

/// Data that is not redacted is told by its type, as it reads and as it is.
pub proof fn planned_data_is_told(name: Option<Seq<char>>, d: DataView)
    ensures
        plan_data(name, None, false) == "null"@,
        tells(
            plan_data(name, Some(d), false),
            "{\"type\": "@,
            json_string(crate::model::type_name_of(crate::model::type_id_of(d))),
        ),
        tells(plan_data(name, Some(d), false), ", \"data\": "@, json_string(preview_of(d))),
        tells(
            plan_data(name, Some(d), false),
            ", \"exact\": "@,
            crate::writer::value_json(EntryView { name, data: d, line: 0 }),
        ),
{
    broadcast use {told_on, told_words, told_first_words};

}

/// A pair is told under its two names, the first before the second.
pub proof fn pairs_are_told(
    indent: Seq<char>,
    first: Seq<char>,
    second: Seq<char>,
    p: (String, String),
)
    ensures
        pair_json(indent, first, second, p) == indent + ("{\""@ + first + "\": "@ + json_string(
            p.0@,
        )) + (", \""@ + second + "\": "@ + json_string(p.1@)) + "}"@,
        pair_text(first, second, p) == ("{\""@ + first + "\":"@ + json_string(p.0@)) + (",\""@
            + second + "\":"@ + json_string(p.1@)) + "}"@,
{
    assert(pair_json(indent, first, second, p) =~= indent + ("{\""@ + first + "\": "@
        + json_string(p.0@)) + (", \""@ + second + "\": "@ + json_string(p.1@)) + "}"@);
    assert(pair_text(first, second, p) =~= ("{\""@ + first + "\":"@ + json_string(p.0@)) + (",\""@
        + second + "\":"@ + json_string(p.1@)) + "}"@);
}

/// A match tells the field it was found in and its key; of a value also its
/// name, its type and its data.
pub proof fn found_matches_are_told(m: MatchView)
    ensures
        tells(match_json(m), "    {\"field\": "@, json_string(field_name(m.field))),
        tells(match_json(m), ", \"path\": "@, json_string(path_text(m.path))),
        m.value matches Some(v) ==> {
            &&& tells(match_json(m), ", \"name\": "@, json_string(name_text(v.name)))
            &&& tells(
                match_json(m),
                ", \"type\": "@,
                json_string(crate::model::type_name_of(crate::model::type_id_of(v.data))),
            )
            &&& tells(match_json(m), ", \"data\": "@, json_string(preview_of(v.data)))
            &&& tells(match_json(m), ", \"exact\": "@, crate::writer::value_json(v))
        },
{
    broadcast use {told_on, told_words, told_first_words};

}

/// What was written is told by its path, its size and its digest, each under its
/// own name.
pub proof fn written_files_are_told(
    path: Seq<char>,
    bytes: Seq<char>,
    digest: Seq<char>,
    w: WrittenFile,
    size: u64,
    hash: Seq<char>,
)
    ensures
        tells(written_json(path, bytes, digest, Some(w)), path, json_string(w.path@)),
        tells(written_json(path, bytes, digest, Some(w)), bytes, dec_of(w.bytes as nat)),
        tells(written_json(path, bytes, digest, Some(w)), digest, json_string(w.sha256@)),
        evidence_json(bytes, digest, Some((size, hash))) == "\""@ + bytes + "\":"@ + dec_of(
            size as nat,
        ) + ",\""@ + digest + "\":"@ + json_string(hash),
{
    broadcast use {told_on, told_words, told_first_words};

}

/// A key of a file that has a root of its own is told below that root.
pub proof fn keys_are_told_below_their_root(root: Seq<char>, p: PathView)
    ensures
        label_below(None, p) == path_text(p),
        label_below(Some(root), p) == (if p.sub.len() == 0 {
            root
        } else {
            root + seq!['\\'] + p.sub
        }),
{
    reveal_strlit("\\");
    assert("\\"@ =~= seq!['\\']);
}

/// Every key of a query is told once, in order.
pub proof fn query_documents_tell_every_key(
    root: Option<Seq<char>>,
    keys: Seq<BlockView>,
    i: int,
)
    requires
        0 <= i < keys.len(),
    ensures
        query_lines(root, keys, 0) == Seq::<char>::empty(),
        query_lines(root, keys, i + 1) == query_lines(root, keys, i) + query_key(root, keys[i])
            + (if i + 1 < keys.len() {
            ",\n"@
        } else {
            "\n"@
        }),
        query_json(root, keys) == "[\n"@ + query_lines(root, keys, keys.len() as int) + "]"@,
{
    let end = if i + 1 < keys.len() {
        ",\n"@
    } else {
        "\n"@
    };
    assert(query_lines(root, keys, i + 1) == query_lines(root, keys, i) + crate::report::query_line(
        root,
        keys,
        i,
    ));
    assert(query_lines(root, keys, i) + (query_key(root, keys[i]) + end) =~= query_lines(
        root,
        keys,
        i,
    ) + query_key(root, keys[i]) + end);
}

/// A fingerprint meets what was expected of it where it is that fingerprint and
/// something was there to take it of; nothing is met where nothing was expected.
pub proof fn expectations_are_met_by_their_digest(
    expected: Option<Seq<char>>,
    matched: bool,
    digest: Seq<char>,
)
    ensures
        met(expected, matched, digest) is Some <==> expected is Some,
        met(expected, matched, digest) == Some(true) <==> matched && expected == Some(digest),
{
}

/// A difference between permissions is told under the name of the field that
/// differs.
pub proof fn differing_permissions_are_told(a: PermissionView, b: PermissionView)
    ensures
        differences(a, b).len() == 0 <==> a.owner_sid@ == b.owner_sid@ && a.inheritance_enabled
            == b.inheritance_enabled && a.sddl@ == b.sddl@ && a.query == b.query && a.enumerate
            == b.enumerate && a.notify == b.notify && a.set_value == b.set_value && a.create_subkey
            == b.create_subkey && a.delete == b.delete,
        a.owner_sid@ != b.owner_sid@ ==> differences(a, b)[0] == "ownerSid"@,
        a.delete != b.delete ==> differences(a, b).last() == "effective.delete"@,
{
}

// ---------------------------------------------------------------------------
// Rows
// ---------------------------------------------------------------------------

/// Rows of keys follow each other as the keys do, each key before its values.
pub proof fn query_rows_add_up(root: Option<Seq<char>>, keys: Seq<BlockView>, b: BlockView, i: int)
    ensures
        query_rows(root, keys.push(b)) == query_rows(root, keys) + key_rows(root, b),
        key_rows(root, b).len() == b.values.len() + 1,
        key_rows(root, b)[0] == label_below(root, b.path),
        0 <= i < b.values.len() ==> key_rows(root, b)[i + 1] == value_row(b.values[i]),
{
    assert(keys.push(b).drop_last() =~= keys);
}

/// A row tells what was created, deleted and set, in this order.
pub proof fn applied_changes_are_told(r: ApplyReport)
    ensures
        apply_row(r, false) == "regx: create "@ + dec_of(r.keys_created as nat)
            + " key(s), delete "@ + dec_of(r.keys_deleted as nat) + " key(s), set "@ + dec_of(
            r.values_set as nat,
        ) + " value(s), delete "@ + dec_of(r.values_deleted as nat) + " value(s)"@,
        apply_rows(r, false).len() == r.failures@.len() + 1,
{
    reveal_strlit("");
    reveal_strlit("regx: ");
    reveal_strlit("create ");
    reveal_strlit("regx: create ");
    reveal_strlit(" key(s), ");
    reveal_strlit("delete ");
    reveal_strlit(" key(s), delete ");
    reveal_strlit("set ");
    reveal_strlit(" key(s), set ");
    reveal_strlit(" value(s), ");
    reveal_strlit(" value(s), delete ");
    let none = ""@;
    assert("regx: "@ + none + "create "@ =~= "regx: create "@);
    assert(" key(s), "@ + none + "delete "@ =~= " key(s), delete "@);
    assert(" key(s), "@ + none + "set "@ =~= " key(s), set "@);
    assert(" value(s), "@ + none + "delete "@ =~= " value(s), delete "@);
    let a = dec_of(r.keys_created as nat);
    let b = dec_of(r.keys_deleted as nat);
    let c = dec_of(r.values_set as nat);
    let d = dec_of(r.values_deleted as nat);
    assert(apply_row(r, false) =~= ("regx: "@ + none + "create "@) + a + (" key(s), "@ + none
        + "delete "@) + b + (" key(s), "@ + none + "set "@) + c + (" value(s), "@ + none
        + "delete "@) + d + " value(s)"@);
}

/// A changed value is told with the old data before the new.
pub proof fn changed_values_are_told(v: ValueDiffView, signs: Signs)
    ensures
        v.change == Change::Modified && v.left is Some && v.right is Some ==> {
            &&& value_rows(v, signs).len() == 3
            &&& value_rows(v, signs)[1] == "    - "@ + preview_of(v.left->0)
            &&& value_rows(v, signs)[2] == "    + "@ + preview_of(v.right->0)
        },
        v.change == Change::Added && v.right is Some ==> value_rows(v, signs).len() == 1 && tells(
            value_rows(v, signs)[0],
            " = "@,
            preview_of(v.right->0),
        ),
        v.change == Change::Removed && v.right is None && v.left is Some ==> value_rows(
            v,
            signs,
        ).len() == 1 && tells(value_rows(v, signs)[0], " = "@, preview_of(v.left->0)),
        sign_of(signs, Change::Added) == signs.added@,
        sign_of(signs, Change::Modified) == signs.modified@,
        sign_of(signs, Change::Removed) == signs.removed@,
{
    broadcast use {told_on, told_words, told_first_words};

}

/// The rows of values follow each other as the values do.
pub proof fn value_rows_add_up(values: Seq<ValueDiffView>, v: ValueDiffView, signs: Signs)
    ensures
        values_rows(values.push(v), signs) == values_rows(values, signs) + value_rows(v, signs),
{
    assert(values.push(v).drop_last() =~= values);
}

/// Records of a log are told with their line; blank lines are not.
pub proof fn records_are_told_with_their_line(lines: Seq<Seq<char>>, line: Seq<char>)
    ensures
        trimmed(line).len() == 0 ==> record_rows(lines.push(line)) == record_rows(lines),
        trimmed(line).len() > 0 ==> record_rows(lines.push(line)).len() == record_rows(lines).len()
            + 1 && record_rows(lines.push(line)).drop_last() == record_rows(lines) && tells(
            record_rows(lines.push(line)).last(),
            dec_of(lines.len() + 1),
            "  "@,
        ) && tells(record_rows(lines.push(line)).last(), "  "@, line),
{
    broadcast use {told_on, told_words, told_first_words};

    assert(lines.push(line).drop_last() =~= lines);
    let rows = record_rows(lines.push(line));
    if trimmed(line).len() > 0 {
        assert(rows.drop_last() =~= record_rows(lines));
    }
}

/// A finding is told with the mark of its verdict.
pub proof fn findings_are_told(f: FindingView)
    ensures
        f.verdict == Verdict::Warn ==> finding_row(f) == "  [WARN] "@ + padded(f.area, 16) + " "@
            + f.detail,
        f.verdict == Verdict::Note ==> finding_row(f) == "  [note] "@ + padded(f.area, 16) + " "@
            + f.detail,
        f.verdict == Verdict::Fine ==> finding_row(f) == "  [ok  ] "@ + padded(f.area, 16) + " "@
            + f.detail,
{
}

/// A planned change is told with the data before it and after it.
pub proof fn plan_lines_tell_before_and_after(c: PlanChange, redact: bool)
    requires
        c.name is Some,
    ensures
        tells(
            change_line(c, redact),
            " -> "@,
            plan_text(crate::diff::opt_data(c.after), redact),
        ),
        tells(
            change_line(c, redact),
            "  "@,
            plan_text(crate::diff::opt_data(c.before), redact),
        ),
{
    broadcast use {told_on, told_words, told_first_words};

}

/// A stale plan is refused with what was expected and what was found.
pub proof fn stale_plans_are_told(label: Seq<char>, expected: Seq<char>, found: Seq<char>)
    ensures
        tells(stale_text(label, expected, found), " current state changed (expected "@, expected),
        tells(stale_text(label, expected, found), ", found "@, found),
        tells(stale_text(label, expected, found), "refusing stale saved plan: view "@, label),
{
    broadcast use {told_on, told_words, told_first_words};

}

/// A link is told by its file, and by its target unless it is deleted.
pub proof fn links_are_told(action: Seq<char>, l: crate::shortcut::LinkView, dry_run: bool)
    requires
        action != "delete"@,
    ensures
        link_line(action, l, dry_run) == (if dry_run {
            "Would"@
        } else {
            "Shortcut"@
        }) + " "@ + action + " -> "@ + l.file + (" (target: "@ + l.target + ")"@),
{
}

// ---------------------------------------------------------------------------
// Questions
// ---------------------------------------------------------------------------

/// What is asked about a copy names what is copied before the arrow and where it
/// goes behind it, and says whether it is a move.
pub proof fn questions_name_both_ends(moves: bool, source: String, dest: String, merges: bool)
    ensures
        ({
            let q = question_text(Question::Copy { moves, source, dest, merges });
            &&& tells(q, " "@, source@)
            &&& tells(q, " -> "@, dest@)
            &&& q.len() >= 4
            &&& q.take(4) == (if moves {
                "Move"@
            } else {
                "Copy"@
            })
        }),
        ({
            let q = question_text(Question::CopyBoth { moves, source, dest, merges });
            &&& tells(q, " "@, source@)
            &&& tells(q, " -> "@, dest@)
        }),
{
    broadcast use {told_on, told_words, told_first_words};

    reveal_strlit("Move");
    reveal_strlit("Copy");
    let q = question_text(Question::Copy { moves, source, dest, merges });
    assert(q.take(4) =~= if moves {
        "Move"@
    } else {
        "Copy"@
    });
}

/// What is asked about a value names its old place before the arrow and its new
/// place behind it.
pub proof fn value_questions_name_both_ends(
    moves: bool,
    source: String,
    source_name: String,
    dest: String,
    dest_name: String,
    both: bool,
)
    ensures
        ({
            let q = question_text(
                Question::CopyValue { moves, source, source_name, dest, dest_name, both },
            );
            let action = if moves {
                "Move value"@
            } else {
                "Copy value"@
            };
            let views = if both {
                " in both views"@
            } else {
                ""@
            };
            q == action + " "@ + source@ + "\\"@ + source_name@ + " -> "@ + dest@ + "\\"@
                + dest_name@ + views + "?"@
        }),
{
}

/// Differences are counted in the order added, modified, removed.
pub proof fn counts_are_told_in_order(added: usize, modified: usize, removed: usize)
    ensures
        listing_text(Listing::Differences { added, modified, removed }) == dec_of(added as nat)
            + " added, "@ + dec_of(modified as nat) + " modified, "@ + dec_of(removed as nat)
            + " removed"@,
{
}

/// What stands in the way of a copy is named, with the view it was found in.
pub proof fn what_is_in_the_way_is_named(
    dest: Seq<char>,
    name: Option<Seq<char>>,
    view: Seq<char>,
    path: PathView,
)
    ensures
        tells(
            crate::preparing::value_present_text(dest, name, Some(view)),
            "destination value "@,
            dest,
        ),
        tells(
            crate::preparing::value_present_text(dest, name, Some(view)),
            "\\"@,
            name_text(name),
        ),
        tells(
            crate::preparing::value_present_text(dest, name, Some(view)),
            " already exists in view "@,
            view,
        ),
        tells(
            crate::preparing::present_text(crate::mutation::Ground::Live, path, Some(view)),
            "destination "@,
            path_text(path),
        ),
        tells(
            crate::preparing::present_text(crate::mutation::Ground::Live, path, Some(view)),
            " already exists in view "@,
            view,
        ),
        tells(
            crate::preparing::present_text(crate::mutation::Ground::Offline, path, None),
            "destination "@,
            path.sub,
        ),
{
    broadcast use {told_on, told_words, told_first_words};

}

/// A key outside a subtree is named, and the subtree with it.
pub proof fn strangers_are_named(p: PathView, root: PathView)
    requires
        root.sub.len() > 0,
    ensures
        tells(crate::source::outside_text(p, root), "desired key "@, path_text(p)),
        tells(
            crate::source::outside_text(p, root),
            " is outside hive diff subtree "@,
            root.sub,
        ),
{
    broadcast use {told_on, told_words, told_first_words};

}

} // verus!
