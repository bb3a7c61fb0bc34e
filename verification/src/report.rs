//! Plans, queries and findings as text and JSON.
use vstd::prelude::*;

use crate::diff::opt_data;
use crate::json::{jbool, json_bool, json_opt, json_string, jopt_string, jstr};
use crate::model::{
    name_text, path_text, preview_of, type_id_of, type_name_of, BlockView, DataView, EntryView,
    KeyBlock, PathView, RegData, RegFile, RegPath, ValueEntry, ValueName,
};
use crate::number::{dec_of, dec_of_int, push_dec, to_dec_i32};
use crate::parser::{any_error, DiagView, Diagnostic, OutcomeView, ParseOutcome, Severity};
use crate::saved_plan::Snapshot;
use crate::search::{Field, Match, MatchView, Mode};
use crate::select::{
    capped, count_type, count_values, keys_tally, total_values, RegistryStats, Tally,
};
use crate::sha256::{hash_hex, hash_of};
use crate::shortcut::{style_name, LinkInfo, LinkView};
use crate::text::{
    concat, concat3, join, joined, opt_text, same_str, views, views_push,
};
use crate::writer::{
    data_to_raw, dword_bytes, file_json, push_dword, raw_of, to_json, value_json, value_to_json,
};

verus! {

// ---------------------------------------------------------------------------
// Data in plans
// ---------------------------------------------------------------------------

/// The bytes whose digest stands for redacted data: the type and the data as
/// they are stored, or a word for a deletion.
pub open spec fn redacted_bytes(d: DataView) -> Seq<u8> {
    match raw_of(d) {
        Some((ty, bytes)) => dword_bytes(ty) + bytes,
        None => seq![0x64u8, 0x65u8, 0x6cu8, 0x65u8, 0x74u8, 0x65u8],
    }
}

/// The digest that stands for redacted data.
pub fn plan_digest(data: &RegData) -> (out: String)
    ensures
        out@ == hash_of(redacted_bytes(data@)),
{
    let mut bytes: Vec<u8> = Vec::new();
    match data_to_raw(data) {
        Some((ty, mut raw)) => {
            push_dword(&mut bytes, ty);
            bytes.append(&mut raw);
        },
        None => {
            bytes.push(0x64);
            bytes.push(0x65);
            bytes.push(0x6c);
            bytes.push(0x65);
            bytes.push(0x74);
            bytes.push(0x65);
        },
    }
    assert(bytes@ =~= redacted_bytes(data@));
    hash_hex(bytes.as_slice())
}

/// Data of a plan as JSON. Redacted, it is a digest and nothing else.
pub open spec fn plan_data(
    name: Option<Seq<char>>,
    data: Option<DataView>,
    redact: bool,
) -> Seq<char> {
    match data {
        None => "null"@,
        Some(d) => if redact {
            "{\"redacted\": true, \"sha256\": "@ + json_string(hash_of(redacted_bytes(d))) + "}"@
        } else {
            "{\"type\": "@ + json_string(type_name_of(type_id_of(d))) + ", \"data\": "@
                + json_string(preview_of(d)) + ", \"exact\": "@ + value_json(
                EntryView { name, data: d, line: 0 },
            ) + "}"@
        },
    }
}

/// A name, or the default value's where there is none.
pub open spec fn name_or_default(name: Option<ValueName>) -> Option<Seq<char>> {
    match name {
        Some(n) => n@,
        None => None,
    }
}

fn copy_name(name: &Option<ValueName>) -> (r: ValueName)
    ensures
        r@ == name_or_default(*name),
{
    match name {
        Some(n) => n.clone(),
        None => ValueName::Default,
    }
}

/// Data of a plan as JSON.
pub fn plan_data_json(name: &Option<ValueName>, data: &Option<RegData>, redact: bool) -> (out:
    String)
    ensures
        out@ == plan_data(name_or_default(*name), opt_data(*data), redact),
{
    match data {
        None => "null".to_owned(),
        Some(d) => {
            if redact {
                return concat3(
                    "{\"redacted\": true, \"sha256\": ",
                    jstr(plan_digest(d).as_str()).as_str(),
                    "}",
                );
            }
            let exact = value_to_json(
                &ValueEntry { name: copy_name(name), data: d.clone(), line: 0 },
            );
            let mut out = "{\"type\": ".to_owned();
            out.append(jstr(d.type_label()).as_str());
            out.append(", \"data\": ");
            out.append(jstr(d.preview().as_str()).as_str());
            out.append(", \"exact\": ");
            out.append(exact.as_str());
            out.append("}");
            out
        },
    }
}

/// Redacted data is known by its digest alone: data that is stored alike is
/// rendered alike, under whatever name.
pub proof fn redaction_shows_only_the_digest(
    name: Option<Seq<char>>,
    other: Option<Seq<char>>,
    a: DataView,
    b: DataView,
)
    requires
        raw_of(a) == raw_of(b),
    ensures
        plan_data(name, Some(a), true) == plan_data(other, Some(b), true),
{
}

/// Data of a plan as text.
pub open spec fn plan_text(data: Option<DataView>, redact: bool) -> Seq<char> {
    match data {
        None => "<absent>"@,
        Some(d) => if redact {
            "<redacted sha256:"@ + hash_of(redacted_bytes(d)) + ">"@
        } else {
            type_name_of(type_id_of(d)) + " "@ + preview_of(d)
        },
    }
}

/// Data of a plan as text.
pub fn plan_data_text(data: &Option<RegData>, redact: bool) -> (out: String)
    ensures
        out@ == plan_text(opt_data(*data), redact),
{
    match data {
        None => "<absent>".to_owned(),
        Some(d) => if redact {
            concat3("<redacted sha256:", plan_digest(d).as_str(), ">")
        } else {
            concat3(d.type_label(), " ", d.preview().as_str())
        },
    }
}

// ---------------------------------------------------------------------------
// Plans
// ---------------------------------------------------------------------------

/// What a planned change does.
#[derive(Clone, Copy, Debug, PartialEq, Eq, Structural)]
pub enum PlanOp {
    KeyCreate,
    KeyDelete,
    ValueSet,
    ValueDelete,
}

/// The name of a planned change.
pub open spec fn op_name(op: PlanOp) -> Seq<char> {
    match op {
        PlanOp::KeyCreate => "key.create"@,
        PlanOp::KeyDelete => "key.delete"@,
        PlanOp::ValueSet => "value.set"@,
        PlanOp::ValueDelete => "value.delete"@,
    }
}

impl PlanOp {
    /// The name of the change.
    pub fn name(self) -> (r: &'static str)
        ensures
            r@ == op_name(self),
    {
        match self {
            PlanOp::KeyCreate => "key.create",
            PlanOp::KeyDelete => "key.delete",
            PlanOp::ValueSet => "value.set",
            PlanOp::ValueDelete => "value.delete",
        }
    }
}

/// A planned change.
#[derive(Debug)]
pub struct PlanChange {
    pub op: PlanOp,
    pub path: RegPath,
    pub name: Option<ValueName>,
    pub before: Option<RegData>,
    pub after: Option<RegData>,
}

/// A name as JSON, or `null`.
pub open spec fn opt_name_json(name: Option<ValueName>) -> Seq<char> {
    match name {
        Some(n) => json_string(name_text(n@)),
        None => "null"@,
    }
}

fn name_json(name: &Option<ValueName>) -> (out: String)
    ensures
        out@ == opt_name_json(*name),
{
    match name {
        Some(n) => jstr(n.to_string().as_str()),
        None => "null".to_owned(),
    }
}

/// A planned change as JSON.
pub open spec fn change_json(indent: Seq<char>, c: PlanChange, redact: bool) -> Seq<char> {
    indent + "{\"op\": "@ + json_string(op_name(c.op)) + ", \"path\": "@ + json_string(
        path_text(c.path@),
    ) + ", \"name\": "@ + opt_name_json(c.name) + ", \"before\": "@ + plan_data(
        name_or_default(c.name),
        opt_data(c.before),
        redact,
    ) + ", \"after\": "@ + plan_data(name_or_default(c.name), opt_data(c.after), redact) + "}"@
}

fn render_change(indent: &str, c: &PlanChange, redact: bool) -> (out: String)
    ensures
        out@ == change_json(indent@, *c, redact),
{
    let mut out = concat(indent, "{\"op\": ");
    out.append(jstr(c.op.name()).as_str());
    out.append(", \"path\": ");
    out.append(jstr(c.path.to_string().as_str()).as_str());
    out.append(", \"name\": ");
    out.append(name_json(&c.name).as_str());
    out.append(", \"before\": ");
    out.append(plan_data_json(&c.name, &c.before, redact).as_str());
    out.append(", \"after\": ");
    out.append(plan_data_json(&c.name, &c.after, redact).as_str());
    out.append("}");
    out
}

/// Two texts as a JSON object with the given names.
pub open spec fn pair_json(
    indent: Seq<char>,
    first: Seq<char>,
    second: Seq<char>,
    p: (String, String),
) -> Seq<char> {
    indent + "{\""@ + first + "\": "@ + json_string(p.0@) + ", \""@ + second + "\": "@
        + json_string(p.1@) + "}"@
}

/// Pairs of texts as JSON objects, one by one.
pub open spec fn pairs_json(
    indent: Seq<char>,
    first: Seq<char>,
    second: Seq<char>,
    pairs: Seq<(String, String)>,
) -> Seq<Seq<char>> {
    pairs.map_values(|p: (String, String)| pair_json(indent, first, second, p))
}

/// Pairs of texts as JSON objects, one by one.
pub fn render_pairs(indent: &str, first: &str, second: &str, pairs: &Vec<(String, String)>) -> (out: Vec<
    String,
>)
    ensures
        views(out@) == pairs_json(indent@, first@, second@, pairs@),
{
    broadcast use views_push;

    let mut out: Vec<String> = Vec::new();
    for i in 0..pairs.len()
        invariant
            views(out@) =~= pairs_json(indent@, first@, second@, pairs@.take(i as int)),
    {
        let mut one = concat3(indent, "{\"", first);
        one.append("\": ");
        one.append(jstr(pairs[i].0.as_str()).as_str());
        one.append(", \"");
        one.append(second);
        one.append("\": ");
        one.append(jstr(pairs[i].1.as_str()).as_str());
        one.append("}");
        let ghost before = out@;
        out.push(one);
        assert(views(out@) == views(before).push(one@));
    }
    assert(pairs@.take(pairs@.len() as int) =~= pairs@);
    out
}

/// The plan of one view.
#[derive(Debug)]
pub struct ViewPlan {
    pub label: String,
    /// Denied keys and the rules that deny them.
    pub denied: Vec<(String, String)>,
    pub changes: Vec<PlanChange>,
    pub failures: Vec<(String, String)>,
    pub rollback: Snapshot,
    pub rollback_path: String,
    pub desired: RegFile,
}

/// The changes of a plan as JSON, one by one.
pub open spec fn plan_changes_json(
    indent: Seq<char>,
    changes: Seq<PlanChange>,
    redact: bool,
) -> Seq<Seq<char>> {
    changes.map_values(|c: PlanChange| change_json(indent, c, redact))
}

/// The plan of one view as JSON.
#[verifier::opaque]
pub open spec fn view_plan(p: ViewPlan, redact: bool) -> Seq<char> {
    "    {\"view\": "@ + json_string(p.label@) + ", \"blocked\": "@ + json_bool(
        p.denied@.len() != 0 || p.failures@.len() != 0,
    ) + ", \"denied\": [\n"@ + joined(pairs_json("      "@, "path"@, "rule"@, p.denied@), ",\n"@)
        + "\n    ], \"rollback\": {\"path\": "@ + json_string(p.rollback_path@)
        + ", \"complete\": "@ + json_bool(p.rollback.unreadable@.len() == 0)
        + ", \"restoredValues\": "@ + dec_of(p.rollback.restored_values as nat)
        + ", \"newKeys\": "@ + dec_of(p.rollback.new_keys@.len()) + ", \"unreadable\": "@ + dec_of(
        p.rollback.unreadable@.len(),
    ) + "}, \"changes\": [\n"@ + joined(plan_changes_json("      "@, p.changes@, redact), ",\n"@)
        + "\n    ], \"failures\": [\n"@ + joined(
        pairs_json("      "@, "target"@, "problem"@, p.failures@),
        ",\n"@,
    ) + "\n    ]}"@
}

/// The changes of a plan as JSON, one by one.
pub fn render_changes(indent: &str, changes: &Vec<PlanChange>, redact: bool) -> (out: Vec<String>)
    ensures
        views(out@) == plan_changes_json(indent@, changes@, redact),
{
    broadcast use views_push;

    let mut out: Vec<String> = Vec::new();
    for i in 0..changes.len()
        invariant
            views(out@) =~= plan_changes_json(indent@, changes@.take(i as int), redact),
    {
        let one = render_change(indent, &changes[i], redact);
        let ghost before = out@;
        out.push(one);
        assert(views(out@) == views(before).push(one@));
    }
    assert(changes@.take(changes@.len() as int) =~= changes@);
    out
}

/// The plan of one view as JSON.
pub fn view_plan_json(plan: &ViewPlan, redact: bool) -> (out: String)
    ensures
        out@ == view_plan(*plan, redact),
{
    reveal(view_plan);
    let denied = render_pairs("      ", "path", "rule", &plan.denied);
    let changes = render_changes("      ", &plan.changes, redact);
    let failures = render_pairs("      ", "target", "problem", &plan.failures);
    let mut out = "    {\"view\": ".to_owned();
    out.append(jstr(plan.label.as_str()).as_str());
    out.append(", \"blocked\": ");
    out.append(jbool(plan.denied.len() != 0 || plan.failures.len() != 0));
    out.append(", \"denied\": [\n");
    out.append(join(denied.as_slice(), ",\n").as_str());
    out.append("\n    ], \"rollback\": {\"path\": ");
    out.append(jstr(plan.rollback_path.as_str()).as_str());
    out.append(", \"complete\": ");
    out.append(jbool(plan.rollback.is_complete()));
    out.append(", \"restoredValues\": ");
    push_dec(&mut out, plan.rollback.restored_values as u64);
    out.append(", \"newKeys\": ");
    push_dec(&mut out, plan.rollback.new_keys.len() as u64);
    out.append(", \"unreadable\": ");
    push_dec(&mut out, plan.rollback.unreadable.len() as u64);
    out.append("}, \"changes\": [\n");
    out.append(join(changes.as_slice(), ",\n").as_str());
    out.append("\n    ], \"failures\": [\n");
    out.append(join(failures.as_slice(), ",\n").as_str());
    out.append("\n    ]}");
    out
}

// ---------------------------------------------------------------------------
// Queries
// ---------------------------------------------------------------------------

/// A key as it is shown: by its own path, or below a root that stands for its
/// hive.
pub open spec fn label_below(root: Option<Seq<char>>, p: PathView) -> Seq<char> {
    match root {
        None => path_text(p),
        Some(r) => if p.sub.len() == 0 {
            r
        } else {
            r + "\\"@ + p.sub
        },
    }
}

/// A key as it is shown.
pub fn display_path(root: &Option<String>, p: &RegPath) -> (out: String)
    ensures
        out@ == label_below(opt_text(*root), p@),
{
    match root {
        None => p.to_string(),
        Some(r) => if p.sub.as_str().is_empty() {
            r.clone()
        } else {
            concat3(r.as_str(), "\\", p.sub.as_str())
        },
    }
}

/// A value of a query as JSON.
pub open spec fn query_value(v: EntryView) -> Seq<char> {
    "{\"name\": "@ + json_string(name_text(v.name)) + ", \"type\": "@ + json_string(
        type_name_of(type_id_of(v.data)),
    ) + ", \"data\": "@ + json_string(preview_of(v.data)) + ", \"exact\": "@ + value_json(v) + "}"@
}

/// A key of a query as JSON.
pub open spec fn query_key(root: Option<Seq<char>>, b: BlockView) -> Seq<char> {
    "  {\"key\": "@ + json_string(label_below(root, b.path)) + ", \"values\": ["@ + joined(
        b.values.map_values(|v: EntryView| query_value(v)),
        ", "@,
    ) + "]}"@
}

/// The line of the `i`th key of a query.
pub open spec fn query_line(root: Option<Seq<char>>, keys: Seq<BlockView>, i: int) -> Seq<char> {
    query_key(root, keys[i]) + (if i + 1 < keys.len() {
        ",\n"@
    } else {
        "\n"@
    })
}

/// The first `n` keys of a query, each on a line of its own.
pub open spec fn query_lines(root: Option<Seq<char>>, keys: Seq<BlockView>, n: int) -> Seq<char>
    decreases n,
{
    if n <= 0 {
        Seq::empty()
    } else {
        query_lines(root, keys, n - 1) + query_line(root, keys, n - 1)
    }
}

/// The keys of a query as JSON.
pub open spec fn query_json(root: Option<Seq<char>>, keys: Seq<BlockView>) -> Seq<char> {
    "[\n"@ + query_lines(root, keys, keys.len() as int) + "]"@
}

fn render_query_value(v: &ValueEntry) -> (out: String)
    ensures
        out@ == query_value(v@),
{
    let mut out = "{\"name\": ".to_owned();
    out.append(jstr(v.name.to_string().as_str()).as_str());
    out.append(", \"type\": ");
    out.append(jstr(v.data.type_label()).as_str());
    out.append(", \"data\": ");
    out.append(jstr(v.data.preview().as_str()).as_str());
    out.append(", \"exact\": ");
    out.append(value_to_json(v).as_str());
    out.append("}");
    out
}

fn render_query_key(root: &Option<String>, b: &KeyBlock) -> (out: String)
    ensures
        out@ == query_key(opt_text(*root), b@),
{
    broadcast use views_push;

    let ghost all = views(b.values@);
    let mut parts: Vec<String> = Vec::new();
    for i in 0..b.values.len()
        invariant
            all == views(b.values@),
            views(parts@) =~= all.take(i as int).map_values(|v: EntryView| query_value(v)),
    {
        let one = render_query_value(&b.values[i]);
        let ghost before = parts@;
        parts.push(one);
        assert(views(parts@) == views(before).push(one@));
    }
    assert(all.take(all.len() as int) =~= all);
    let mut out = "  {\"key\": ".to_owned();
    out.append(jstr(display_path(root, &b.path).as_str()).as_str());
    out.append(", \"values\": [");
    out.append(join(parts.as_slice(), ", ").as_str());
    out.append("]}");
    out
}

/// The keys of a query as JSON.
pub fn json_of(keys: &Vec<KeyBlock>, root: &Option<String>) -> (out: String)
    ensures
        out@ == query_json(opt_text(*root), views(keys@)),
{
    let ghost all = views(keys@);
    let ghost r = opt_text(*root);
    let mut lines = String::new();
    for i in 0..keys.len()
        invariant
            all == views(keys@),
            r == opt_text(*root),
            lines@ == query_lines(r, all, i as int),
    {
        assert(all[i as int] == keys@[i as int]@);
        let line = render_query_key(root, &keys[i]);
        let end = if i + 1 < keys.len() {
            ",\n"
        } else {
            "\n"
        };
        lines.append(concat(line.as_str(), end).as_str());
    }
    let mut out = "[\n".to_owned();
    out.append(lines.as_str());
    out.append("]");
    out
}

// ---------------------------------------------------------------------------
// Searches
// ---------------------------------------------------------------------------

/// The name of a field.
pub open spec fn field_name(f: Field) -> Seq<char> {
    match f {
        Field::Key => "key"@,
        Field::Name => "name"@,
        Field::Type => "type"@,
        Field::Data => "data"@,
    }
}

/// The name of a field.
pub fn name_of_field(f: Field) -> (r: &'static str)
    ensures
        r@ == field_name(f),
{
    match f {
        Field::Key => "key",
        Field::Name => "name",
        Field::Type => "type",
        Field::Data => "data",
    }
}

/// A match as JSON; a match of a key has no value.
pub open spec fn match_json(m: MatchView) -> Seq<char> {
    let (name, ty, data, exact) = match m.value {
        Some(v) => (
            json_string(name_text(v.name)),
            json_string(type_name_of(type_id_of(v.data))),
            json_string(preview_of(v.data)),
            value_json(v),
        ),
        None => ("null"@, "null"@, "null"@, "null"@),
    };
    "    {\"field\": "@ + json_string(field_name(m.field)) + ", \"path\": "@ + json_string(
        path_text(m.path),
    ) + ", \"name\": "@ + name + ", \"type\": "@ + ty + ", \"data\": "@ + data + ", \"exact\": "@
        + exact + "}"@
}

fn render_match(m: &Match) -> (out: String)
    ensures
        out@ == match_json(m@),
{
    let mut out = "    {\"field\": ".to_owned();
    out.append(jstr(name_of_field(m.field)).as_str());
    out.append(", \"path\": ");
    out.append(jstr(m.path.to_string().as_str()).as_str());
    out.append(", \"name\": ");
    match &m.exact {
        Some(v) => {
            out.append(jstr(v.name.to_string().as_str()).as_str());
            out.append(", \"type\": ");
            out.append(jstr(v.data.type_label()).as_str());
            out.append(", \"data\": ");
            out.append(jstr(v.data.preview().as_str()).as_str());
            out.append(", \"exact\": ");
            out.append(value_to_json(v).as_str());
        },
        None => {
            out.append("null");
            out.append(", \"type\": ");
            out.append("null");
            out.append(", \"data\": ");
            out.append("null");
            out.append(", \"exact\": ");
            out.append("null");
        },
    }
    out.append("}");
    out
}

/// Matches as JSON, one by one.
pub fn search_matches_json(matches: &Vec<Match>) -> (out: Vec<String>)
    ensures
        views(out@) == views(matches@).map_values(|m: MatchView| match_json(m)),
{
    broadcast use views_push;

    let ghost all = views(matches@);
    let mut out: Vec<String> = Vec::new();
    for i in 0..matches.len()
        invariant
            all == views(matches@),
            views(out@) =~= all.take(i as int).map_values(|m: MatchView| match_json(m)),
    {
        let one = render_match(&matches[i]);
        let ghost before = out@;
        out.push(one);
        assert(views(out@) == views(before).push(one@));
    }
    assert(all.take(all.len() as int) =~= all);
    out
}

/// The name of a way to read a query.
pub open spec fn mode_name(mode: Mode) -> Seq<char> {
    match mode {
        Mode::Substring => "substring"@,
        Mode::Glob => "glob"@,
        Mode::Regex => "regex"@,
    }
}

/// The name of a way to read a query.
pub fn search_mode_name(mode: Mode) -> (r: &'static str)
    ensures
        r@ == mode_name(mode),
{
    match mode {
        Mode::Substring => "substring",
        Mode::Glob => "glob",
        Mode::Regex => "regex",
    }
}

// ---------------------------------------------------------------------------
// Statistics
// ---------------------------------------------------------------------------

/// The number of values of a type.
#[derive(Debug)]
pub struct TypeCount {
    pub name: String,
    pub count: usize,
}

/// A count of a type as JSON.
pub open spec fn type_count_json(t: TypeCount) -> Seq<char> {
    json_string(t.name@) + ":"@ + dec_of(t.count as nat)
}

/// The names of the types of stored data, in order.
pub open spec fn type_names() -> Seq<Seq<char>> {
    seq![
        "REG_<other>"@,
        "REG_BINARY"@,
        "REG_DWORD"@,
        "REG_DWORD_BIG_ENDIAN"@,
        "REG_EXPAND_SZ"@,
        "REG_LINK"@,
        "REG_MULTI_SZ"@,
        "REG_NONE"@,
        "REG_QWORD"@,
        "REG_SZ"@,
    ]
}

/// The types that occur and how often, out of `names`.
pub open spec fn counts_of(keys: Seq<BlockView>, names: Seq<Seq<char>>) -> Seq<(Seq<char>, usize)>
    decreases names.len(),
{
    if names.len() == 0 {
        Seq::empty()
    } else {
        let n = capped(keys_tally(keys, Tally::Typed(names.last())));
        let before = counts_of(keys, names.drop_last());
        if n == 0 {
            before
        } else {
            before.push((names.last(), n))
        }
    }
}

/// Counts as plain values.
pub open spec fn count_views(types: Seq<TypeCount>) -> Seq<(Seq<char>, usize)> {
    types.map_values(|t: TypeCount| (t.name@, t.count))
}

/// How often each type of stored data occurs, in the order of the names.
pub fn type_counts(keys: &Vec<KeyBlock>) -> (out: Vec<TypeCount>)
    ensures
        count_views(out@) == counts_of(views(keys@), type_names()),
{
    let names: [&str; 10] = [
        "REG_<other>",
        "REG_BINARY",
        "REG_DWORD",
        "REG_DWORD_BIG_ENDIAN",
        "REG_EXPAND_SZ",
        "REG_LINK",
        "REG_MULTI_SZ",
        "REG_NONE",
        "REG_QWORD",
        "REG_SZ",
    ];
    let ghost all = type_names();
    let mut out: Vec<TypeCount> = Vec::new();
    assert(count_views(out@) =~= Seq::<(Seq<char>, usize)>::empty());
    assert(all.take(0) =~= Seq::<Seq<char>>::empty());
    for i in 0..10
        invariant
            all == type_names(),
            forall|k: int| 0 <= k < 10 ==> (#[trigger] names@[k])@ == all[k],
            count_views(out@) == counts_of(views(keys@), all.take(i as int)),
    {
        assert(all.take(i + 1).drop_last() =~= all.take(i as int));
        assert(names@[i as int]@ == all[i as int]);
        let n = count_type(keys, names[i]);
        if n > 0 {
            let ghost before = out@;
            out.push(TypeCount { name: names[i].to_owned(), count: n });
            assert(count_views(out@) =~= count_views(before).push((names@[i as int]@, n)));
        }
    }
    assert(all.take(10) =~= all);
    out
}

/// Whatever data a value stores is counted under one of the names.
pub proof fn every_type_has_a_name(d: DataView)
    requires
        d != DataView::Delete,
    ensures
        type_names().contains(type_name_of(type_id_of(d))),
{
    let name = type_name_of(type_id_of(d));
    let all = type_names();
    assert(all[0] == name || all[1] == name || all[2] == name || all[3] == name || all[4] == name
        || all[5] == name || all[6] == name || all[7] == name || all[8] == name || all[9] == name);
}

/// Statistics as JSON members.
pub open spec fn stats_text(s: RegistryStats, types: Seq<TypeCount>) -> Seq<char> {
    "\"keys\":"@ + dec_of(s.keys as nat) + ",\"values\":"@ + dec_of(s.values as nat)
        + ",\"keyDeletes\":"@ + dec_of(s.key_deletes as nat) + ",\"valueDeletes\":"@ + dec_of(
        s.value_deletes as nat,
    ) + ",\"maxDepth\":"@ + dec_of(s.max_depth as nat) + ",\"payloadBytes\":"@ + dec_of(
        s.payload_bytes as nat,
    ) + ",\"types\":{"@ + joined(types.map_values(|t: TypeCount| type_count_json(t)), ","@) + "}"@
}

/// Statistics as JSON members.
pub fn stats_json(stats: &RegistryStats, types: &Vec<TypeCount>) -> (out: String)
    ensures
        out@ == stats_text(*stats, types@),
{
    broadcast use views_push;

    let mut parts: Vec<String> = Vec::new();
    for i in 0..types.len()
        invariant
            views(parts@) =~= types@.take(i as int).map_values(|t: TypeCount| type_count_json(t)),
    {
        let mut one = jstr(types[i].name.as_str());
        one.append(":");
        push_dec(&mut one, types[i].count as u64);
        let ghost before = parts@;
        parts.push(one);
        assert(views(parts@) == views(before).push(one@));
    }
    assert(types@.take(types@.len() as int) =~= types@);
    let mut out = "\"keys\":".to_owned();
    push_dec(&mut out, stats.keys as u64);
    out.append(",\"values\":");
    push_dec(&mut out, stats.values as u64);
    out.append(",\"keyDeletes\":");
    push_dec(&mut out, stats.key_deletes as u64);
    out.append(",\"valueDeletes\":");
    push_dec(&mut out, stats.value_deletes as u64);
    out.append(",\"maxDepth\":");
    push_dec(&mut out, stats.max_depth as u64);
    out.append(",\"payloadBytes\":");
    push_dec(&mut out, stats.payload_bytes as u64);
    out.append(",\"types\":{");
    out.append(join(parts.as_slice(), ",").as_str());
    out.append("}");
    out
}

// ---------------------------------------------------------------------------
// Permissions
// ---------------------------------------------------------------------------

/// What one view says of who may do what with a key.
#[derive(Debug)]
pub struct PermissionView {
    pub label: String,
    pub owner_sid: String,
    pub inheritance_enabled: bool,
    pub sddl: String,
    pub query: bool,
    pub enumerate: bool,
    pub notify: bool,
    pub set_value: bool,
    pub create_subkey: bool,
    pub delete: bool,
}

/// Permissions as JSON.
pub open spec fn permission_json(p: PermissionView) -> Seq<char> {
    "{\"view\":"@ + json_string(p.label@) + ",\"ownerSid\":"@ + json_string(p.owner_sid@)
        + ",\"inheritanceEnabled\":"@ + json_bool(p.inheritance_enabled) + ",\"sddl\":"@
        + json_string(p.sddl@) + ",\"effective\":{\"queryValue\":"@ + json_bool(p.query)
        + ",\"enumerateSubkeys\":"@ + json_bool(p.enumerate) + ",\"notify\":"@ + json_bool(p.notify)
        + ",\"setValue\":"@ + json_bool(p.set_value) + ",\"createSubkey\":"@ + json_bool(
        p.create_subkey,
    ) + ",\"delete\":"@ + json_bool(p.delete) + "}}"@
}

/// Permissions as JSON.
pub fn permission_view_json(p: &PermissionView) -> (out: String)
    ensures
        out@ == permission_json(*p),
{
    let mut out = "{\"view\":".to_owned();
    out.append(jstr(p.label.as_str()).as_str());
    out.append(",\"ownerSid\":");
    out.append(jstr(p.owner_sid.as_str()).as_str());
    out.append(",\"inheritanceEnabled\":");
    out.append(jbool(p.inheritance_enabled));
    out.append(",\"sddl\":");
    out.append(jstr(p.sddl.as_str()).as_str());
    out.append(",\"effective\":{\"queryValue\":");
    out.append(jbool(p.query));
    out.append(",\"enumerateSubkeys\":");
    out.append(jbool(p.enumerate));
    out.append(",\"notify\":");
    out.append(jbool(p.notify));
    out.append(",\"setValue\":");
    out.append(jbool(p.set_value));
    out.append(",\"createSubkey\":");
    out.append(jbool(p.create_subkey));
    out.append(",\"delete\":");
    out.append(jbool(p.delete));
    out.append("}}");
    out
}

/// A field where two sides differ.
pub open spec fn differing(different: bool, name: Seq<char>) -> Seq<Seq<char>> {
    if different {
        seq![name]
    } else {
        Seq::empty()
    }
}

/// The fields in which permissions differ, in order.
pub open spec fn differences(a: PermissionView, b: PermissionView) -> Seq<Seq<char>> {
    differing(a.owner_sid@ != b.owner_sid@, "ownerSid"@) + differing(
        a.inheritance_enabled != b.inheritance_enabled,
        "inheritanceEnabled"@,
    ) + differing(a.sddl@ != b.sddl@, "sddl"@) + differing(
        a.query != b.query,
        "effective.queryValue"@,
    ) + differing(a.enumerate != b.enumerate, "effective.enumerateSubkeys"@) + differing(
        a.notify != b.notify,
        "effective.notify"@,
    ) + differing(a.set_value != b.set_value, "effective.setValue"@) + differing(
        a.create_subkey != b.create_subkey,
        "effective.createSubkey"@,
    ) + differing(a.delete != b.delete, "effective.delete"@)
}

fn push_differing(out: &mut Vec<&'static str>, different: bool, name: &'static str)
    ensures
        views(final(out)@) == views(old(out)@) + differing(different, name@),
{
    let ghost before = out@;
    if different {
        out.push(name);
        assert(views(out@) =~= views(before) + seq![name@]);
    } else {
        assert(views(out@) =~= views(before) + Seq::<Seq<char>>::empty());
    }
}

/// The fields in which permissions differ.
pub fn permission_differences(a: &PermissionView, b: &PermissionView) -> (out: Vec<&'static str>)
    ensures
        views(out@) == differences(*a, *b),
{
    let mut out: Vec<&'static str> = Vec::new();
    assert(views(out@) =~= Seq::<Seq<char>>::empty());
    push_differing(&mut out, !same_str(a.owner_sid.as_str(), b.owner_sid.as_str()), "ownerSid");
    push_differing(
        &mut out,
        a.inheritance_enabled != b.inheritance_enabled,
        "inheritanceEnabled",
    );
    push_differing(&mut out, !same_str(a.sddl.as_str(), b.sddl.as_str()), "sddl");
    push_differing(&mut out, a.query != b.query, "effective.queryValue");
    push_differing(&mut out, a.enumerate != b.enumerate, "effective.enumerateSubkeys");
    push_differing(&mut out, a.notify != b.notify, "effective.notify");
    push_differing(&mut out, a.set_value != b.set_value, "effective.setValue");
    push_differing(&mut out, a.create_subkey != b.create_subkey, "effective.createSubkey");
    push_differing(&mut out, a.delete != b.delete, "effective.delete");
    assert(views(out@) =~= differences(*a, *b));
    out
}

/// Permissions do not differ from themselves, and the same fields differ seen
/// from either side.
pub proof fn differences_are_symmetric(a: PermissionView, b: PermissionView)
    ensures
        differences(a, a).len() == 0,
        differences(a, b) == differences(b, a),
{
}

// ---------------------------------------------------------------------------
// Shortcuts
// ---------------------------------------------------------------------------

/// A link and what was done with it, as JSON.
pub open spec fn link_json(
    action: Seq<char>,
    l: LinkView,
    dry_run: bool,
    replaced: bool,
    sha256: Option<Seq<char>>,
) -> Seq<char> {
    "{\"schemaVersion\":1,\"command\":\"lnk\",\"action\":"@ + json_string(action) + ",\"dryRun\":"@
        + json_bool(dry_run) + ",\"replaced\":"@ + json_bool(replaced) + ",\"file\":"@
        + json_string(l.file) + ",\"target\":"@ + json_string(l.target) + ",\"arguments\":"@
        + json_string(l.arguments) + ",\"workingDirectory\":"@ + json_opt(l.working_directory)
        + ",\"description\":"@ + json_string(l.description) + ",\"iconPath\":"@ + json_opt(
        l.icon_path,
    ) + ",\"iconIndex\":"@ + dec_of_int(l.icon_index as int) + ",\"style\":"@ + json_string(
        style_name(l.style),
    ) + ",\"sha256\":"@ + json_opt(sha256) + "}"@
}

/// A link and what was done with it, as JSON.
pub fn link_info_json(
    action: &str,
    info: &LinkInfo,
    dry_run: bool,
    replaced: bool,
    sha256: &Option<String>,
) -> (out: String)
    ensures
        out@ == link_json(action@, info@, dry_run, replaced, opt_text(*sha256)),
{
    let mut out = "{\"schemaVersion\":1,\"command\":\"lnk\",\"action\":".to_owned();
    out.append(jstr(action).as_str());
    out.append(",\"dryRun\":");
    out.append(jbool(dry_run));
    out.append(",\"replaced\":");
    out.append(jbool(replaced));
    out.append(",\"file\":");
    out.append(jstr(info.file.as_str()).as_str());
    out.append(",\"target\":");
    out.append(jstr(info.target.as_str()).as_str());
    out.append(",\"arguments\":");
    out.append(jstr(info.arguments.as_str()).as_str());
    out.append(",\"workingDirectory\":");
    out.append(jopt_string(&info.working_directory).as_str());
    out.append(",\"description\":");
    out.append(jstr(info.description.as_str()).as_str());
    out.append(",\"iconPath\":");
    out.append(jopt_string(&info.icon_path).as_str());
    out.append(",\"iconIndex\":");
    out.append(to_dec_i32(info.icon_index).as_str());
    out.append(",\"style\":");
    out.append(jstr(info.style.as_str()).as_str());
    out.append(",\"sha256\":");
    out.append(jopt_string(sha256).as_str());
    out.append("}");
    out
}

// ---------------------------------------------------------------------------
// Validation
// ---------------------------------------------------------------------------

/// A repair.
#[derive(Debug)]
pub struct Repair {
    pub line: usize,
    pub lossy: bool,
    pub what: String,
}

/// A defect that has no repair.
#[derive(Debug)]
pub struct Defect {
    pub line: usize,
    pub why: String,
}

/// A file that was written.
#[derive(Debug)]
pub struct WrittenFile {
    pub path: String,
    pub bytes: u64,
    pub sha256: String,
}

/// A diagnostic as JSON.
pub open spec fn diagnostic_json(d: DiagView) -> Seq<char> {
    "{\"line\":"@ + dec_of(d.line as nat) + ",\"severity\":"@ + json_string(
        if d.severity == Severity::Warning {
            "warning"@
        } else {
            "error"@
        },
    ) + ",\"message\":"@ + json_string(d.message) + "}"@
}

/// A repair as JSON.
pub open spec fn repair_json(r: Repair) -> Seq<char> {
    "{\"line\":"@ + dec_of(r.line as nat) + ",\"class\":"@ + json_string(
        if r.lossy {
            "lossy"@
        } else {
            "safe"@
        },
    ) + ",\"message\":"@ + json_string(r.what@) + "}"@
}

/// A defect as JSON.
pub open spec fn defect_json(d: Defect) -> Seq<char> {
    "{\"line\":"@ + dec_of(d.line as nat) + ",\"message\":"@ + json_string(d.why@) + "}"@
}

/// The members of a written file, `null` where nothing was written.
pub open spec fn written_json(
    path: Seq<char>,
    bytes: Seq<char>,
    digest: Seq<char>,
    w: Option<WrittenFile>,
) -> Seq<char> {
    match w {
        Some(f) => path + json_string(f.path@) + bytes + dec_of(f.bytes as nat) + digest
            + json_string(f.sha256@),
        None => path + "null"@ + bytes + "null"@ + digest + "null"@,
    }
}

/// What validating a file gave, as JSON.
pub open spec fn validation(
    label: Seq<char>,
    outcome: OutcomeView,
    written: bool,
    dry_run: bool,
    fixes: Seq<Repair>,
    unfixable: Seq<Defect>,
    repaired: Seq<char>,
    artifact: Option<WrittenFile>,
    backup: Option<WrittenFile>,
) -> Seq<char> {
    "{\"file\":"@ + json_string(label) + ",\"valid\":"@ + json_bool(
        !any_error(outcome.diagnostics),
    ) + ",\"written\":"@ + json_bool(written) + ",\"dryRun\":"@ + json_bool(dry_run)
        + ",\"keys\":"@ + dec_of(outcome.file.keys.len()) + ",\"values\":"@ + dec_of(
        capped(total_values(outcome.file.keys)) as nat,
    ) + ",\"diagnostics\":["@ + joined(
        outcome.diagnostics.map_values(|d: DiagView| diagnostic_json(d)),
        ","@,
    ) + "],\"fixes\":["@ + joined(fixes.map_values(|r: Repair| repair_json(r)), ","@)
        + "],\"unfixable\":["@ + joined(unfixable.map_values(|d: Defect| defect_json(d)), ","@)
        + "],\"repairedData\":"@ + repaired + written_json(
        ",\"output\":"@,
        ",\"bytes\":"@,
        ",\"sha256\":"@,
        artifact,
    ) + written_json(",\"backup\":"@, ",\"backupBytes\":"@, ",\"backupSha256\":"@, backup) + "}"@
}

fn render_diagnostics(diagnostics: &Vec<Diagnostic>) -> (out: Vec<String>)
    ensures
        views(out@) == views(diagnostics@).map_values(|d: DiagView| diagnostic_json(d)),
{
    broadcast use views_push;

    let ghost all = views(diagnostics@);
    let mut out: Vec<String> = Vec::new();
    for i in 0..diagnostics.len()
        invariant
            all == views(diagnostics@),
            views(out@) =~= all.take(i as int).map_values(|d: DiagView| diagnostic_json(d)),
    {
        let d = &diagnostics[i];
        let mut one = "{\"line\":".to_owned();
        push_dec(&mut one, d.line as u64);
        one.append(",\"severity\":");
        one.append(
            jstr(
                if d.severity == Severity::Warning {
                    "warning"
                } else {
                    "error"
                },
            ).as_str(),
        );
        one.append(",\"message\":");
        one.append(jstr(d.message.as_str()).as_str());
        one.append("}");
        let ghost before = out@;
        out.push(one);
        assert(views(out@) == views(before).push(one@));
    }
    assert(all.take(all.len() as int) =~= all);
    out
}

fn render_repairs(fixes: &Vec<Repair>) -> (out: Vec<String>)
    ensures
        views(out@) == fixes@.map_values(|r: Repair| repair_json(r)),
{
    broadcast use views_push;

    let mut out: Vec<String> = Vec::new();
    for i in 0..fixes.len()
        invariant
            views(out@) =~= fixes@.take(i as int).map_values(|r: Repair| repair_json(r)),
    {
        let mut one = "{\"line\":".to_owned();
        push_dec(&mut one, fixes[i].line as u64);
        one.append(",\"class\":");
        one.append(
            jstr(
                if fixes[i].lossy {
                    "lossy"
                } else {
                    "safe"
                },
            ).as_str(),
        );
        one.append(",\"message\":");
        one.append(jstr(fixes[i].what.as_str()).as_str());
        one.append("}");
        let ghost before = out@;
        out.push(one);
        assert(views(out@) == views(before).push(one@));
    }
    assert(fixes@.take(fixes@.len() as int) =~= fixes@);
    out
}

fn render_defects(defects: &Vec<Defect>) -> (out: Vec<String>)
    ensures
        views(out@) == defects@.map_values(|d: Defect| defect_json(d)),
{
    broadcast use views_push;

    let mut out: Vec<String> = Vec::new();
    for i in 0..defects.len()
        invariant
            views(out@) =~= defects@.take(i as int).map_values(|d: Defect| defect_json(d)),
    {
        let mut one = "{\"line\":".to_owned();
        push_dec(&mut one, defects[i].line as u64);
        one.append(",\"message\":");
        one.append(jstr(defects[i].why.as_str()).as_str());
        one.append("}");
        let ghost before = out@;
        out.push(one);
        assert(views(out@) == views(before).push(one@));
    }
    assert(defects@.take(defects@.len() as int) =~= defects@);
    out
}

fn render_written(path: &str, bytes: &str, digest: &str, w: &Option<WrittenFile>) -> (out: String)
    ensures
        out@ == written_json(path@, bytes@, digest@, *w),
{
    match w {
        Some(f) => {
            let mut out = concat(path, jstr(f.path.as_str()).as_str());
            out.append(bytes);
            push_dec(&mut out, f.bytes);
            out.append(digest);
            out.append(jstr(f.sha256.as_str()).as_str());
            out
        },
        None => {
            let mut out = concat3(path, "null", bytes);
            out.append("null");
            out.append(digest);
            out.append("null");
            out
        },
    }
}

/// What validating a file gave, as JSON. `repaired` is the repaired file, if
/// there is one.
pub fn validation_json(
    label: &str,
    outcome: &ParseOutcome,
    written: bool,
    dry_run: bool,
    fixes: &Vec<Repair>,
    unfixable: &Vec<Defect>,
    repaired: Option<&RegFile>,
    artifact: &Option<WrittenFile>,
    backup: &Option<WrittenFile>,
) -> (out: String)
    ensures
        out@ == validation(
            label@,
            outcome@,
            written,
            dry_run,
            fixes@,
            unfixable@,
            match repaired {
                Some(f) => file_json(f@),
                None => "null"@,
            },
            *artifact,
            *backup,
        ),
{
    let diagnostics = render_diagnostics(&outcome.diagnostics);
    let repairs = render_repairs(fixes);
    let defects = render_defects(unfixable);
    let data = match repaired {
        Some(f) => to_json(f),
        None => "null".to_owned(),
    };
    let mut out = "{\"file\":".to_owned();
    out.append(jstr(label).as_str());
    out.append(",\"valid\":");
    out.append(jbool(!outcome.has_errors()));
    out.append(",\"written\":");
    out.append(jbool(written));
    out.append(",\"dryRun\":");
    out.append(jbool(dry_run));
    out.append(",\"keys\":");
    push_dec(&mut out, outcome.file.keys.len() as u64);
    out.append(",\"values\":");
    push_dec(&mut out, count_values(&outcome.file.keys) as u64);
    out.append(",\"diagnostics\":[");
    out.append(join(diagnostics.as_slice(), ",").as_str());
    out.append("],\"fixes\":[");
    out.append(join(repairs.as_slice(), ",").as_str());
    out.append("],\"unfixable\":[");
    out.append(join(defects.as_slice(), ",").as_str());
    out.append("],\"repairedData\":");
    out.append(data.as_str());
    out.append(
        render_written(",\"output\":", ",\"bytes\":", ",\"sha256\":", artifact).as_str(),
    );
    out.append(
        render_written(
            ",\"backup\":",
            ",\"backupBytes\":",
            ",\"backupSha256\":",
            backup,
        ).as_str(),
    );
    out.append("}");
    out
}

} // verus!
