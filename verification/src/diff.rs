//! Differences between registry data, narrowed down and rendered.
use vstd::prelude::*;

use crate::exit::{usage, usage_error, ExitError};
use crate::json::{json_string, jstr};
use crate::model::{
    name_text, path_text, preview_of, DataView, EntryView, PathView, RegData, RegPath, ValueEntry,
    ValueName,
};
use crate::search::{
    all_sound, filter_name, glob_matchers, Filters, FiltersView, Matcher, ValueFilters,
};
use crate::select::{value_filters_of, value_globs_refused};
use crate::text::{join, joined, views, views_push};
use crate::writer::{value_json, value_to_json};

verus! {

/// What happened to a key or a value.
#[derive(Clone, Copy, Debug, PartialEq, Eq, Structural)]
pub enum Change {
    Added,
    Modified,
    Removed,
}

/// The name of a change.
pub open spec fn change_name(c: Change) -> Seq<char> {
    match c {
        Change::Added => "added"@,
        Change::Modified => "modified"@,
        Change::Removed => "removed"@,
    }
}

impl Change {
    /// The name of the change.
    pub fn name(self) -> (r: &'static str)
        ensures
            r@ == change_name(self),
    {
        match self {
            Change::Added => "added",
            Change::Modified => "modified",
            Change::Removed => "removed",
        }
    }
}

/// A key that is on one side only.
#[derive(Debug)]
pub struct KeyDiff {
    pub path: RegPath,
    pub change: Change,
}

/// A value that differs.
#[derive(Debug)]
pub struct ValueDiff {
    pub path: RegPath,
    pub name: ValueName,
    pub change: Change,
    pub left: Option<RegData>,
    pub right: Option<RegData>,
}

/// What a `KeyDiff` stands for.
pub struct KeyDiffView {
    pub path: PathView,
    pub change: Change,
}

/// What a `ValueDiff` stands for.
pub struct ValueDiffView {
    pub path: PathView,
    pub name: Option<Seq<char>>,
    pub change: Change,
    pub left: Option<DataView>,
    pub right: Option<DataView>,
}

/// Optional data as a view.
pub open spec fn opt_data(d: Option<RegData>) -> Option<DataView> {
    match d {
        Some(d) => Some(d@),
        None => None,
    }
}

impl View for KeyDiff {
    type V = KeyDiffView;

    open spec fn view(&self) -> KeyDiffView {
        KeyDiffView { path: self.path@, change: self.change }
    }
}

impl View for ValueDiff {
    type V = ValueDiffView;

    open spec fn view(&self) -> ValueDiffView {
        ValueDiffView {
            path: self.path@,
            name: self.name@,
            change: self.change,
            left: opt_data(self.left),
            right: opt_data(self.right),
        }
    }
}

fn copy_data(d: &Option<RegData>) -> (r: Option<RegData>)
    ensures
        opt_data(r) == opt_data(*d),
{
    match d {
        Some(d) => Some(d.clone()),
        None => None,
    }
}

fn copy_key_diff(d: &KeyDiff) -> (r: KeyDiff)
    ensures
        r@ == d@,
{
    KeyDiff { path: d.path.clone(), change: d.change }
}

fn copy_value_diff(d: &ValueDiff) -> (r: ValueDiff)
    ensures
        r@ == d@,
{
    ValueDiff {
        path: d.path.clone(),
        name: d.name.clone(),
        change: d.change,
        left: copy_data(&d.left),
        right: copy_data(&d.right),
    }
}

/// All differences.
#[derive(Debug)]
pub struct Diff {
    pub keys: Vec<KeyDiff>,
    pub values: Vec<ValueDiff>,
}

/// What a `Diff` stands for.
pub struct DiffView {
    pub keys: Seq<KeyDiffView>,
    pub values: Seq<ValueDiffView>,
}

impl View for Diff {
    type V = DiffView;

    open spec fn view(&self) -> DiffView {
        DiffView { keys: views(self.keys@), values: views(self.values@) }
    }
}

// ---------------------------------------------------------------------------
// Narrowing down
// ---------------------------------------------------------------------------

/// The differences of values whose names pass, in order.
pub open spec fn named_diffs(values: Seq<ValueDiffView>, f: FiltersView) -> Seq<ValueDiffView>
    decreases values.len(),
{
    if values.len() == 0 {
        Seq::empty()
    } else if f.allows(filter_name(values.last().name)) {
        named_diffs(values.drop_last(), f).push(values.last())
    } else {
        named_diffs(values.drop_last(), f)
    }
}

/// The differences of keys whose paths pass, in order.
pub open spec fn keys_within(keys: Seq<KeyDiffView>, f: FiltersView) -> Seq<KeyDiffView>
    decreases keys.len(),
{
    if keys.len() == 0 {
        Seq::empty()
    } else if f.allows(path_text(keys.last().path)) {
        keys_within(keys.drop_last(), f).push(keys.last())
    } else {
        keys_within(keys.drop_last(), f)
    }
}

/// The differences of values under keys whose paths pass, in order.
pub open spec fn values_within(values: Seq<ValueDiffView>, f: FiltersView) -> Seq<ValueDiffView>
    decreases values.len(),
{
    if values.len() == 0 {
        Seq::empty()
    } else if f.allows(path_text(values.last().path)) {
        values_within(values.drop_last(), f).push(values.last())
    } else {
        values_within(values.drop_last(), f)
    }
}

fn keep_named(values: &Vec<ValueDiff>, filters: &ValueFilters) -> (out: Vec<ValueDiff>)
    ensures
        views(out@) == named_diffs(views(values@), filters@),
{
    broadcast use views_push;

    let ghost all = views(values@);
    let mut out: Vec<ValueDiff> = Vec::new();
    assert(views(out@) =~= Seq::<ValueDiffView>::empty());
    assert(all.take(0) =~= Seq::<ValueDiffView>::empty());
    for i in 0..values.len()
        invariant
            all == views(values@),
            views(out@) == named_diffs(all.take(i as int), filters@),
    {
        assert(all.take(i + 1).drop_last() =~= all.take(i as int));
        assert(all.take(i + 1).last() == values@[i as int]@);
        if filters.allows(&values[i].name) {
            let one = copy_value_diff(&values[i]);
            let ghost before = out@;
            out.push(one);
            assert(views(out@) == views(before).push(one@));
        }
    }
    assert(all.take(all.len() as int) =~= all);
    out
}

/// The differences, narrowed down to value names that match the patterns. With
/// patterns only differences of values remain: `full` is the whole comparison,
/// `values` the one of values alone.
pub fn filtered_diff(
    full: Diff,
    values: Vec<ValueDiff>,
    include_values: &[String],
    exclude_values: &[String],
) -> (r: Result<Diff, ExitError>)
    ensures
        include_values@.len() == 0 && exclude_values@.len() == 0 ==> r == Ok::<Diff, ExitError>(
            full,
        ),
        include_values@.len() != 0 || exclude_values@.len() != 0 ==> match r {
            Ok(d) => d@ == (DiffView {
                keys: Seq::empty(),
                values: named_diffs(
                    views(values@),
                    value_filters_of(views(include_values@), views(exclude_values@)),
                ),
            }),
            Err(e) => e@ == usage_error(e@.message) && value_globs_refused(
                e@.message,
                views(include_values@),
                views(exclude_values@),
            ),
        },
        r is Ok && (include_values@.len() != 0 || exclude_values@.len() != 0) ==> all_sound(
            views(include_values@),
            false,
        ) && all_sound(views(exclude_values@), false),
{
    if include_values.len() == 0 && exclude_values.len() == 0 {
        return Ok(full);
    }
    named_diff(&values, glob_matchers(include_values, false), glob_matchers(exclude_values, false))
}

/// The differences of values whose names pass compiled patterns; the first
/// failure to compile is the caller's error.
pub fn named_diff(
    values: &Vec<ValueDiff>,
    included: Result<Vec<Matcher>, String>,
    excluded: Result<Vec<Matcher>, String>,
) -> (r: Result<Diff, ExitError>)
    ensures
        match (included, excluded) {
            (Err(e), _) => r matches Err(x) && x@ == usage_error(e@),
            (_, Err(e)) => r matches Err(x) && x@ == usage_error(e@),
            (Ok(i), Ok(x)) => r matches Ok(d) && d@ == (DiffView {
                keys: Seq::empty(),
                values: named_diffs(
                    views(values@),
                    (FiltersView { include_queries: views(i@), exclude_queries: views(x@) }),
                ),
            }),
        },
{
    let include_queries = match included {
        Ok(ms) => ms,
        Err(e) => {
            return Err(usage(e));
        },
    };
    let exclude_queries = match excluded {
        Ok(ms) => ms,
        Err(e) => {
            return Err(usage(e));
        },
    };
    let filters = ValueFilters { include_queries, exclude_queries };
    let keys: Vec<KeyDiff> = Vec::new();
    assert(views(keys@) =~= Seq::<KeyDiffView>::empty());
    Ok(Diff { keys, values: keep_named(values, &filters) })
}

/// The differences under keys that pass.
pub fn within(difference: &Diff, filters: &Filters) -> (r: Diff)
    ensures
        r@ == (DiffView {
            keys: keys_within(difference@.keys, filters@),
            values: values_within(difference@.values, filters@),
        }),
{
    broadcast use views_push;

    let ghost ks = views(difference.keys@);
    let mut keys: Vec<KeyDiff> = Vec::new();
    assert(views(keys@) =~= Seq::<KeyDiffView>::empty());
    assert(ks.take(0) =~= Seq::<KeyDiffView>::empty());
    for i in 0..difference.keys.len()
        invariant
            ks == views(difference.keys@),
            views(keys@) == keys_within(ks.take(i as int), filters@),
    {
        assert(ks.take(i + 1).drop_last() =~= ks.take(i as int));
        assert(ks.take(i + 1).last() == difference.keys@[i as int]@);
        if filters.allows(difference.keys[i].path.to_string().as_str()) {
            let one = copy_key_diff(&difference.keys[i]);
            let ghost before = keys@;
            keys.push(one);
            assert(views(keys@) == views(before).push(one@));
        }
    }
    assert(ks.take(ks.len() as int) =~= ks);
    let ghost vs = views(difference.values@);
    let mut values: Vec<ValueDiff> = Vec::new();
    assert(views(values@) =~= Seq::<ValueDiffView>::empty());
    assert(vs.take(0) =~= Seq::<ValueDiffView>::empty());
    for i in 0..difference.values.len()
        invariant
            vs == views(difference.values@),
            views(values@) == values_within(vs.take(i as int), filters@),
    {
        assert(vs.take(i + 1).drop_last() =~= vs.take(i as int));
        assert(vs.take(i + 1).last() == difference.values@[i as int]@);
        if filters.allows(difference.values[i].path.to_string().as_str()) {
            let one = copy_value_diff(&difference.values[i]);
            let ghost before = values@;
            values.push(one);
            assert(views(values@) == views(before).push(one@));
        }
    }
    assert(vs.take(vs.len() as int) =~= vs);
    Diff { keys, values }
}

// ---------------------------------------------------------------------------
// Rendering
// ---------------------------------------------------------------------------

/// Data under a name as exact JSON, or `null`.
pub open spec fn exact_json(name: Option<Seq<char>>, data: Option<DataView>) -> Seq<char> {
    match data {
        Some(d) => value_json(EntryView { name, data: d, line: 0 }),
        None => "null"@,
    }
}

/// Data under a name as exact JSON, or `null`.
pub fn diff_exact_json(name: &ValueName, data: &Option<RegData>) -> (out: String)
    ensures
        out@ == exact_json(name@, opt_data(*data)),
{
    match data {
        Some(d) => value_to_json(&ValueEntry { name: name.clone(), data: d.clone(), line: 0 }),
        None => "null".to_owned(),
    }
}

/// Data as text for a reader, as JSON, or `null`.
pub open spec fn preview_json(data: Option<DataView>) -> Seq<char> {
    match data {
        Some(d) => json_string(preview_of(d)),
        None => "null"@,
    }
}

fn to_preview_json(data: &Option<RegData>) -> (out: String)
    ensures
        out@ == preview_json(opt_data(*data)),
{
    match data {
        Some(d) => jstr(d.preview().as_str()),
        None => "null".to_owned(),
    }
}

/// The difference of a key as JSON.
pub open spec fn key_diff_json(k: KeyDiffView) -> Seq<char> {
    "{\"kind\":\"key\",\"change\":"@ + json_string(change_name(k.change)) + ",\"path\":"@
        + json_string(path_text(k.path)) + "}"@
}

/// The difference of a value as JSON, with both sides for a reader and exact.
pub open spec fn value_diff_json(v: ValueDiffView) -> Seq<char> {
    "{\"kind\":\"value\",\"change\":"@ + json_string(change_name(v.change)) + ",\"path\":"@
        + json_string(path_text(v.path)) + ",\"name\":"@ + json_string(name_text(v.name))
        + ",\"left\":"@ + preview_json(v.left) + ",\"right\":"@ + preview_json(v.right)
        + ",\"leftExact\":"@ + exact_json(v.name, v.left) + ",\"rightExact\":"@ + exact_json(
        v.name,
        v.right,
    ) + "}"@
}

/// The difference of a value as JSON, with both sides exact.
pub open spec fn value_watch_json(v: ValueDiffView) -> Seq<char> {
    "{\"kind\":\"value\",\"change\":"@ + json_string(change_name(v.change)) + ",\"path\":"@
        + json_string(path_text(v.path)) + ",\"name\":"@ + json_string(name_text(v.name))
        + ",\"leftExact\":"@ + exact_json(v.name, v.left) + ",\"rightExact\":"@ + exact_json(
        v.name,
        v.right,
    ) + "}"@
}

fn render_key(k: &KeyDiff) -> (out: String)
    ensures
        out@ == key_diff_json(k@),
{
    let mut out = "{\"kind\":\"key\",\"change\":".to_owned();
    out.append(jstr(k.change.name()).as_str());
    out.append(",\"path\":");
    out.append(jstr(k.path.to_string().as_str()).as_str());
    out.append("}");
    out
}

fn render_value(v: &ValueDiff) -> (out: String)
    ensures
        out@ == value_diff_json(v@),
{
    let mut out = "{\"kind\":\"value\",\"change\":".to_owned();
    out.append(jstr(v.change.name()).as_str());
    out.append(",\"path\":");
    out.append(jstr(v.path.to_string().as_str()).as_str());
    out.append(",\"name\":");
    out.append(jstr(v.name.to_string().as_str()).as_str());
    out.append(",\"left\":");
    out.append(to_preview_json(&v.left).as_str());
    out.append(",\"right\":");
    out.append(to_preview_json(&v.right).as_str());
    out.append(",\"leftExact\":");
    out.append(diff_exact_json(&v.name, &v.left).as_str());
    out.append(",\"rightExact\":");
    out.append(diff_exact_json(&v.name, &v.right).as_str());
    out.append("}");
    out
}

fn render_watched(v: &ValueDiff) -> (out: String)
    ensures
        out@ == value_watch_json(v@),
{
    let mut out = "{\"kind\":\"value\",\"change\":".to_owned();
    out.append(jstr(v.change.name()).as_str());
    out.append(",\"path\":");
    out.append(jstr(v.path.to_string().as_str()).as_str());
    out.append(",\"name\":");
    out.append(jstr(v.name.to_string().as_str()).as_str());
    out.append(",\"leftExact\":");
    out.append(diff_exact_json(&v.name, &v.left).as_str());
    out.append(",\"rightExact\":");
    out.append(diff_exact_json(&v.name, &v.right).as_str());
    out.append("}");
    out
}

/// The differences as JSON, one by one; nothing for a summary.
pub open spec fn changes_json(d: DiffView, summary_only: bool) -> Seq<Seq<char>> {
    if summary_only {
        Seq::empty()
    } else {
        d.keys.map_values(|k: KeyDiffView| key_diff_json(k)) + d.values.map_values(
            |v: ValueDiffView| value_diff_json(v),
        )
    }
}

/// The differences as one JSON array, exact on both sides.
pub open spec fn watch_json(d: DiffView) -> Seq<char> {
    "["@ + joined(
        d.keys.map_values(|k: KeyDiffView| key_diff_json(k)) + d.values.map_values(
            |v: ValueDiffView| value_watch_json(v),
        ),
        ","@,
    ) + "]"@
}

fn render_keys(keys: &Vec<KeyDiff>) -> (out: Vec<String>)
    ensures
        views(out@) == views(keys@).map_values(|k: KeyDiffView| key_diff_json(k)),
{
    broadcast use views_push;

    let ghost all = views(keys@);
    let mut out: Vec<String> = Vec::new();
    for i in 0..keys.len()
        invariant
            all == views(keys@),
            views(out@) =~= all.take(i as int).map_values(|k: KeyDiffView| key_diff_json(k)),
    {
        let one = render_key(&keys[i]);
        let ghost before = out@;
        out.push(one);
        assert(views(out@) == views(before).push(one@));
    }
    assert(all.take(all.len() as int) =~= all);
    out
}

/// The differences as JSON, one by one.
pub fn diff_changes_json(difference: &Diff, summary_only: bool) -> (out: Vec<String>)
    ensures
        views(out@) == changes_json(difference@, summary_only),
{
    broadcast use views_push;

    if summary_only {
        let none: Vec<String> = Vec::new();
        assert(views(none@) =~= Seq::<Seq<char>>::empty());
        return none;
    }
    let mut out = render_keys(&difference.keys);
    let ghost head = views(out@);
    let ghost all = views(difference.values@);
    for i in 0..difference.values.len()
        invariant
            all == views(difference.values@),
            views(out@) =~= head + all.take(i as int).map_values(
                |v: ValueDiffView| value_diff_json(v),
            ),
    {
        let one = render_value(&difference.values[i]);
        let ghost before = out@;
        out.push(one);
        assert(views(out@) == views(before).push(one@));
    }
    assert(all.take(all.len() as int) =~= all);
    out
}

/// The difference of a key as an indented JSON object.
pub open spec fn key_diff_line(k: KeyDiffView) -> Seq<char> {
    "    {\"kind\": \"key\", \"change\": "@ + json_string(change_name(k.change)) + ", \"path\": "@
        + json_string(path_text(k.path)) + "}"@
}

/// The difference of a value as an indented JSON object.
pub open spec fn value_diff_line(v: ValueDiffView) -> Seq<char> {
    "    {\"kind\": \"value\", \"change\": "@ + json_string(change_name(v.change))
        + ", \"path\": "@ + json_string(path_text(v.path)) + ", \"name\": "@ + json_string(
        name_text(v.name),
    ) + ", \"left\": "@ + preview_json(v.left) + ", \"right\": "@ + preview_json(v.right)
        + ", \"leftExact\": "@ + exact_json(v.name, v.left) + ", \"rightExact\": "@ + exact_json(
        v.name,
        v.right,
    ) + "}"@
}

/// The differences as indented JSON objects; nothing for a summary.
pub open spec fn diff_lines(d: DiffView, summary_only: bool) -> Seq<Seq<char>> {
    if summary_only {
        Seq::empty()
    } else {
        d.keys.map_values(|k: KeyDiffView| key_diff_line(k)) + d.values.map_values(
            |v: ValueDiffView| value_diff_line(v),
        )
    }
}

fn render_value_line(v: &ValueDiff) -> (out: String)
    ensures
        out@ == value_diff_line(v@),
{
    let mut out = "    {\"kind\": \"value\", \"change\": ".to_owned();
    out.append(jstr(v.change.name()).as_str());
    out.append(", \"path\": ");
    out.append(jstr(v.path.to_string().as_str()).as_str());
    out.append(", \"name\": ");
    out.append(jstr(v.name.to_string().as_str()).as_str());
    out.append(", \"left\": ");
    out.append(to_preview_json(&v.left).as_str());
    out.append(", \"right\": ");
    out.append(to_preview_json(&v.right).as_str());
    out.append(", \"leftExact\": ");
    out.append(diff_exact_json(&v.name, &v.left).as_str());
    out.append(", \"rightExact\": ");
    out.append(diff_exact_json(&v.name, &v.right).as_str());
    out.append("}");
    out
}

/// The differences as indented JSON objects, one by one.
pub fn diff_lines_json(difference: &Diff, summary_only: bool) -> (out: Vec<String>)
    ensures
        views(out@) == diff_lines(difference@, summary_only),
{
    broadcast use views_push;

    let mut out: Vec<String> = Vec::new();
    assert(views(out@) =~= Seq::<Seq<char>>::empty());
    if summary_only {
        return out;
    }
    let ghost ks = views(difference.keys@);
    for i in 0..difference.keys.len()
        invariant
            ks == views(difference.keys@),
            views(out@) =~= ks.take(i as int).map_values(|k: KeyDiffView| key_diff_line(k)),
    {
        let k = &difference.keys[i];
        let mut one = "    {\"kind\": \"key\", \"change\": ".to_owned();
        one.append(jstr(k.change.name()).as_str());
        one.append(", \"path\": ");
        one.append(jstr(k.path.to_string().as_str()).as_str());
        one.append("}");
        let ghost before = out@;
        out.push(one);
        assert(views(out@) == views(before).push(one@));
    }
    assert(ks.take(ks.len() as int) =~= ks);
    let ghost head = views(out@);
    let ghost vs = views(difference.values@);
    for i in 0..difference.values.len()
        invariant
            vs == views(difference.values@),
            views(out@) =~= head + vs.take(i as int).map_values(
                |v: ValueDiffView| value_diff_line(v),
            ),
    {
        let one = render_value_line(&difference.values[i]);
        let ghost before = out@;
        out.push(one);
        assert(views(out@) == views(before).push(one@));
    }
    assert(vs.take(vs.len() as int) =~= vs);
    out
}

/// The differences as one JSON array, exact on both sides.
pub fn watch_changes_json(changes: &Diff) -> (out: String)
    ensures
        out@ == watch_json(changes@),
{
    broadcast use views_push;

    let mut items = render_keys(&changes.keys);
    let ghost head = views(items@);
    let ghost all = views(changes.values@);
    for i in 0..changes.values.len()
        invariant
            all == views(changes.values@),
            views(items@) =~= head + all.take(i as int).map_values(
                |v: ValueDiffView| value_watch_json(v),
            ),
    {
        let one = render_watched(&changes.values[i]);
        let ghost before = items@;
        items.push(one);
        assert(views(items@) == views(before).push(one@));
    }
    assert(all.take(all.len() as int) =~= all);
    let mut out = "[".to_owned();
    out.append(join(items.as_slice(), ",").as_str());
    out.append("]");
    out
}

} // verus!
