//! Narrowing registry data down to the keys and values that were asked for.
use vstd::prelude::*;

use crate::exit::{failed, plain_error, usage, usage_error, ErrorView, ExitError};
use crate::model::{
    folded, path_text, type_id_of, type_name_of, BlockView, DataView, EntryView, KeyBlock,
    PathView, RegData, RegFile, RegPath, ValueEntry,
};
use crate::number::digit_value;
use crate::search::{
    all_sound, filter_name, full_roots, glob_matchers, globs_of, key_globs_refused, tells_refusal,
    Filters, FiltersView, ValueFilters,
};
use crate::text::{
    chars_of, concat, debug_text, lowered, split, split_by, string_of, to_debug, to_lower, views,
    views_push,
};
use crate::writer::{data_to_raw, raw_of};

verus! {

// ---------------------------------------------------------------------------
// Counting
// ---------------------------------------------------------------------------

/// A count, which stays at the largest number once it is reached.
pub open spec fn capped(n: nat) -> usize {
    if n <= usize::MAX {
        n as usize
    } else {
        usize::MAX
    }
}

fn bump(n: usize, Ghost(k): Ghost<nat>) -> (r: usize)
    requires
        n == capped(k),
    ensures
        r == capped(k + 1),
{
    if n < usize::MAX {
        n + 1
    } else {
        n
    }
}

fn grow(n: usize, by: usize, Ghost(k): Ghost<nat>) -> (r: usize)
    requires
        n == capped(k),
    ensures
        r == capped(k + by as nat),
{
    if n <= usize::MAX - by {
        n + by
    } else {
        usize::MAX
    }
}

/// The number of values under all keys.
pub open spec fn total_values(keys: Seq<BlockView>) -> nat
    decreases keys.len(),
{
    if keys.len() == 0 {
        0
    } else {
        total_values(keys.drop_last()) + keys.last().values.len()
    }
}

/// The number of values under all keys.
pub fn count_values(keys: &Vec<KeyBlock>) -> (n: usize)
    ensures
        n == capped(total_values(views(keys@))),
{
    let ghost all = views(keys@);
    let mut n: usize = 0;
    assert(all.take(0) =~= Seq::<BlockView>::empty());
    for i in 0..keys.len()
        invariant
            all == views(keys@),
            n == capped(total_values(all.take(i as int))),
    {
        assert(all.take(i + 1).drop_last() =~= all.take(i as int));
        assert(all.take(i + 1).last() == keys@[i as int]@);
        assert(keys@[i as int]@.values.len() == keys@[i as int].values@.len());
        n = grow(n, keys[i].values.len(), Ghost(total_values(all.take(i as int))));
    }
    assert(all.take(all.len() as int) =~= all);
    n
}

// ---------------------------------------------------------------------------
// Values
// ---------------------------------------------------------------------------

/// The values that pass, in order.
pub open spec fn kept_values(values: Seq<EntryView>, f: FiltersView) -> Seq<EntryView>
    decreases values.len(),
{
    if values.len() == 0 {
        Seq::empty()
    } else if f.allows(filter_name(values.last().name)) {
        kept_values(values.drop_last(), f).push(values.last())
    } else {
        kept_values(values.drop_last(), f)
    }
}

/// The blocks that remain: of those that set values, the ones with a value that
/// passes. A block that deletes its key or has no values is left out.
pub open spec fn kept_blocks(keys: Seq<BlockView>, f: FiltersView) -> Seq<BlockView>
    decreases keys.len(),
{
    if keys.len() == 0 {
        Seq::empty()
    } else {
        let before = kept_blocks(keys.drop_last(), f);
        let key = keys.last();
        let values = kept_values(key.values, f);
        if key.delete || values.len() == 0 {
            before
        } else {
            before.push(BlockView { values, ..key })
        }
    }
}

/// The number of values that remain.
pub open spec fn selected_count(keys: Seq<BlockView>, f: FiltersView) -> nat
    decreases keys.len(),
{
    if keys.len() == 0 {
        0
    } else {
        selected_count(keys.drop_last(), f) + if keys.last().delete {
            0
        } else {
            kept_values(keys.last().values, f).len()
        }
    }
}

/// The number of values that do not remain, those of deleted keys aside.
pub open spec fn omitted_count(keys: Seq<BlockView>, f: FiltersView) -> int
    decreases keys.len(),
{
    if keys.len() == 0 {
        0
    } else {
        omitted_count(keys.drop_last(), f) + if keys.last().delete {
            0
        } else {
            keys.last().values.len() - kept_values(keys.last().values, f).len()
        }
    }
}

/// The number of blocks that delete their key or have no values.
pub open spec fn whole_key_count(keys: Seq<BlockView>) -> nat
    decreases keys.len(),
{
    if keys.len() == 0 {
        0
    } else {
        whole_key_count(keys.drop_last()) + if keys.last().delete || keys.last().values.len()
            == 0 {
            1nat
        } else {
            0
        }
    }
}

proof fn kept_values_are_fewer(values: Seq<EntryView>, f: FiltersView)
    ensures
        kept_values(values, f).len() <= values.len(),
    decreases values.len(),
{
    if values.len() > 0 {
        kept_values_are_fewer(values.drop_last(), f);
    }
}

proof fn omitted_is_a_count(keys: Seq<BlockView>, f: FiltersView)
    ensures
        omitted_count(keys, f) >= 0,
    decreases keys.len(),
{
    if keys.len() > 0 {
        omitted_is_a_count(keys.drop_last(), f);
        kept_values_are_fewer(keys.last().values, f);
    }
}

/// What a selection of values kept and left out.
#[derive(Clone, Copy, Debug, PartialEq, Eq, Structural)]
pub struct ValueFilterReport {
    pub selected: usize,
    pub omitted: usize,
    pub key_operations_omitted: usize,
}

/// The report of a selection.
pub open spec fn report_of(keys: Seq<BlockView>, f: FiltersView) -> ValueFilterReport {
    ValueFilterReport {
        selected: capped(selected_count(keys, f)),
        omitted: capped(omitted_count(keys, f) as nat),
        key_operations_omitted: capped(whole_key_count(keys)),
    }
}

fn keep_values(values: &Vec<ValueEntry>, filters: &ValueFilters) -> (out: Vec<ValueEntry>)
    ensures
        views(out@) == kept_values(views(values@), filters@),
{
    broadcast use views_push;

    let ghost all = views(values@);
    let mut out: Vec<ValueEntry> = Vec::new();
    assert(views(out@) =~= Seq::<EntryView>::empty());
    assert(all.take(0) =~= Seq::<EntryView>::empty());
    for i in 0..values.len()
        invariant
            all == views(values@),
            views(out@) == kept_values(all.take(i as int), filters@),
    {
        assert(all.take(i + 1).drop_last() =~= all.take(i as int));
        assert(all.take(i + 1).last() == values@[i as int]@);
        if filters.allows(&values[i].name) {
            let entry = values[i].clone();
            let ghost before = out@;
            out.push(entry);
            assert(views(out@) == views(before).push(entry@));
        }
    }
    assert(all.take(all.len() as int) =~= all);
    out
}

/// Keeps the values that pass.
pub fn select_values(keys: &Vec<KeyBlock>, filters: &ValueFilters) -> (r: (
    Vec<KeyBlock>,
    ValueFilterReport,
))
    ensures
        views(r.0@) == kept_blocks(views(keys@), filters@),
        r.1 == report_of(views(keys@), filters@),
{
    broadcast use views_push;

    let ghost all = views(keys@);
    let ghost f = filters@;
    let mut out: Vec<KeyBlock> = Vec::new();
    let mut selected: usize = 0;
    let mut omitted: usize = 0;
    let mut whole: usize = 0;
    assert(views(out@) =~= Seq::<BlockView>::empty());
    assert(all.take(0) =~= Seq::<BlockView>::empty());
    for i in 0..keys.len()
        invariant
            all == views(keys@),
            f == filters@,
            views(out@) == kept_blocks(all.take(i as int), f),
            selected == capped(selected_count(all.take(i as int), f)),
            omitted == capped(omitted_count(all.take(i as int), f) as nat),
            whole == capped(whole_key_count(all.take(i as int))),
    {
        let key = &keys[i];
        let ghost kv = all[i as int];
        let ghost front = all.take(i as int);
        proof {
            assert(kv == key@);
            assert(all.take(i + 1).drop_last() =~= front);
            assert(all.take(i + 1).last() == kv);
            omitted_is_a_count(front, f);
            kept_values_are_fewer(kv.values, f);
            assert(kv.values.len() == key.values@.len());
        }
        if key.delete || key.values.len() == 0 {
            whole = bump(whole, Ghost(whole_key_count(front)));
            proof {
                if key.values@.len() == 0 {
                    assert(kept_values(kv.values, f).len() == 0);
                }
            }
        } else {
            let values = keep_values(&key.values, filters);
            assert(values@.len() == views(values@).len());
            selected = grow(selected, values.len(), Ghost(selected_count(front, f)));
            omitted = grow(
                omitted,
                key.values.len() - values.len(),
                Ghost(omitted_count(front, f) as nat),
            );
            if values.len() != 0 {
                let block = KeyBlock {
                    path: key.path.clone(),
                    delete: key.delete,
                    values,
                    line: key.line,
                };
                let ghost before = out@;
                out.push(block);
                assert(views(out@) == views(before).push(block@));
            }
        }
    }
    assert(all.take(all.len() as int) =~= all);
    (
        out,
        ValueFilterReport { selected, omitted, key_operations_omitted: whole },
    )
}

/// The filters of value patterns.
pub open spec fn value_filters_of(
    include_values: Seq<Seq<char>>,
    exclude_values: Seq<Seq<char>>,
) -> FiltersView {
    FiltersView {
        include_queries: globs_of(include_values, false),
        exclude_queries: globs_of(exclude_values, false),
    }
}

/// A message says why the first value pattern that is refused is; those to
/// include come before those to exclude.
pub open spec fn value_globs_refused(
    message: Seq<char>,
    include_values: Seq<Seq<char>>,
    exclude_values: Seq<Seq<char>>,
) -> bool {
    tells_refusal(message, include_values, false) || (all_sound(include_values, false)
        && tells_refusal(message, exclude_values, false))
}

fn value_queries(include_values: &[String], exclude_values: &[String]) -> (r: Result<
    ValueFilters,
    String,
>)
    ensures
        match r {
            Ok(f) => f@ == value_filters_of(views(include_values@), views(exclude_values@))
                && all_sound(views(include_values@), false) && all_sound(
                views(exclude_values@),
                false,
            ),
            Err(m) => value_globs_refused(m@, views(include_values@), views(exclude_values@)),
        },
{
    let include_queries = match glob_matchers(include_values, false) {
        Ok(ms) => ms,
        Err(e) => {
            return Err(e);
        },
    };
    match glob_matchers(exclude_values, false) {
        Ok(exclude_queries) => Ok(ValueFilters { include_queries, exclude_queries }),
        Err(e) => Err(e),
    }
}

/// Keeps the values of a file that pass compiled patterns. Patterns that were
/// refused leave the file as it is.
pub fn filter_compiled_names(file: &mut RegFile, compiled: Result<ValueFilters, String>) -> (r:
    Result<ValueFilterReport, String>)
    ensures
        final(file)@.format == old(file)@.format,
        final(file)@.encoding == old(file)@.encoding,
        match (compiled, r) {
            (Ok(f), Ok(report)) => final(file)@.keys == kept_blocks(old(file)@.keys, f@)
                && report == report_of(old(file)@.keys, f@),
            (Err(e), Err(m)) => m@ == e@ && final(file)@.keys == old(file)@.keys,
            _ => false,
        },
{
    match compiled {
        Ok(filters) => {
            let (keys, report) = select_values(&file.keys, &filters);
            file.keys = keys;
            Ok(report)
        },
        Err(e) => Err(e),
    }
}

/// Keeps the values of a file whose names match the patterns. Without patterns
/// the file stays as it is.
pub fn filter_value_names(
    file: &mut RegFile,
    include_values: &[String],
    exclude_values: &[String],
) -> (r: Result<Option<ValueFilterReport>, String>)
    ensures
        final(file)@.format == old(file)@.format,
        final(file)@.encoding == old(file)@.encoding,
        include_values@.len() == 0 && exclude_values@.len() == 0 <==> r matches Ok(None),
        !(r matches Ok(Some(_))) ==> final(file)@.keys == old(file)@.keys,
        ({
            let f = value_filters_of(views(include_values@), views(exclude_values@));
            r matches Ok(Some(report)) ==> {
                &&& final(file)@.keys == kept_blocks(old(file)@.keys, f)
                &&& report == report_of(old(file)@.keys, f)
                &&& all_sound(views(include_values@), false)
                &&& all_sound(views(exclude_values@), false)
            }
        }),
        r matches Err(e) ==> value_globs_refused(
            e@,
            views(include_values@),
            views(exclude_values@),
        ),
{
    if include_values.len() == 0 && exclude_values.len() == 0 {
        return Ok(None);
    }
    match filter_compiled_names(file, value_queries(include_values, exclude_values)) {
        Ok(report) => Ok(Some(report)),
        Err(e) => Err(e),
    }
}

/// Selecting by value names never leaves a whole-key operation: what remains
/// sets values and deletes no key.
pub proof fn selections_hold_no_whole_key_operation(
    keys: Seq<BlockView>,
    f: FiltersView,
    k: int,
)
    requires
        0 <= k < kept_blocks(keys, f).len(),
    ensures
        !kept_blocks(keys, f)[k].delete,
        kept_blocks(keys, f)[k].values.len() != 0,
    decreases keys.len(),
{
    let before = kept_blocks(keys.drop_last(), f);
    if k < before.len() {
        selections_hold_no_whole_key_operation(keys.drop_last(), f, k);
        assert(kept_blocks(keys, f)[k] == before[k]);
    }
}

/// Every value that is kept passes.
pub proof fn kept_values_pass(values: Seq<EntryView>, f: FiltersView, k: int)
    requires
        0 <= k < kept_values(values, f).len(),
    ensures
        f.allows(filter_name(kept_values(values, f)[k].name)),
        values.contains(kept_values(values, f)[k]),
    decreases values.len(),
{
    let before = kept_values(values.drop_last(), f);
    if k < before.len() {
        kept_values_pass(values.drop_last(), f, k);
        assert(kept_values(values, f)[k] == before[k]);
        let i = choose|i: int|
            0 <= i < values.drop_last().len() && values.drop_last()[i] == before[k];
        assert(values[i] == before[k]);
    } else {
        assert(values[values.len() - 1] == values.last());
    }
}

// ---------------------------------------------------------------------------
// Keys
// ---------------------------------------------------------------------------

/// The text by which a key is filtered: its whole path, or its subkey path.
pub open spec fn filtered_text(path: PathView, relative: bool) -> Seq<char> {
    if relative {
        path.sub
    } else {
        path_text(path)
    }
}

/// The blocks whose keys pass, in order.
pub open spec fn passing_blocks(
    keys: Seq<BlockView>,
    f: FiltersView,
    relative: bool,
) -> Seq<BlockView>
    decreases keys.len(),
{
    if keys.len() == 0 {
        Seq::empty()
    } else if f.allows(filtered_text(keys.last().path, relative)) {
        passing_blocks(keys.drop_last(), f, relative).push(keys.last())
    } else {
        passing_blocks(keys.drop_last(), f, relative)
    }
}

/// Keeps the blocks whose keys pass.
pub fn select_keys(keys: &Vec<KeyBlock>, filters: &Filters, relative: bool) -> (out: Vec<KeyBlock>)
    ensures
        views(out@) == passing_blocks(views(keys@), filters@, relative),
{
    broadcast use views_push;

    let ghost all = views(keys@);
    let mut out: Vec<KeyBlock> = Vec::new();
    assert(views(out@) =~= Seq::<BlockView>::empty());
    assert(all.take(0) =~= Seq::<BlockView>::empty());
    for i in 0..keys.len()
        invariant
            all == views(keys@),
            views(out@) == passing_blocks(all.take(i as int), filters@, relative),
    {
        assert(all.take(i + 1).drop_last() =~= all.take(i as int));
        assert(all.take(i + 1).last() == keys@[i as int]@);
        let text = if relative {
            keys[i].path.sub.clone()
        } else {
            keys[i].path.to_string()
        };
        if filters.allows(text.as_str()) {
            let block = keys[i].clone();
            let ghost before = out@;
            out.push(block);
            assert(views(out@) == views(before).push(block@));
        }
    }
    assert(all.take(all.len() as int) =~= all);
    out
}

/// The filters of key patterns.
pub open spec fn key_filters_of(
    include_keys: Seq<Seq<char>>,
    exclude_keys: Seq<Seq<char>>,
) -> FiltersView {
    FiltersView {
        include_queries: globs_of(full_roots(include_keys), false),
        exclude_queries: globs_of(full_roots(exclude_keys), false),
    }
}

/// Keeps the keys of a file that pass compiled patterns. Patterns that were
/// refused leave the file as it is.
pub fn filter_compiled_keys(file: &mut RegFile, compiled: Result<Filters, String>) -> (r: Result<
    (),
    ExitError,
>)
    ensures
        final(file)@.format == old(file)@.format,
        final(file)@.encoding == old(file)@.encoding,
        match (compiled, r) {
            (Ok(f), Ok(_)) => final(file)@.keys == passing_blocks(old(file)@.keys, f@, false),
            (Err(e), Err(x)) => x@ == usage_error(e@) && final(file)@.keys == old(file)@.keys,
            _ => false,
        },
{
    match compiled {
        Ok(filters) => {
            file.keys = select_keys(&file.keys, &filters, false);
            Ok(())
        },
        Err(e) => Err(usage(e)),
    }
}

/// Keeps the keys of a file that match the patterns; tells whether there were
/// any patterns.
pub fn filter_key_paths(file: &mut RegFile, include_keys: &[String], exclude_keys: &[String]) -> (r:
    Result<bool, ExitError>)
    ensures
        final(file)@.format == old(file)@.format,
        final(file)@.encoding == old(file)@.encoding,
        r matches Ok(b) ==> b == (include_keys@.len() != 0 || exclude_keys@.len() != 0),
        include_keys@.len() == 0 && exclude_keys@.len() == 0 ==> r is Ok,
        r matches Ok(true) ==> final(file)@.keys == passing_blocks(
            old(file)@.keys,
            key_filters_of(views(include_keys@), views(exclude_keys@)),
            false,
        ),
        !(r matches Ok(true)) ==> final(file)@.keys == old(file)@.keys,
        r is Ok ==> all_sound(full_roots(views(include_keys@)), false) && all_sound(
            full_roots(views(exclude_keys@)),
            false,
        ),
        r matches Err(e) ==> e@ == usage_error(e@.message) && key_globs_refused(
            e@.message,
            views(include_keys@),
            views(exclude_keys@),
            false,
        ),
{
    if include_keys.len() == 0 && exclude_keys.len() == 0 {
        return Ok(false);
    }
    match filter_compiled_keys(file, Filters::compile_globs(include_keys, exclude_keys, false)) {
        Ok(_) => Ok(true),
        Err(e) => Err(e),
    }
}

// ---------------------------------------------------------------------------
// Scopes
// ---------------------------------------------------------------------------

/// What a scope selects.
#[derive(Debug)]
pub struct FingerprintSelection {
    pub keys: Vec<KeyBlock>,
    pub matched: bool,
    pub key_count: usize,
    pub value_count: usize,
}

/// The patterns of a scope.
#[derive(Debug)]
pub struct Scope {
    pub include_keys: Vec<String>,
    pub exclude_keys: Vec<String>,
    pub include_values: Vec<String>,
    pub exclude_values: Vec<String>,
}

/// What the patterns of a scope stand for.
pub struct ScopeView {
    pub include_keys: Seq<Seq<char>>,
    pub exclude_keys: Seq<Seq<char>>,
    pub include_values: Seq<Seq<char>>,
    pub exclude_values: Seq<Seq<char>>,
}

impl View for Scope {
    type V = ScopeView;

    open spec fn view(&self) -> ScopeView {
        ScopeView {
            include_keys: views(self.include_keys@),
            exclude_keys: views(self.exclude_keys@),
            include_values: views(self.include_values@),
            exclude_values: views(self.exclude_values@),
        }
    }
}

impl ScopeView {
    /// Keys are filtered.
    pub open spec fn filters_keys(self) -> bool {
        self.include_keys.len() != 0 || self.exclude_keys.len() != 0
    }

    /// Values are filtered.
    pub open spec fn filters_values(self) -> bool {
        self.include_values.len() != 0 || self.exclude_values.len() != 0
    }

    /// The blocks within the scope.
    pub open spec fn selects(self, keys: Seq<BlockView>, relative: bool) -> Seq<BlockView> {
        let some = if self.filters_keys() {
            passing_blocks(keys, key_filters_of(self.include_keys, self.exclude_keys), relative)
        } else {
            keys
        };
        if self.filters_values() {
            kept_blocks(some, value_filters_of(self.include_values, self.exclude_values))
        } else {
            some
        }
    }
}

impl ScopeView {
    /// The key patterns are regular expressions.
    pub open spec fn keys_sound(self) -> bool {
        all_sound(full_roots(self.include_keys), false) && all_sound(
            full_roots(self.exclude_keys),
            false,
        )
    }

    /// The value patterns are regular expressions.
    pub open spec fn values_sound(self) -> bool {
        all_sound(self.include_values, false) && all_sound(self.exclude_values, false)
    }

    /// An error says which of the patterns is the first that is refused, and
    /// why. Key patterns come before value patterns.
    pub open spec fn refused_with(self, e: ErrorView) -> bool {
        ||| e == usage_error(e.message) && key_globs_refused(
            e.message,
            self.include_keys,
            self.exclude_keys,
            false,
        )
        ||| self.keys_sound() && e == plain_error(e.message) && value_globs_refused(
            e.message,
            self.include_values,
            self.exclude_values,
        )
    }
}

/// What compiled patterns select, where there are any.
pub open spec fn compiled_selects(
    keys: Seq<BlockView>,
    key_filters: Option<FiltersView>,
    value_filters: Option<FiltersView>,
    relative: bool,
) -> Seq<BlockView> {
    let some = match key_filters {
        Some(f) => passing_blocks(keys, f, relative),
        None => keys,
    };
    match value_filters {
        Some(f) => kept_blocks(some, f),
        None => some,
    }
}

/// What a selection stands for.
pub open spec fn is_selection(s: FingerprintSelection, selected: Seq<BlockView>, active: bool) -> bool {
    &&& views(s.keys@) == selected
    &&& s.key_count == selected.len()
    &&& s.value_count == capped(total_values(selected))
    &&& s.matched == (selected.len() > 0 || !active)
}

/// Selects what passes compiled patterns: those of keys, where there are any,
/// and those of values, where there are any. Key patterns that were refused are
/// the caller's error and come first.
pub fn select_compiled(
    keys: Vec<KeyBlock>,
    key_filters: Option<Result<Filters, String>>,
    value_filters: Option<Result<ValueFilters, String>>,
    relative_paths: bool,
) -> (r: Result<FingerprintSelection, ExitError>)
    ensures
        match (key_filters, value_filters) {
            (Some(Err(e)), _) => r is Err && r->Err_0@ == usage_error(e@),
            (_, Some(Err(e))) => r is Err && r->Err_0@ == plain_error(e@),
            (None, None) => r is Ok && is_selection(r->Ok_0, views(keys@), false),
            (Some(Ok(k)), None) => r is Ok && is_selection(
                r->Ok_0,
                compiled_selects(views(keys@), Some(k@), None, relative_paths),
                true,
            ),
            (None, Some(Ok(v))) => r is Ok && is_selection(
                r->Ok_0,
                compiled_selects(views(keys@), None, Some(v@), relative_paths),
                true,
            ),
            (Some(Ok(k)), Some(Ok(v))) => r is Ok && is_selection(
                r->Ok_0,
                compiled_selects(views(keys@), Some(k@), Some(v@), relative_paths),
                true,
            ),
        },
{
    let active = key_filters.is_some() || value_filters.is_some();
    let some = match key_filters {
        None => keys,
        Some(Ok(filters)) => select_keys(&keys, &filters, relative_paths),
        Some(Err(e)) => {
            return Err(usage(e));
        },
    };
    let selected = match value_filters {
        None => some,
        Some(Ok(filters)) => select_values(&some, &filters).0,
        Some(Err(e)) => {
            return Err(failed(e));
        },
    };
    let key_count = selected.len();
    let value_count = count_values(&selected);
    Ok(
        FingerprintSelection {
            matched: !active || key_count > 0,
            keys: selected,
            key_count,
            value_count,
        },
    )
}

/// Selects what is within a scope. A scope without patterns selects everything
/// and always matches.
pub fn fingerprint_selection(keys: Vec<KeyBlock>, scope: &Scope, relative_paths: bool) -> (r: Result<
    FingerprintSelection,
    ExitError,
>)
    ensures
        !scope@.filters_keys() && !scope@.filters_values() ==> r is Ok,
        match r {
            Ok(s) => is_selection(
                s,
                scope@.selects(views(keys@), relative_paths),
                scope@.filters_keys() || scope@.filters_values(),
            ) && scope@.keys_sound() && scope@.values_sound(),
            Err(e) => scope@.refused_with(e@),
        },
{
    let key_filters = if scope.include_keys.len() != 0 || scope.exclude_keys.len() != 0 {
        Some(
            Filters::compile_globs(
                scope.include_keys.as_slice(),
                scope.exclude_keys.as_slice(),
                false,
            ),
        )
    } else {
        None
    };
    let value_filters = if scope.include_values.len() != 0 || scope.exclude_values.len() != 0 {
        Some(value_queries(scope.include_values.as_slice(), scope.exclude_values.as_slice()))
    } else {
        None
    };
    select_compiled(keys, key_filters, value_filters, relative_paths)
}

// ---------------------------------------------------------------------------
// One value by name
// ---------------------------------------------------------------------------

/// The values with a given name, in order.
pub open spec fn values_named(values: Seq<EntryView>, want: Seq<char>) -> Seq<EntryView>
    decreases values.len(),
{
    if values.len() == 0 {
        Seq::empty()
    } else if folded(crate::model::api_name(values.last().name)) == folded(want) {
        values_named(values.drop_last(), want).push(values.last())
    } else {
        values_named(values.drop_last(), want)
    }
}

/// The blocks with only the values of a given name; all of them where no name
/// is asked for.
pub open spec fn queried(keys: Seq<BlockView>, want: Option<Seq<char>>) -> Seq<BlockView> {
    match want {
        None => keys,
        Some(w) => keys.map_values(
            |b: BlockView| BlockView { values: values_named(b.values, w), ..b },
        ),
    }
}

fn keep_named(values: &Vec<ValueEntry>, want: &str) -> (out: Vec<ValueEntry>)
    ensures
        views(out@) == values_named(views(values@), want@),
{
    broadcast use views_push;

    let ghost all = views(values@);
    let mut out: Vec<ValueEntry> = Vec::new();
    assert(views(out@) =~= Seq::<EntryView>::empty());
    assert(all.take(0) =~= Seq::<EntryView>::empty());
    for i in 0..values.len()
        invariant
            all == views(values@),
            views(out@) == values_named(all.take(i as int), want@),
    {
        assert(all.take(i + 1).drop_last() =~= all.take(i as int));
        assert(all.take(i + 1).last() == values@[i as int]@);
        if crate::model::same_folded(values[i].name.api().as_str(), want) {
            let entry = values[i].clone();
            let ghost before = out@;
            out.push(entry);
            assert(views(out@) == views(before).push(entry@));
        }
    }
    assert(all.take(all.len() as int) =~= all);
    out
}

/// The blocks with only the values of a given name.
pub fn query_view(keys: Vec<KeyBlock>, value: Option<&str>) -> (out: Vec<KeyBlock>)
    ensures
        views(out@) == queried(views(keys@), crate::text::opt_str(value)),
{
    broadcast use views_push;

    let want = match value {
        None => {
            return keys;
        },
        Some(w) => w,
    };
    let ghost all = views(keys@);
    let mut out: Vec<KeyBlock> = Vec::new();
    for i in 0..keys.len()
        invariant
            all == views(keys@),
            views(out@) =~= all.take(i as int).map_values(
                |b: BlockView| BlockView { values: values_named(b.values, want@), ..b },
            ),
    {
        let key = &keys[i];
        let block = KeyBlock {
            path: key.path.clone(),
            delete: key.delete,
            values: keep_named(&key.values, want),
            line: key.line,
        };
        let ghost before = out@;
        out.push(block);
        assert(views(out@) == views(before).push(block@));
        assert(all[i as int] == key@);
    }
    assert(all.take(all.len() as int) =~= all);
    out
}

/// Some block has values.
pub open spec fn any_values(keys: Seq<BlockView>) -> bool {
    exists|i: int| 0 <= i < keys.len() && (#[trigger] keys[i]).values.len() != 0
}

/// Whether a query found what it asked for: nothing in particular, or some
/// value.
pub fn query_has_values(keys: &Vec<KeyBlock>, requested: bool) -> (b: bool)
    ensures
        b == (!requested || any_values(views(keys@))),
{
    if !requested {
        return true;
    }
    let ghost all = views(keys@);
    for i in 0..keys.len()
        invariant
            all == views(keys@),
            forall|j: int| 0 <= j < i ==> (#[trigger] all[j]).values.len() == 0,
    {
        assert(all[i as int] == keys@[i as int]@);
        assert(all[i as int].values.len() == keys@[i as int].values@.len());
        if keys[i].values.len() != 0 {
            assert(all[i as int].values.len() != 0);
            return true;
        }
    }
    false
}

// ---------------------------------------------------------------------------
// Expected digests
// ---------------------------------------------------------------------------

/// A hexadecimal digit.
pub open spec fn is_hex_digit(c: char) -> bool {
    digit_value(c) is Some && digit_value(c)->0 < 16
}

/// A digest as it is compared: 64 hexadecimal digits in lower case.
pub open spec fn expected_digest(raw: Seq<char>) -> Result<Seq<char>, ErrorView> {
    if raw.len() == 64 && forall|i: int| 0 <= i < raw.len() ==> is_hex_digit(#[trigger] raw[i]) {
        Ok(lowered(raw))
    } else {
        Err(
            usage_error(
                "expected SHA-256 must be exactly 64 hexadecimal characters, found "@
                    + debug_text(raw),
            ),
        )
    }
}

/// Reads a digest to compare with.
pub fn normalize_expected_sha256(raw: &str) -> (r: Result<String, ExitError>)
    ensures
        match r {
            Ok(s) => expected_digest(raw@) == Ok::<Seq<char>, ErrorView>(s@),
            Err(e) => expected_digest(raw@) == Err::<Seq<char>, ErrorView>(e@),
        },
{
    let chars = chars_of(raw);
    let mut good = chars.len() == 64;
    let mut i: usize = 0;
    while good && i < chars.len()
        invariant
            chars@ == raw@,
            i <= chars@.len(),
            good ==> raw@.len() == 64 && forall|j: int|
                0 <= j < i ==> is_hex_digit(#[trigger] raw@[j]),
            !good ==> raw@.len() != 64 || exists|j: int|
                0 <= j < raw@.len() && !is_hex_digit(#[trigger] raw@[j]),
        decreases chars@.len() - i,
    {
        let hex = match crate::number::read_digit(chars[i]) {
            Some(d) => d < 16,
            None => false,
        };
        if !hex {
            assert(!is_hex_digit(raw@[i as int]));
            good = false;
        }
        i += 1;
    }
    if good {
        let low = to_lower(chars.as_slice());
        Ok(string_of(low.as_slice()))
    } else {
        Err(
            usage(
                concat(
                    "expected SHA-256 must be exactly 64 hexadecimal characters, found ",
                    to_debug(raw).as_str(),
                ),
            ),
        )
    }
}

// ---------------------------------------------------------------------------
// Statistics
// ---------------------------------------------------------------------------

/// The number of components that are not empty.
pub open spec fn solid_parts(parts: Seq<Seq<char>>) -> nat
    decreases parts.len(),
{
    if parts.len() == 0 {
        0
    } else {
        solid_parts(parts.drop_last()) + if parts.last().len() == 0 {
            0nat
        } else {
            1
        }
    }
}

/// The depth of a subkey path.
pub open spec fn path_depth(sub: Seq<char>) -> nat {
    solid_parts(split_by(sub, '\\'))
}

fn depth_of(sub: &str) -> (n: usize)
    ensures
        n == path_depth(sub@),
{
    let chars = chars_of(sub);
    let parts = split(chars.as_slice(), '\\');
    let ghost all = views(parts@);
    let mut n: usize = 0;
    assert(all.take(0) =~= Seq::<Seq<char>>::empty());
    for i in 0..parts.len()
        invariant
            all == views(parts@),
            n <= i,
            n == solid_parts(all.take(i as int)),
    {
        assert(all.take(i + 1).drop_last() =~= all.take(i as int));
        assert(all.take(i + 1).last() == parts@[i as int]@);
        if parts[i].len() != 0 {
            n += 1;
        }
    }
    assert(all.take(all.len() as int) =~= all);
    n
}

/// The largest depth of a key below a base.
pub open spec fn deepest(keys: Seq<BlockView>, base: nat) -> nat
    decreases keys.len(),
{
    if keys.len() == 0 {
        0
    } else {
        let before = deepest(keys.drop_last(), base);
        let here = path_depth(keys.last().path.sub);
        let below = if here > base {
            (here - base) as nat
        } else {
            0
        };
        if below > before {
            below
        } else {
            before
        }
    }
}

/// What a tally counts.
pub enum Tally {
    /// Values with data of this type.
    Typed(Seq<char>),
    /// Values with data.
    Stored,
    /// Values that are deleted.
    Deleted,
    /// The bytes of the data.
    Bytes,
}

/// What one value adds to a tally.
pub open spec fn value_tally(v: EntryView, t: Tally) -> nat {
    match t {
        Tally::Typed(name) => if v.data != DataView::Delete && type_name_of(type_id_of(v.data))
            == name {
            1
        } else {
            0
        },
        Tally::Stored => if v.data == DataView::Delete {
            0
        } else {
            1
        },
        Tally::Deleted => if v.data == DataView::Delete {
            1
        } else {
            0
        },
        Tally::Bytes => match raw_of(v.data) {
            Some((_, bytes)) => bytes.len(),
            None => 0,
        },
    }
}

/// What values add to a tally.
pub open spec fn values_tally(values: Seq<EntryView>, t: Tally) -> nat
    decreases values.len(),
{
    if values.len() == 0 {
        0
    } else {
        values_tally(values.drop_last(), t) + value_tally(values.last(), t)
    }
}

/// What the values of the keys that are not deleted add to a tally.
pub open spec fn keys_tally(keys: Seq<BlockView>, t: Tally) -> nat
    decreases keys.len(),
{
    if keys.len() == 0 {
        0
    } else {
        keys_tally(keys.drop_last(), t) + if keys.last().delete {
            0
        } else {
            values_tally(keys.last().values, t)
        }
    }
}

/// The number of blocks that delete their key, or of those that do not.
pub open spec fn blocks_deleting(keys: Seq<BlockView>, delete: bool) -> nat
    decreases keys.len(),
{
    if keys.len() == 0 {
        0
    } else {
        blocks_deleting(keys.drop_last(), delete) + if keys.last().delete == delete {
            1nat
        } else {
            0
        }
    }
}

/// What registry data amounts to.
#[derive(Clone, Copy, Debug, PartialEq, Eq, Structural)]
pub struct RegistryStats {
    pub keys: usize,
    pub values: usize,
    pub key_deletes: usize,
    pub value_deletes: usize,
    pub max_depth: usize,
    pub payload_bytes: usize,
}

/// The statistics of merged registry data, depths being counted from a base.
pub open spec fn stats_of(keys: Seq<BlockView>, base: nat) -> RegistryStats {
    RegistryStats {
        keys: capped(blocks_deleting(keys, false)),
        values: capped(keys_tally(keys, Tally::Stored)),
        key_deletes: capped(blocks_deleting(keys, true)),
        value_deletes: capped(keys_tally(keys, Tally::Deleted)),
        max_depth: capped(deepest(keys, base)),
        payload_bytes: capped(keys_tally(keys, Tally::Bytes)),
    }
}

fn is_delete(data: &RegData) -> (b: bool)
    ensures
        b == (data@ == DataView::Delete),
{
    match data {
        RegData::Delete => true,
        _ => false,
    }
}

fn raw_length(data: &RegData) -> (n: usize)
    ensures
        n == (match raw_of(data@) {
            Some((_, bytes)) => bytes.len(),
            None => 0,
        }),
{
    match data_to_raw(data) {
        Some((_, bytes)) => bytes.len(),
        None => 0,
    }
}

fn tally_values(
    values: &Vec<ValueEntry>,
    stats: &mut RegistryStats,
    Ghost(set): Ghost<nat>,
    Ghost(deleted): Ghost<nat>,
    Ghost(bytes): Ghost<nat>,
)
    requires
        old(stats).values == capped(set),
        old(stats).value_deletes == capped(deleted),
        old(stats).payload_bytes == capped(bytes),
    ensures
        final(stats).keys == old(stats).keys,
        final(stats).key_deletes == old(stats).key_deletes,
        final(stats).max_depth == old(stats).max_depth,
        final(stats).values == capped(set + values_tally(views(values@), Tally::Stored)),
        final(stats).value_deletes == capped(deleted + values_tally(views(values@), Tally::Deleted)),
        final(stats).payload_bytes == capped(bytes + values_tally(views(values@), Tally::Bytes)),
{
    let ghost all = views(values@);
    let ghost start = *stats;
    assert(all.take(0) =~= Seq::<EntryView>::empty());
    for i in 0..values.len()
        invariant
            all == views(values@),
            stats.keys == start.keys,
            stats.key_deletes == start.key_deletes,
            stats.max_depth == start.max_depth,
            stats.values == capped(set + values_tally(all.take(i as int), Tally::Stored)),
            stats.value_deletes == capped(
                deleted + values_tally(all.take(i as int), Tally::Deleted),
            ),
            stats.payload_bytes == capped(bytes + values_tally(all.take(i as int), Tally::Bytes)),
    {
        let ghost front = all.take(i as int);
        proof {
            assert(all.take(i + 1).drop_last() =~= front);
            assert(all.take(i + 1).last() == values@[i as int]@);
        }
        if is_delete(&values[i].data) {
            stats.value_deletes = bump(
                stats.value_deletes,
                Ghost(deleted + values_tally(front, Tally::Deleted)),
            );
        } else {
            stats.values = bump(stats.values, Ghost(set + values_tally(front, Tally::Stored)));
            stats.payload_bytes = grow(
                stats.payload_bytes,
                raw_length(&values[i].data),
                Ghost(bytes + values_tally(front, Tally::Bytes)),
            );
        }
    }
    assert(all.take(all.len() as int) =~= all);
}

/// The statistics of registry data in which every key occurs once.
pub fn registry_stats(keys: &Vec<KeyBlock>, base: Option<&RegPath>) -> (r: RegistryStats)
    ensures
        r == stats_of(
            views(keys@),
            match base {
                Some(p) => path_depth(p@.sub),
                None => 0,
            },
        ),
{
    let base_depth: usize = match base {
        Some(p) => depth_of(p.sub.as_str()),
        None => 0,
    };
    let ghost all = views(keys@);
    let mut stats = RegistryStats {
        keys: 0,
        values: 0,
        key_deletes: 0,
        value_deletes: 0,
        max_depth: 0,
        payload_bytes: 0,
    };
    assert(all.take(0) =~= Seq::<BlockView>::empty());
    for i in 0..keys.len()
        invariant
            all == views(keys@),
            stats == stats_of(all.take(i as int), base_depth as nat),
            deepest(all.take(i as int), base_depth as nat) <= usize::MAX,
    {
        let key = &keys[i];
        let ghost front = all.take(i as int);
        proof {
            assert(all.take(i + 1).drop_last() =~= front);
            assert(all.take(i + 1).last() == key@);
        }
        let here = depth_of(key.path.sub.as_str());
        let below = if here > base_depth {
            here - base_depth
        } else {
            0
        };
        if below > stats.max_depth {
            stats.max_depth = below;
        }
        if key.delete {
            stats.key_deletes = bump(stats.key_deletes, Ghost(blocks_deleting(front, true)));
        } else {
            stats.keys = bump(stats.keys, Ghost(blocks_deleting(front, false)));
            tally_values(
                &key.values,
                &mut stats,
                Ghost(keys_tally(front, Tally::Stored)),
                Ghost(keys_tally(front, Tally::Deleted)),
                Ghost(keys_tally(front, Tally::Bytes)),
            );
        }
    }
    assert(all.take(all.len() as int) =~= all);
    stats
}

/// The number of values of a type, by the type's name.
pub fn count_type(keys: &Vec<KeyBlock>, name: &str) -> (n: usize)
    ensures
        n == capped(keys_tally(views(keys@), Tally::Typed(name@))),
{
    let ghost all = views(keys@);
    let ghost t = Tally::Typed(name@);
    let mut n: usize = 0;
    assert(all.take(0) =~= Seq::<BlockView>::empty());
    for i in 0..keys.len()
        invariant
            all == views(keys@),
            t == Tally::Typed(name@),
            n == capped(keys_tally(all.take(i as int), t)),
    {
        let key = &keys[i];
        let ghost front = all.take(i as int);
        let ghost base = keys_tally(front, t);
        proof {
            assert(all.take(i + 1).drop_last() =~= front);
            assert(all.take(i + 1).last() == key@);
        }
        if !key.delete {
            let ghost values = views(key.values@);
            assert(values.take(0) =~= Seq::<EntryView>::empty());
            for j in 0..key.values.len()
                invariant
                    values == views(key.values@),
                    t == Tally::Typed(name@),
                    n == capped(base + values_tally(values.take(j as int), t)),
            {
                proof {
                    assert(values.take(j + 1).drop_last() =~= values.take(j as int));
                    assert(values.take(j + 1).last() == key.values@[j as int]@);
                }
                let data = &key.values[j].data;
                if !is_delete(data) && crate::text::same_str(data.type_label(), name) {
                    n = bump(n, Ghost(base + values_tally(values.take(j as int), t)));
                }
            }
            assert(values.take(values.len() as int) =~= values);
        }
    }
    assert(all.take(all.len() as int) =~= all);
    n
}

} // verus!
