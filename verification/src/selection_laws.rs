//! What selections keep, and what is counted.
use vstd::prelude::*;

use crate::diff::{keys_within, named_diffs, values_within, KeyDiffView, ValueDiffView};
use crate::model::{folded, path_text, type_id_of, type_name_of, BlockView, DataView, EntryView};
use crate::redirect::{mapping_of, Confidence, Policy};
use crate::redirecting::{floor_of, MinConfidence, policy_of_mode, redirected, RedirectMode};
use crate::search::{glob_expression, MatcherView, full_root, query_of, FiltersView, Mode};
use crate::select::{
    any_values, blocks_deleting, capped, compiled_selects, deepest, expected_digest, is_hex_digit,
    kept_blocks, kept_values, key_filters_of, keys_tally, omitted_count, passing_blocks,
    path_depth, queried, report_of, selected_count, solid_parts, stats_of, total_values,
    value_filters_of, values_named, values_tally, whole_key_count, ScopeView, Tally,
};
use crate::text::{joined, lower_char, split_by};
use crate::text_laws::{joined_parts_come_apart, lacks};

verus! {

// ---------------------------------------------------------------------------
// Selecting values and keys
// ---------------------------------------------------------------------------

/// The name by which a value is picked: its own, and `@` for the default value.
pub open spec fn picked_by(name: Option<Seq<char>>) -> Seq<char> {
    match name {
        Some(n) => n,
        None => seq!['@'],
    }
}

/// Of the values of a key exactly those remain whose names pass, in their order.
pub proof fn values_are_picked_by_name(values: Seq<EntryView>, f: FiltersView)
    ensures
        kept_values(values, f) == values.filter(|v: EntryView| f.allows(picked_by(v.name))),
    decreases values.len(),
{
    reveal(Seq::filter);
    reveal_strlit("@");
    assert("@"@ =~= seq!['@']);
    if values.len() > 0 {
        values_are_picked_by_name(values.drop_last(), f);
    } else {
        assert(kept_values(values, f) =~= values.filter(
            |v: EntryView| f.allows(picked_by(v.name)),
        ));
    }
}

/// Selecting by value names goes key by key: a key that is deleted or keeps no
/// value is left out; any other stays where it is with the values that pass.
pub proof fn keys_are_narrowed_one_by_one(keys: Seq<BlockView>, key: BlockView, f: FiltersView)
    ensures
        ({
            let values = key.values.filter(|v: EntryView| f.allows(picked_by(v.name)));
            let before = kept_blocks(keys, f);
            let now = kept_blocks(keys.push(key), f);
            &&& kept_blocks(Seq::empty(), f).len() == 0
            &&& key.delete || values.len() == 0 ==> now == before
            &&& !key.delete && values.len() > 0 ==> now.len() == before.len() + 1
                && now.drop_last() == before && now.last().path == key.path && !now.last().delete
                && now.last().values == values
        }),
{
    values_are_picked_by_name(key.values, f);
    assert(keys.push(key).drop_last() =~= keys);
    assert(kept_blocks(keys, f).push(
        BlockView { values: kept_values(key.values, f), ..key },
    ).drop_last() =~= kept_blocks(keys, f));
}

/// Of the keys exactly those remain whose paths pass, in their order and with all
/// their values; in a hive it is the path within the hive that has to pass.
pub proof fn keys_are_picked_by_path(keys: Seq<BlockView>, f: FiltersView, relative: bool)
    ensures
        passing_blocks(keys, f, relative) == keys.filter(
            |b: BlockView|
                f.allows(
                    if relative {
                        b.path.sub
                    } else {
                        path_text(b.path)
                    },
                ),
        ),
    decreases keys.len(),
{
    reveal(Seq::filter);
    let pick = |b: BlockView|
        f.allows(
            if relative {
                b.path.sub
            } else {
                path_text(b.path)
            },
        );
    if keys.len() > 0 {
        keys_are_picked_by_path(keys.drop_last(), f, relative);
    } else {
        assert(passing_blocks(keys, f, relative) =~= keys.filter(pick));
    }
}

/// The patterns to keep are those to keep, and the patterns to leave out those to
/// leave out, each read as a glob that ignores case; patterns for keys may
/// abbreviate the hive.
pub proof fn patterns_keep_their_sides(
    keep: Seq<Seq<char>>,
    leave: Seq<Seq<char>>,
    i: int,
)
    ensures
        key_filters_of(keep, leave).include_queries.len() == keep.len(),
        key_filters_of(keep, leave).exclude_queries.len() == leave.len(),
        value_filters_of(keep, leave).include_queries.len() == keep.len(),
        value_filters_of(keep, leave).exclude_queries.len() == leave.len(),
        0 <= i < keep.len() ==> key_filters_of(keep, leave).include_queries[i] == query_of(
            full_root(keep[i]),
            Mode::Glob,
            false,
        ) && value_filters_of(keep, leave).include_queries[i] == query_of(
            keep[i],
            Mode::Glob,
            false,
        ),
        0 <= i < leave.len() ==> key_filters_of(keep, leave).exclude_queries[i] == query_of(
            full_root(leave[i]),
            Mode::Glob,
            false,
        ) && value_filters_of(keep, leave).exclude_queries[i] == query_of(
            leave[i],
            Mode::Glob,
            false,
        ),
{
}

/// A scope without patterns selects everything; one with patterns for keys alone
/// picks keys, one with patterns for values alone picks values, and one with both
/// picks values among the keys that it picks.
pub proof fn scopes_pick_keys_and_then_values(s: ScopeView, keys: Seq<BlockView>, relative: bool)
    ensures
        ({
            let by_key = s.include_keys.len() > 0 || s.exclude_keys.len() > 0;
            let by_value = s.include_values.len() > 0 || s.exclude_values.len() > 0;
            let k = key_filters_of(s.include_keys, s.exclude_keys);
            let v = value_filters_of(s.include_values, s.exclude_values);
            &&& !by_key && !by_value ==> s.selects(keys, relative) == keys
            &&& by_key && !by_value ==> s.selects(keys, relative) == passing_blocks(
                keys,
                k,
                relative,
            )
            &&& !by_key && by_value ==> s.selects(keys, relative) == kept_blocks(keys, v)
            &&& by_key && by_value ==> s.selects(keys, relative) == kept_blocks(
                passing_blocks(keys, k, relative),
                v,
            )
            &&& s.filters_keys() == by_key
            &&& s.filters_values() == by_value
            &&& by_key && by_value ==> compiled_selects(keys, Some(k), Some(v), relative)
                == s.selects(keys, relative)
        }),
{
}

/// What a selection of values reports: as many selected as remain, and together
/// with those left out all values of the keys that are not deleted.
pub proof fn selections_account_for_all_values(keys: Seq<BlockView>, f: FiltersView)
    ensures
        selected_count(keys, f) == total_values(kept_blocks(keys, f)),
        selected_count(keys, f) + omitted_count(keys, f) == keys_values(keys),
        report_of(keys, f).selected == capped(total_values(kept_blocks(keys, f))),
        report_of(keys, f).omitted == capped(
            (keys_values(keys) - total_values(kept_blocks(keys, f))) as nat,
        ),
        report_of(keys, f).key_operations_omitted == capped(
            keys.filter(|b: BlockView| b.delete || b.values.len() == 0).len(),
        ),
{
    counts_agree(keys, f);
    whole_keys_are_counted(keys);
}

/// The number of values of the keys that are not deleted.
pub open spec fn keys_values(keys: Seq<BlockView>) -> int {
    keys.filter(|b: BlockView| !b.delete).fold_left(
        0,
        |n: int, b: BlockView| n + b.values.len() as int,
    )
}

proof fn keys_values_step(keys: Seq<BlockView>)
    requires
        keys.len() > 0,
    ensures
        keys_values(keys) == keys_values(keys.drop_last()) + if keys.last().delete {
            0
        } else {
            keys.last().values.len() as int
        },
{
    reveal(Seq::filter);
    let plus = |n: int, b: BlockView| n + b.values.len() as int;
    let kept = keys.filter(|b: BlockView| !b.delete);
    let before = keys.drop_last().filter(|b: BlockView| !b.delete);
    if !keys.last().delete {
        assert(kept == before.push(keys.last()));
        assert(kept.drop_last() =~= before);
        reveal_with_fuel(Seq::fold_left, 2);
        assert(kept.fold_left(0, plus) == plus(before.fold_left(0, plus), kept.last()));
    }
}

proof fn counts_agree(keys: Seq<BlockView>, f: FiltersView)
    ensures
        selected_count(keys, f) == total_values(kept_blocks(keys, f)),
        selected_count(keys, f) + omitted_count(keys, f) == keys_values(keys),
    decreases keys.len(),
{
    if keys.len() > 0 {
        counts_agree(keys.drop_last(), f);
        keys_values_step(keys);
        let before = kept_blocks(keys.drop_last(), f);
        let key = keys.last();
        let values = kept_values(key.values, f);
        if !key.delete && values.len() > 0 {
            let b = BlockView { values, ..key };
            assert(before.push(b).drop_last() =~= before);
        }
    } else {
        reveal(Seq::filter);
        assert(keys.filter(|b: BlockView| !b.delete) =~= Seq::<BlockView>::empty());
        assert(keys_values(keys) == 0) by {
            reveal_with_fuel(Seq::fold_left, 2);
        }
        assert(kept_blocks(keys, f) =~= Seq::<BlockView>::empty());
    }
}

proof fn whole_keys_are_counted(keys: Seq<BlockView>)
    ensures
        whole_key_count(keys) == keys.filter(
            |b: BlockView| b.delete || b.values.len() == 0,
        ).len(),
    decreases keys.len(),
{
    reveal(Seq::filter);
    if keys.len() > 0 {
        whole_keys_are_counted(keys.drop_last());
    }
}

/// A query for one value leaves of each key the values of that name, whatever
/// its case, and of a query for none everything.
pub proof fn queries_leave_the_value_asked_for(
    keys: Seq<BlockView>,
    name: Seq<char>,
    i: int,
)
    requires
        0 <= i < keys.len(),
    ensures
        queried(keys, None) == keys,
        queried(keys, Some(name)).len() == keys.len(),
        queried(keys, Some(name))[i].path == keys[i].path,
        queried(keys, Some(name))[i].delete == keys[i].delete,
        queried(keys, Some(name))[i].values == keys[i].values.filter(
            |v: EntryView|
                folded(
                    match v.name {
                        Some(n) => n,
                        None => Seq::<char>::empty(),
                    },
                ) == folded(name),
        ),
        any_values(queried(keys, Some(name))) <==> exists|k: int|
            0 <= k < keys.len() && (#[trigger] queried(keys, Some(name))[k]).values.len() > 0,
{
    named_values_are_picked(keys[i].values, name);
}

proof fn named_values_are_picked(values: Seq<EntryView>, name: Seq<char>)
    ensures
        values_named(values, name) == values.filter(
            |v: EntryView|
                folded(
                    match v.name {
                        Some(n) => n,
                        None => Seq::<char>::empty(),
                    },
                ) == folded(name),
        ),
    decreases values.len(),
{
    reveal(Seq::filter);
    let pick = |v: EntryView|
        folded(
            match v.name {
                Some(n) => n,
                None => Seq::<char>::empty(),
            },
        ) == folded(name);
    if values.len() > 0 {
        named_values_are_picked(values.drop_last(), name);
    } else {
        assert(values_named(values, name) =~= values.filter(pick));
    }
}

// ---------------------------------------------------------------------------
// Differences
// ---------------------------------------------------------------------------

/// Of the differences exactly those remain whose value names pass, in order.
pub proof fn differences_are_picked_by_name(values: Seq<ValueDiffView>, f: FiltersView)
    ensures
        named_diffs(values, f) == values.filter(
            |v: ValueDiffView| f.allows(picked_by(v.name)),
        ),
    decreases values.len(),
{
    reveal(Seq::filter);
    reveal_strlit("@");
    assert("@"@ =~= seq!['@']);
    if values.len() > 0 {
        differences_are_picked_by_name(values.drop_last(), f);
    } else {
        assert(named_diffs(values, f) =~= values.filter(
            |v: ValueDiffView| f.allows(picked_by(v.name)),
        ));
    }
}

/// Of the differences exactly those remain whose keys pass, in order.
pub proof fn differences_are_picked_by_key(
    keys: Seq<KeyDiffView>,
    values: Seq<ValueDiffView>,
    f: FiltersView,
)
    ensures
        keys_within(keys, f) == keys.filter(|k: KeyDiffView| f.allows(path_text(k.path))),
        values_within(values, f) == values.filter(|v: ValueDiffView| f.allows(path_text(v.path))),
    decreases keys.len() + values.len(),
{
    reveal(Seq::filter);
    if keys.len() > 0 {
        differences_are_picked_by_key(keys.drop_last(), values, f);
    } else if values.len() > 0 {
        differences_are_picked_by_key(keys, values.drop_last(), f);
        assert(keys_within(keys, f) =~= keys.filter(|k: KeyDiffView| f.allows(path_text(k.path))));
    } else {
        assert(keys_within(keys, f) =~= keys.filter(|k: KeyDiffView| f.allows(path_text(k.path))));
        assert(values_within(values, f) =~= values.filter(
            |v: ValueDiffView| f.allows(path_text(v.path)),
        ));
    }
}

// ---------------------------------------------------------------------------
// Counting
// ---------------------------------------------------------------------------

/// Statistics grow key by key. A deleted key counts as that and its values count
/// for nothing; any other key counts as a key, its deleted values as deletions,
/// and its other values as values with all the bytes that they store.
pub proof fn statistics_grow_key_by_key(keys: Seq<BlockView>, key: BlockView, base: nat)
    ensures
        ({
            let before = |t: Tally| keys_tally(keys, t);
            let now = |t: Tally| keys_tally(keys.push(key), t);
            &&& blocks_deleting(keys.push(key), true) == blocks_deleting(keys, true)
                + if key.delete {
                1int
            } else {
                0
            }
            &&& blocks_deleting(keys.push(key), false) == blocks_deleting(keys, false)
                + if key.delete {
                0int
            } else {
                1
            }
            &&& key.delete ==> forall|t: Tally| #[trigger] keys_tally(keys.push(key), t)
                == keys_tally(keys, t)
            &&& !key.delete ==> keys_tally(keys.push(key), Tally::Deleted) == keys_tally(
                keys,
                Tally::Deleted,
            ) + key.values.filter(|v: EntryView| v.data is Delete).len()
            &&& !key.delete ==> keys_tally(keys.push(key), Tally::Stored) == keys_tally(
                keys,
                Tally::Stored,
            ) + key.values.filter(|v: EntryView| !(v.data is Delete)).len()
            &&& stats_of(keys, base).keys == capped(blocks_deleting(keys, false))
            &&& stats_of(keys, base).key_deletes == capped(blocks_deleting(keys, true))
            &&& stats_of(keys, base).values == capped(keys_tally(keys, Tally::Stored))
            &&& stats_of(keys, base).value_deletes == capped(keys_tally(keys, Tally::Deleted))
            &&& stats_of(keys, base).payload_bytes == capped(keys_tally(keys, Tally::Bytes))
        }),
{
    assert(keys.push(key).drop_last() =~= keys);
    deleted_values_are_counted(key.values);
}

proof fn deleted_values_are_counted(values: Seq<EntryView>)
    ensures
        values_tally(values, Tally::Deleted) == values.filter(
            |v: EntryView| v.data is Delete,
        ).len(),
        values_tally(values, Tally::Stored) == values.filter(
            |v: EntryView| !(v.data is Delete),
        ).len(),
    decreases values.len(),
{
    reveal(Seq::filter);
    if values.len() > 0 {
        deleted_values_are_counted(values.drop_last());
    }
}

/// A value stores four bytes where it is a number, its own bytes where it is
/// given by them, and nothing where it is deleted; a text stores its UTF-16 and a
/// terminator. Each value counts once, for the type that it has.
pub proof fn values_count_what_they_store(keys: Seq<BlockView>, key: BlockView, v: EntryView)
    requires
        !key.delete,
        key.values.len() > 0,
        key.values.last() == v,
    ensures
        ({
            let less = BlockView { values: key.values.drop_last(), ..key };
            let bytes = keys_tally(keys.push(key), Tally::Bytes) - keys_tally(
                keys.push(less),
                Tally::Bytes,
            );
            &&& v.data is Delete ==> bytes == 0
            &&& v.data is Dword ==> bytes == 4
            &&& v.data matches DataView::Hex { ty, bytes: own } ==> bytes == own.len()
            &&& v.data matches DataView::Sz(s) ==> bytes == 2 * (crate::utf16::units_of(s).len()
                + 1)
            &&& forall|name: Seq<char>| #[trigger]
                keys_tally(keys.push(key), Tally::Typed(name)) == keys_tally(
                    keys.push(less),
                    Tally::Typed(name),
                ) + if !(v.data is Delete) && type_name_of(type_id_of(v.data)) == name {
                    1int
                } else {
                    0
                }
        }),
{
    let less = BlockView { values: key.values.drop_last(), ..key };
    assert(keys.push(key).drop_last() =~= keys);
    assert(keys.push(less).drop_last() =~= keys);
}

/// The depth of a key is the number of names in its path, and what is counted is
/// how far the deepest key lies below the base.
pub proof fn depths_count_names(
    names: Seq<Seq<char>>,
    keys: Seq<BlockView>,
    key: BlockView,
    base: nat,
)
    requires
        names.len() > 0,
        forall|i: int| 0 <= i < names.len() ==> lacks(#[trigger] names[i], '\\') && names[i].len() > 0,
    ensures
        path_depth(joined(names, seq!['\\'])) == names.len(),
        path_depth(Seq::empty()) == 0,
        deepest(keys.push(key), base) >= deepest(keys, base),
        deepest(keys.push(key), base) >= path_depth(key.path.sub) - base,
        deepest(keys.push(key), base) == deepest(keys, base) || deepest(keys.push(key), base)
            == path_depth(key.path.sub) - base,
        deepest(Seq::empty(), base) == 0,
{
    joined_parts_come_apart(names, '\\');
    solid_names_count(names);
    let none = Seq::<char>::empty();
    assert(split_by(none, '\\') =~= seq![none]);
    assert(seq![none].drop_last() =~= Seq::<Seq<char>>::empty());
    assert(solid_parts(seq![none].drop_last()) == 0);
    assert(keys.push(key).drop_last() =~= keys);
}

proof fn solid_names_count(names: Seq<Seq<char>>)
    requires
        forall|i: int| 0 <= i < names.len() ==> (#[trigger] names[i]).len() > 0,
    ensures
        solid_parts(names) == names.len(),
    decreases names.len(),
{
    if names.len() > 0 {
        let front = names.drop_last();
        assert forall|i: int| 0 <= i < front.len() implies (#[trigger] front[i]).len() > 0 by {
            assert(front[i] == names[i]);
        }
        solid_names_count(front);
        assert(names[names.len() - 1].len() > 0);
    }
}

/// A digest to compare with is accepted exactly where it is sixty-four
/// hexadecimal digits, in either case, and its case makes no difference.
pub proof fn digests_are_read_in_either_case(raw: Seq<char>)
    ensures
        expected_digest(raw) is Ok <==> raw.len() == 64 && forall|i: int|
            0 <= i < raw.len() ==> ('0' <= (#[trigger] raw[i]) && raw[i] <= '9') || ('a' <= raw[i]
                && raw[i] <= 'f') || ('A' <= raw[i] && raw[i] <= 'F'),
        expected_digest(raw) matches Ok(d) ==> d.len() == 64 && forall|i: int|
            0 <= i < 64 ==> (#[trigger] d[i]) == lower_char(raw[i]),
{
    assert forall|i: int| 0 <= i < raw.len() implies is_hex_digit(#[trigger] raw[i]) == (('0'
        <= raw[i] && raw[i] <= '9') || ('a' <= raw[i] && raw[i] <= 'f') || ('A' <= raw[i] && raw[i]
        <= 'F')) by {
        vstd::utf8::char_u32_cast(raw[i], raw[i] as u32);
    }
}

// ---------------------------------------------------------------------------
// Redirecting
// ---------------------------------------------------------------------------

/// Redirection goes key by key. A key with a destination that is trusted enough
/// goes there with all its values; one with another destination is skipped, a
/// refused one refused, and any other stays as it is.
pub proof fn keys_are_redirected_one_by_one(
    keys: Seq<BlockView>,
    key: BlockView,
    policy: Policy,
    floor: Confidence,
)
    ensures
        ({
            let before = redirected(keys, policy, floor);
            let now = redirected(keys.push(key), policy, floor);
            let m = mapping_of(key.path, policy);
            let trusted = match (m.confidence, floor) {
                (Confidence::High, _) => true,
                (_, Confidence::Refuse) => true,
                (Confidence::Medium, Confidence::High) => false,
                (Confidence::Medium, _) => true,
                (Confidence::Low, Confidence::Low) => true,
                _ => false,
            };
            &&& m.to is Some && trusted ==> now.kept.len() == before.kept.len() + 1
                && now.kept.drop_last() == before.kept && now.kept.last().path == m.to->0
                && now.kept.last().values == key.values && now.kept.last().delete == key.delete
                && now.skipped == before.skipped && now.refused == before.refused
            &&& m.to is Some && !trusted ==> now.kept == before.kept && now.skipped
                == before.skipped + 1 && now.refused == before.refused
            &&& m.to is None && m.confidence == Confidence::Refuse ==> now.kept == before.kept
                && now.skipped == before.skipped && now.refused == before.refused + 1
            &&& m.to is None && m.confidence != Confidence::Refuse ==> now.kept
                == before.kept.push(key) && now.skipped == before.skipped && now.refused
                == before.refused
            &&& redirected(Seq::empty(), policy, floor).kept.len() == 0
        }),
{
    let before = redirected(keys, policy, floor);
    let m = mapping_of(key.path, policy);
    assert(keys.push(key).drop_last() =~= keys);
    if m.to is Some {
        assert(before.kept.push(BlockView { path: m.to->0, ..key }).drop_last() =~= before.kept);
    }
}

/// What was asked for is what is mapped; to force redirection maps what is
/// mapped without that.
pub proof fn modes_map_what_they_say()
    ensures
        policy_of_mode(RedirectMode::Off) == Policy::Off,
        policy_of_mode(RedirectMode::Auto) == Policy::Auto,
        policy_of_mode(RedirectMode::ClassesOnly) == Policy::ClassesOnly,
        policy_of_mode(RedirectMode::Force) == Policy::Auto,
{
}

/// A query is read as its mode says: as the text itself, as an expression, or
/// as the expression that a glob stands for. Case counts only where it is asked
/// for.
pub proof fn queries_are_read_in_their_mode(pattern: Seq<char>, case_sensitive: bool)
    ensures
        query_of(pattern, Mode::Substring, case_sensitive)
            is Substring,
        query_of(pattern, Mode::Regex, case_sensitive) matches
            MatcherView::Pattern(p) && p.expression == pattern && p.ignore_case
            == !case_sensitive,
        query_of(pattern, Mode::Glob, case_sensitive) matches
            MatcherView::Pattern(p) && p.expression
            == glob_expression(pattern) && p.ignore_case == !case_sensitive,
{
}

/// A key is redirected with the confidence that was asked for, or more; forcing
/// asks for the least, and a policy can only ask for more.
pub proof fn floors_are_what_was_asked(
    mode: RedirectMode,
    min: MinConfidence,
)
    ensures
        mode == RedirectMode::Force ==> floor_of(
            mode,
            min,
            None,
        ) == Confidence::Low,
        mode != RedirectMode::Force ==> floor_of(
            mode,
            min,
            None,
        ) == (match min {
            MinConfidence::Low => Confidence::Low,
            MinConfidence::Medium => Confidence::Medium,
            MinConfidence::High => Confidence::High,
        }),
        floor_of(mode, min, Some("high"@))
            == Confidence::High,
        floor_of(mode, min, Some("medium"@))
            != Confidence::Low,
        floor_of(mode, min, Some("low"@)) == floor_of(
            mode,
            min,
            None,
        ),
{
    reveal_strlit("high");
    reveal_strlit("medium");
    reveal_strlit("low");
    assert("high"@[0] == 'h' && "medium"@[0] == 'm' && "low"@[0] == 'l');
}

} // verus!
