//! How keys are moved to another root, and what has to go so that only the
//! declared ones stay.
use vstd::prelude::*;

use crate::model::{
    path_fold, path_reads_back, path_text, same_key, BlockView, EntryView, Hive, PathView,
};
use crate::parser_laws::split_of_concat;
use crate::paths::{
    all_rebased, joined_path, lies_below, mapped, offline_path, path_below, strip_outcome,
};
use crate::reconcile::{
    all_pruned, branch, declared_paths, deletions_of, depth, holds_key, live_paths, pruned,
    represented, sorted_unique, stray, strays, strays_below, with_deletions, LiveKey,
};
use crate::text::{first_of, first_of_is_first, split_by, stripped, views};
use crate::text_laws::{cut_text_goes_together, lacks, stripping_leaves_the_text};

verus! {

// ---------------------------------------------------------------------------
// Other roots
// ---------------------------------------------------------------------------

/// A key's path as it is written: no backslash at either end, no NUL, and no
/// white space at the end.
pub open spec fn tidy(p: PathView) -> bool {
    &&& !p.sub.contains('\0')
    &&& p.sub.len() > 0 ==> p.sub[0] != '\\' && p.sub.last() != '\\' && !crate::text::is_white(
        p.sub.last(),
    )
}

proof fn text_has_no_outer_backslash(p: PathView)
    requires
        tidy(p),
    ensures
        path_text(p).len() > 0,
        stripped(path_text(p), '\\') == path_text(p),
{
    reveal_strlit("\\");
    crate::model::hive_names_are_upper_case(p.hive);
    let name = crate::model::long_name_of(p.hive);
    let t = path_text(p);
    assert(t[0] == name[0]);
    assert(name.contains(name[0]));
    assert(name.contains(name.last()));
    assert(t.last() == if p.sub.len() == 0 {
        name.last()
    } else {
        p.sub.last()
    });
    stripping_leaves_the_text(0, t, 0, '\\');
    assert(Seq::new(0, |i: int| '\\') + t + Seq::new(0, |i: int| '\\') =~= t);
}

/// Taking a root off goes from that root to the top of the hive, and is what
/// moving the keys there does.
pub proof fn stripped_roots_go_to_the_top(keys: Seq<BlockView>, root: PathView)
    requires
        tidy(root),
    ensures
        strip_outcome(keys, None) matches Ok(out) && out == keys,
        strip_outcome(keys, Some(path_text(root))) is Ok <==> all_rebased(
            keys,
            root,
            PathView { hive: Hive::Hkcu, sub: Seq::empty() },
        ) is Ok,
        strip_outcome(keys, Some(path_text(root))) matches Ok(out) ==> all_rebased(
            keys,
            root,
            PathView { hive: Hive::Hkcu, sub: Seq::empty() },
        ) == Ok::<Seq<BlockView>, Seq<char>>(out),
{
    path_reads_back(root);
    text_has_no_outer_backslash(root);
    assert(offline_path(Seq::empty()).sub =~= Seq::<char>::empty());
}

/// A mapping moves the keys of a side from the key before the equals sign to
/// the key behind it.
pub proof fn mappings_go_from_left_to_right(
    keys: Seq<BlockView>,
    from: PathView,
    to: PathView,
    side: Seq<char>,
)
    requires
        tidy(from),
        tidy(to),
        lacks(path_text(from), '='),
        lacks(path_text(to), '='),
    ensures
        mapped(keys, None, side) matches Ok(out) && out == keys,
        mapped(keys, Some(path_text(from) + seq!['='] + path_text(to)), side) is Ok
            <==> all_rebased(keys, from, to) is Ok,
        mapped(keys, Some(path_text(from) + seq!['='] + path_text(to)), side) matches Ok(out)
            ==> all_rebased(keys, from, to) == Ok::<Seq<BlockView>, Seq<char>>(out),
{
    path_reads_back(from);
    path_reads_back(to);
    text_has_no_outer_backslash(from);
    text_has_no_outer_backslash(to);
    let a = path_text(from);
    let b = path_text(to);
    let m = a + seq!['='] + b;
    first_of_is_first(m, '=');
    let i = first_of(m, '=');
    assert(m[a.len() as int] == '=');
    assert(i == a.len()) by {
        if i < a.len() {
            assert(m[i] == a[i]);
        }
    }
    assert(m.take(i) =~= a);
    assert(m.skip(i + 1) =~= b);
}

/// What is put behind a root lies below it under that name, whatever
/// backslashes surround the name, and an empty name is the root itself.
pub proof fn suffixes_go_below_their_root(root: PathView, m: nat, name: Seq<char>, n: nat)
    requires
        name.len() > 0,
        name[0] != '\\',
        name.last() != '\\',
    ensures
        ({
            let written = Seq::new(m, |i: int| '\\') + name + Seq::new(n, |i: int| '\\');
            &&& joined_path(root, written) == path_below(root, name)
            &&& joined_path(root, written).hive == root.hive
            &&& joined_path(root, written).sub == if root.sub.len() == 0 {
                name
            } else {
                root.sub + seq!['\\'] + name
            }
            &&& offline_path(written).sub == name
        }),
        joined_path(root, Seq::empty()) == root,
{
    reveal_strlit("\\");
    assert("\\"@ =~= seq!['\\']);
    stripping_leaves_the_text(m, name, n, '\\');
    assert(root.sub.len() == 0 ==> root.sub =~= Seq::<char>::empty());
}

// ---------------------------------------------------------------------------
// What has to go
// ---------------------------------------------------------------------------

/// The branch of a key through which another goes is one name further down.
pub proof fn branches_are_one_name_down(
    parent: PathView,
    name: Seq<char>,
    rest: Option<Seq<char>>,
)
    requires
        parent.sub.len() > 0,
        lacks(name, '\\'),
    ensures
        ({
            let child = PathView {
                hive: parent.hive,
                sub: parent.sub + seq!['\\'] + name,
            };
            let live = match rest {
                None => child,
                Some(r) => PathView { hive: parent.hive, sub: child.sub + seq!['\\'] + r },
            };
            branch(parent, live) == child
        }),
{
    reveal_strlit("\\");
    assert("\\"@ =~= seq!['\\']);
    let child = parent.sub + seq!['\\'] + name;
    let live = match rest {
        None => child,
        Some(r) => child + seq!['\\'] + r,
    };
    let parts = split_by(parent.sub, '\\');
    split_of_concat(parent.sub, name, '\\');
    first_of_is_first(name, '\\');
    assert(split_by(name, '\\') == seq![name]);
    assert(split_by(child, '\\') == parts + seq![name]);
    if rest is Some {
        split_of_concat(child, rest->0, '\\');
    }
    let n = depth(parent.sub) as int + 1;
    assert(split_by(live, '\\').take(n) =~= parts + seq![name]);
    cut_text_goes_together(child, '\\');
}

proof fn strays_below_hold(
    declared: Seq<PathView>,
    parent: PathView,
    live: Seq<PathView>,
    l: int,
)
    requires
        0 <= l < live.len(),
        stray(declared, parent, live[l]).len() > 0,
    ensures
        strays_below(declared, parent, live).contains(branch(parent, live[l])),
    decreases live.len(),
{
    let front = strays_below(declared, parent, live.drop_last());
    let last = stray(declared, parent, live.last());
    let x = branch(parent, live[l]);
    if l < live.len() - 1 {
        strays_below_hold(declared, parent, live.drop_last(), l);
        let k = choose|k: int| 0 <= k < front.len() && front[k] == x;
        assert((front + last)[k] == x);
    } else {
        assert((front + last)[front.len() as int] == x);
    }
}

proof fn strays_hold(
    declared: Seq<PathView>,
    parents: Seq<PathView>,
    live: Seq<PathView>,
    p: int,
    l: int,
)
    requires
        0 <= l < live.len(),
        0 <= p < parents.len(),
        stray(declared, parents[p], live[l]).len() > 0,
    ensures
        strays(declared, parents, live).contains(branch(parents[p], live[l])),
    decreases parents.len(),
{
    let front = strays(declared, parents.drop_last(), live);
    let last = strays_below(declared, parents.last(), live);
    let x = branch(parents[p], live[l]);
    if p < parents.len() - 1 {
        strays_hold(declared, parents.drop_last(), live, p, l);
        let k = choose|k: int| 0 <= k < front.len() && front[k] == x;
        assert((front + last)[k] == x);
    } else {
        strays_below_hold(declared, parents.last(), live, l);
        let k = choose|k: int| 0 <= k < last.len() && last[k] == x;
        assert((front + last)[front.len() + k] == x);
    }
}

/// A live branch of a declared key that no declaration reaches is deleted.
pub proof fn undeclared_branches_go(
    declared: Seq<PathView>,
    live: Seq<PathView>,
    out: Seq<PathView>,
    p: int,
    l: int,
)
    requires
        sorted_unique(strays(declared, declared, live), out),
        0 <= p < declared.len(),
        0 <= l < live.len(),
        lies_below(live[l], declared[p]),
        split_by(live[l].sub, '\\').len() > depth(declared[p].sub),
        forall|i: int|
            0 <= i < declared.len() ==> !same_key(
                #[trigger] declared[i],
                branch(declared[p], live[l]),
            ) && !lies_below(declared[i], branch(declared[p], live[l])),
    ensures
        exists|k: int|
            0 <= k < out.len() && path_fold(#[trigger] out[k]) == path_fold(
                branch(declared[p], live[l]),
            ),
{
    let x = branch(declared[p], live[l]);
    let all = strays(declared, declared, live);
    assert(!represented(declared, x));
    strays_hold(declared, declared, live, p, l);
    let k = choose|k: int| 0 <= k < all.len() && all[k] == x;
    assert(holds_key(out, path_fold(all[k])));
}

/// Of the blocks those that declare a key count, in their order.
pub proof fn deletions_declare_nothing(keys: Seq<BlockView>)
    ensures
        declared_paths(keys) == keys.filter(|b: BlockView| !b.delete).map_values(
            |b: BlockView| b.path,
        ),
    decreases keys.len(),
{
    reveal(Seq::filter);
    let kept = keys.filter(|b: BlockView| !b.delete);
    if keys.len() > 0 {
        let front = keys.drop_last().filter(|b: BlockView| !b.delete);
        deletions_declare_nothing(keys.drop_last());
        if !keys.last().delete {
            assert(kept == front.push(keys.last()));
            assert(kept.map_values(|b: BlockView| b.path) =~= front.map_values(
                |b: BlockView| b.path,
            ).push(keys.last().path));
        }
    }
    assert(declared_paths(keys) =~= kept.map_values(|b: BlockView| b.path));
}

/// Each key that has to go gets a block that deletes it and does nothing else.
pub proof fn each_key_is_deleted(paths: Seq<PathView>, i: int)
    requires
        0 <= i < paths.len(),
    ensures
        deletions_of(paths).len() == paths.len(),
        deletions_of(paths)[i].path == paths[i],
        deletions_of(paths)[i].delete,
        deletions_of(paths)[i].values.len() == 0,
{
}

/// A block keeps its path and its place, and its values stay before the
/// deletions that were added. A key that is deleted, or is not there, is left as
/// it is; one that could not be read in full is never pruned.
pub proof fn blocks_are_pruned_one_by_one(keys: Seq<BlockView>, live: Seq<LiveKey>, i: int)
    requires
        all_pruned(keys, live) is Ok,
        0 <= i < keys.len() == live.len(),
    ensures
        ({
            let out = all_pruned(keys, live)->Ok_0;
            &&& out.len() == keys.len()
            &&& out[i].path == keys[i].path
            &&& out[i].delete == keys[i].delete
            &&& keys[i].delete || live[i] is Missing ==> out[i] == keys[i]
            &&& !keys[i].delete ==> !(live[i] is Failed)
            &&& !keys[i].delete ==> (live[i] matches LiveKey::Read { blocks, skipped } ==> {
                &&& skipped@.len() == 0
                &&& out[i].values == if blocks@.len() == 0 {
                    keys[i].values
                } else {
                    with_deletions(keys[i].values, blocks@[0]@.values)
                }
            })
        }),
{
    pruned_in_place(keys, live, i);
}

proof fn pruned_in_place(keys: Seq<BlockView>, live: Seq<LiveKey>, i: int)
    requires
        all_pruned(keys, live) is Ok,
        0 <= i < keys.len() <= live.len(),
    ensures
        (all_pruned(keys, live)->Ok_0).len() == keys.len(),
        pruned(keys[i], live[i]) == Ok::<BlockView, Seq<char>>((all_pruned(keys, live)->Ok_0)[i]),
    decreases keys.len(),
{
    let front = keys.drop_last();
    if i < keys.len() - 1 {
        pruned_in_place(front, live, i);
        assert(front[i] == keys[i]);
    } else if front.len() > 0 {
        pruned_in_place(front, live, 0);
    }
}

/// The live keys are those that reading each declared key gave, together; a key
/// that is not there gives none, and one that could not be read in full fails
/// the whole.
pub proof fn live_keys_add_up(
    declared: Seq<PathView>,
    live: Seq<LiveKey>,
    path: PathView,
    one: LiveKey,
)
    requires
        declared.len() == live.len(),
    ensures
        live_paths(Seq::empty(), Seq::empty()) == Ok::<Seq<PathView>, Seq<char>>(Seq::empty()),
        one is Missing ==> live_paths(declared.push(path), live.push(one)) == live_paths(
            declared,
            live,
        ),
        one is Failed ==> live_paths(declared.push(path), live.push(one)) is Err,
        live_paths(declared, live) is Err ==> live_paths(declared.push(path), live.push(one))
            == live_paths(declared, live),
        one matches LiveKey::Read { blocks, skipped } ==> {
            &&& skipped@.len() > 0 ==> live_paths(declared.push(path), live.push(one)) is Err
            &&& skipped@.len() == 0 && live_paths(declared, live) is Ok ==> live_paths(
                declared.push(path),
                live.push(one),
            ) == Ok::<Seq<PathView>, Seq<char>>(
                live_paths(declared, live)->Ok_0 + views(blocks@).map_values(
                    |b: BlockView| b.path,
                ),
            )
        },
{
    assert(declared.push(path).drop_last() =~= declared);
    live_paths_look_no_further(declared, live, one);
}

proof fn live_paths_look_no_further(declared: Seq<PathView>, live: Seq<LiveKey>, one: LiveKey)
    requires
        declared.len() <= live.len(),
    ensures
        live_paths(declared, live.push(one)) == live_paths(declared, live),
    decreases declared.len(),
{
    if declared.len() > 0 {
        live_paths_look_no_further(declared.drop_last(), live, one);
    }
}

/// A live value that no declared value names is deleted, and nothing else is.
pub proof fn only_undeclared_values_go(values: Seq<EntryView>, live: Seq<EntryView>, k: int)
    requires
        values.len() <= k < with_deletions(values, live).len(),
    ensures
        with_deletions(values, live)[k].data is Delete,
        exists|l: int|
            0 <= l < live.len() && (#[trigger] live[l]).name == with_deletions(
                values,
                live,
            )[k].name,
        forall|i: int|
            0 <= i < values.len() ==> !crate::model::same_name(
                (#[trigger] values[i]).name,
                with_deletions(values, live)[k].name,
            ),
    decreases live.len(),
{
    let front = live.drop_last();
    let before = with_deletions(values, front);
    if live.len() > 0 {
        if k < before.len() {
            only_undeclared_values_go(values, front, k);
            let l = choose|l: int|
                0 <= l < front.len() && (#[trigger] front[l]).name == before[k].name;
            assert(live[l].name == before[k].name);
        } else {
            assert(live[live.len() - 1].name == with_deletions(values, live)[k].name);
            assert forall|i: int| 0 <= i < values.len() implies !crate::model::same_name(
                (#[trigger] values[i]).name,
                live.last().name,
            ) by {
                crate::reconcile::pruning_keeps_declared_values(values, front, i);
                assert(before[i] == values[i]);
            }
        }
    }
}

} // verus!
