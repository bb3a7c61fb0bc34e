//! Reconciliation: what has to go so that the registry holds what a file
//! declares and nothing else.
use vstd::prelude::*;

use crate::model::{
    path_fold, path_text, same_key, same_name, value_name_matches, BlockView, DataView, EntryView,
    KeyBlock, PathView, RegData, RegPath, ValueEntry,
};
use crate::number::dec_of;
use crate::paths::{lies_below, path_is_within};
use crate::text::{
    chars_of, comes_before, concat3, join, join_chars, joined, split, split_by, text_less,
    text_less_irreflexive, text_less_total, text_less_transitive, views, views_push,
};

verus! {

// ---------------------------------------------------------------------------
// Subtrees that nothing declares
// ---------------------------------------------------------------------------

/// The number of components of a subkey path; none for the empty path.
pub open spec fn depth(sub: Seq<char>) -> nat {
    if sub.len() == 0 {
        0
    } else {
        split_by(sub, '\\').len()
    }
}

/// The key directly below `parent` through which the path of `live` goes.
pub open spec fn branch(parent: PathView, live: PathView) -> PathView {
    PathView {
        hive: parent.hive,
        sub: joined(split_by(live.sub, '\\').take(depth(parent.sub) as int + 1), "\\"@),
    }
}

/// Some declared key is `child` or lies below it.
pub open spec fn represented(declared: Seq<PathView>, child: PathView) -> bool {
    exists|i: int|
        0 <= i < declared.len() && (same_key(#[trigger] declared[i], child) || lies_below(
            declared[i],
            child,
        ))
}

/// The branch of `parent` that has to go because of `live`.
pub open spec fn stray(declared: Seq<PathView>, parent: PathView, live: PathView) -> Seq<
    PathView,
> {
    if lies_below(live, parent) && split_by(live.sub, '\\').len() > depth(parent.sub)
        && !represented(declared, branch(parent, live)) {
        seq![branch(parent, live)]
    } else {
        Seq::empty()
    }
}

/// The branches of `parent` that have to go, in the order of `live`.
pub open spec fn strays_below(
    declared: Seq<PathView>,
    parent: PathView,
    live: Seq<PathView>,
) -> Seq<PathView>
    decreases live.len(),
{
    if live.len() == 0 {
        Seq::empty()
    } else {
        strays_below(declared, parent, live.drop_last()) + stray(declared, parent, live.last())
    }
}

/// All branches that have to go, in the order of `parents`; the same one may
/// occur often.
pub open spec fn strays(
    declared: Seq<PathView>,
    parents: Seq<PathView>,
    live: Seq<PathView>,
) -> Seq<PathView>
    decreases parents.len(),
{
    if parents.len() == 0 {
        Seq::empty()
    } else {
        strays(declared, parents.drop_last(), live) + strays_below(declared, parents.last(), live)
    }
}

/// The texts that keys are compared as.
pub open spec fn fold_less(a: PathView, b: PathView) -> bool {
    text_less(path_fold(a), path_fold(b))
}

/// Every key comes before the next.
pub open spec fn ascending(s: Seq<PathView>) -> bool {
    forall|i: int, j: int| 0 <= i < j < s.len() ==> fold_less(#[trigger] s[i], #[trigger] s[j])
}

/// `i` is the first place in `all` that holds its key.
pub open spec fn first_of_its_key(all: Seq<PathView>, i: int) -> bool {
    0 <= i < all.len() && forall|j: int|
        0 <= j < i ==> path_fold(#[trigger] all[j]) != path_fold(all[i])
}

/// `x` is the first among the first `n` of `all` with its key.
pub open spec fn chosen(all: Seq<PathView>, n: int, x: PathView) -> bool {
    exists|i: int| #[trigger] first_of_its_key(all, i) && i < n && all[i] == x
}

/// Some key of `s` is compared as `fold`.
pub open spec fn holds_key(s: Seq<PathView>, fold: Seq<char>) -> bool {
    exists|k: int| 0 <= k < s.len() && path_fold(#[trigger] s[k]) == fold
}

/// `s` is the first `n` of `all` in order and without repetition: of equal keys
/// the first stays.
pub open spec fn collected(all: Seq<PathView>, n: int, s: Seq<PathView>) -> bool {
    &&& ascending(s)
    &&& forall|k: int| 0 <= k < s.len() ==> chosen(all, n, #[trigger] s[k])
    &&& forall|i: int| 0 <= i < n ==> holds_key(s, path_fold(#[trigger] all[i]))
}

/// `s` is `all` in order and without repetition: of equal keys the first stays.
pub open spec fn sorted_unique(all: Seq<PathView>, s: Seq<PathView>) -> bool {
    collected(all, all.len() as int, s)
}

proof fn ascending_keys_differ(s: Seq<PathView>, i: int, j: int)
    requires
        ascending(s),
        0 <= i < s.len(),
        0 <= j < s.len(),
        path_fold(s[i]) == path_fold(s[j]),
    ensures
        i == j,
{
    if i < j {
        assert(fold_less(s[i], s[j]));
        text_less_irreflexive(path_fold(s[i]));
    } else if j < i {
        assert(fold_less(s[j], s[i]));
        text_less_irreflexive(path_fold(s[i]));
    }
}

proof fn chosen_index(all: Seq<PathView>, n: int, x: PathView) -> (i: int)
    requires
        chosen(all, n, x),
    ensures
        first_of_its_key(all, i),
        i < n,
        all[i] == x,
{
    choose|i: int| #[trigger] first_of_its_key(all, i) && i < n && all[i] == x
}

proof fn key_index(s: Seq<PathView>, fold: Seq<char>) -> (k: int)
    requires
        holds_key(s, fold),
    ensures
        0 <= k < s.len(),
        path_fold(s[k]) == fold,
{
    choose|k: int| 0 <= k < s.len() && path_fold(#[trigger] s[k]) == fold
}

proof fn chosen_by_key(all: Seq<PathView>, n: int, x: PathView, y: PathView)
    requires
        chosen(all, n, x),
        chosen(all, n, y),
        path_fold(x) == path_fold(y),
    ensures
        x == y,
{
    let i = chosen_index(all, n, x);
    let j = chosen_index(all, n, y);
    if i < j {
        assert(path_fold(all[i]) != path_fold(all[j]));
    } else if j < i {
        assert(path_fold(all[j]) != path_fold(all[i]));
    }
}

/// The place in `t` of a key of `s`.
proof fn same_key_in(all: Seq<PathView>, s: Seq<PathView>, t: Seq<PathView>, k: int) -> (m: int)
    requires
        sorted_unique(all, s),
        sorted_unique(all, t),
        0 <= k < s.len(),
    ensures
        0 <= m < t.len(),
        t[m] == s[k],
{
    let i = chosen_index(all, all.len() as int, s[k]);
    let m = key_index(t, path_fold(all[i]));
    chosen_by_key(all, all.len() as int, s[k], t[m]);
    m
}

proof fn prefixes_agree(all: Seq<PathView>, s: Seq<PathView>, t: Seq<PathView>, n: int)
    requires
        sorted_unique(all, s),
        sorted_unique(all, t),
        0 <= n <= s.len(),
    ensures
        n <= t.len(),
        forall|k: int| 0 <= k < n ==> (#[trigger] s[k]) == t[k],
    decreases n,
{
    if n > 0 {
        prefixes_agree(all, s, t, n - 1);
        let k = n - 1;
        let m = same_key_in(all, s, t, k);
        if m < k {
            assert(s[m] == t[m]);
            ascending_keys_differ(s, m, k);
        }
        if m > k {
            let p = same_key_in(all, t, s, k);
            assert(fold_less(t[k], t[m]));
            if p < k {
                assert(s[p] == t[p]);
                ascending_keys_differ(t, p, k);
            } else if p == k {
                ascending_keys_differ(t, k, m);
            } else {
                assert(fold_less(s[k], s[p]));
                text_less_transitive(path_fold(s[k]), path_fold(s[p]), path_fold(s[k]));
                text_less_irreflexive(path_fold(s[k]));
            }
        }
    }
}

/// The order and the choice of the keys leave only one result.
pub proof fn sorted_unique_is_unique(all: Seq<PathView>, s: Seq<PathView>, t: Seq<PathView>)
    requires
        sorted_unique(all, s),
        sorted_unique(all, t),
    ensures
        s == t,
{
    prefixes_agree(all, s, t, s.len() as int);
    prefixes_agree(all, t, s, t.len() as int);
    assert(s =~= t);
}

proof fn chosen_grows(all: Seq<PathView>, n: int, x: PathView)
    requires
        chosen(all, n, x),
    ensures
        chosen(all, n + 1, x),
{
    let i = chosen_index(all, n, x);
    assert(first_of_its_key(all, i) && i < n + 1 && all[i] == x);
}

proof fn a_known_key_adds_nothing(all: Seq<PathView>, n: int, s: Seq<PathView>, i: int)
    requires
        collected(all, n, s),
        0 <= n < all.len(),
        0 <= i < s.len(),
        path_fold(s[i]) == path_fold(all[n]),
    ensures
        collected(all, n + 1, s),
{
    assert forall|k: int| 0 <= k < s.len() implies chosen(all, n + 1, #[trigger] s[k]) by {
        chosen_grows(all, n, s[k]);
    }
    assert forall|j: int| 0 <= j < n + 1 implies holds_key(s, path_fold(#[trigger] all[j])) by {
        if j == n {
            assert(path_fold(s[i]) == path_fold(all[j]));
        }
    }
}

proof fn inserting_keeps_order(s: Seq<PathView>, i: int, x: PathView)
    requires
        ascending(s),
        0 <= i <= s.len(),
        forall|j: int| 0 <= j < i ==> fold_less(#[trigger] s[j], x),
        i < s.len() ==> fold_less(x, s[i]),
    ensures
        ascending(s.insert(i, x)),
{
    let t = s.insert(i, x);
    assert forall|a: int, b: int| 0 <= a < b < t.len() implies fold_less(
        #[trigger] t[a],
        #[trigger] t[b],
    ) by {
        if a < i && b < i {
            assert(t[a] == s[a] && t[b] == s[b]);
        } else if a < i && b == i {
            assert(t[a] == s[a]);
        } else if a < i {
            assert(t[a] == s[a] && t[b] == s[b - 1]);
        } else if a == i {
            assert(t[b] == s[b - 1]);
            if b - 1 > i {
                assert(fold_less(s[i], s[b - 1]));
                text_less_transitive(path_fold(x), path_fold(s[i]), path_fold(s[b - 1]));
            }
        } else {
            assert(t[a] == s[a - 1] && t[b] == s[b - 1]);
        }
    }
}

proof fn a_new_key_is_first(all: Seq<PathView>, n: int, s: Seq<PathView>, i: int)
    requires
        collected(all, n, s),
        0 <= n < all.len(),
        0 <= i <= s.len(),
        forall|j: int| 0 <= j < i ==> fold_less(#[trigger] s[j], all[n]),
        i < s.len() ==> fold_less(all[n], s[i]),
    ensures
        first_of_its_key(all, n),
{
    let x = all[n];
    assert forall|j: int| 0 <= j < n implies path_fold(#[trigger] all[j]) != path_fold(all[n]) by {
        if path_fold(all[j]) == path_fold(x) {
            let k = key_index(s, path_fold(all[j]));
            if k < i {
                assert(fold_less(s[k], x));
                text_less_irreflexive(path_fold(x));
            } else {
                if k > i {
                    assert(fold_less(s[i], s[k]));
                    text_less_transitive(path_fold(x), path_fold(s[i]), path_fold(s[k]));
                }
                text_less_irreflexive(path_fold(x));
            }
        }
    }
}

proof fn a_new_key_is_collected(all: Seq<PathView>, n: int, s: Seq<PathView>, i: int)
    requires
        collected(all, n, s),
        0 <= n < all.len(),
        0 <= i <= s.len(),
        forall|j: int| 0 <= j < i ==> fold_less(#[trigger] s[j], all[n]),
        i < s.len() ==> fold_less(all[n], s[i]),
    ensures
        collected(all, n + 1, s.insert(i, all[n])),
{
    let x = all[n];
    let t = s.insert(i, x);
    inserting_keeps_order(s, i, x);
    a_new_key_is_first(all, n, s, i);
    assert forall|k: int| 0 <= k < t.len() implies chosen(all, n + 1, #[trigger] t[k]) by {
        if k == i {
            assert(first_of_its_key(all, n) && n < n + 1 && all[n] == t[k]);
        } else if k < i {
            assert(t[k] == s[k]);
            chosen_grows(all, n, s[k]);
        } else {
            assert(t[k] == s[k - 1]);
            chosen_grows(all, n, s[k - 1]);
        }
    }
    assert forall|j: int| 0 <= j < n + 1 implies holds_key(t, path_fold(#[trigger] all[j])) by {
        if j == n {
            assert(path_fold(t[i]) == path_fold(all[j]));
        } else {
            let k = key_index(s, path_fold(all[j]));
            if k < i {
                assert(t[k] == s[k]);
                assert(path_fold(t[k]) == path_fold(all[j]));
            } else {
                assert(t[k + 1] == s[k]);
                assert(path_fold(t[k + 1]) == path_fold(all[j]));
            }
        }
    }
}

fn is_represented(declared: &[RegPath], child: &RegPath) -> (b: bool)
    ensures
        b == represented(views(declared@), child@),
{
    let ghost all = views(declared@);
    for i in 0..declared.len()
        invariant
            all == views(declared@),
            forall|j: int|
                0 <= j < i ==> !same_key(#[trigger] all[j], child@) && !lies_below(all[j], child@),
    {
        assert(all[i as int] == declared@[i as int]@);
        if declared[i].is_same_key(child) || path_is_within(&declared[i], child) {
            assert(same_key(all[i as int], child@) || lies_below(all[i as int], child@));
            return true;
        }
    }
    false
}

fn find_strays(declared: &[RegPath], live: &[RegPath]) -> (out: Vec<RegPath>)
    ensures
        views(out@) == strays(views(declared@), views(declared@), views(live@)),
{
    broadcast use views_push;

    let ghost d = views(declared@);
    let ghost l = views(live@);
    let mut out: Vec<RegPath> = Vec::new();
    assert(views(out@) =~= Seq::<PathView>::empty());
    assert(d.take(0) =~= Seq::<PathView>::empty());
    for p in 0..declared.len()
        invariant
            d == views(declared@),
            l == views(live@),
            views(out@) == strays(d, d.take(p as int), l),
    {
        let parent = &declared[p];
        let ghost before = views(out@);
        let parent_chars = chars_of(parent.sub.as_str());
        let parent_split = split(parent_chars.as_slice(), '\\');
        assert(views(parent_split@).len() == parent_split@.len());
        let parent_depth = if parent_chars.len() == 0 {
            0
        } else {
            parent_split.len()
        };
        assert(parent_depth == depth(parent@.sub));
        assert(l.take(0) =~= Seq::<PathView>::empty());
        assert(before + Seq::<PathView>::empty() =~= before);
        for k in 0..live.len()
            invariant
                d == views(declared@),
                l == views(live@),
                p < declared@.len(),
                parent == &declared@[p as int],
                parent_depth == depth(parent@.sub),
                views(out@) == before + strays_below(d, parent@, l.take(k as int)),
        {
            let path = &live[k];
            let ghost so_far = views(out@);
            proof {
                assert(l.take(k + 1).drop_last() =~= l.take(k as int));
                assert(l.take(k + 1).last() == path@);
            }
            let ghost old_strays = strays_below(d, parent@, l.take(k as int));
            let chars = chars_of(path.sub.as_str());
            let parts = split(chars.as_slice(), '\\');
            assert(views(parts@).len() == parts@.len());
            if path_is_within(path, parent) && parts.len() > parent_depth {
                let child = RegPath {
                    hive: parent.hive,
                    sub: join_chars(&parts, parent_depth + 1, "\\"),
                };
                assert(child@ == branch(parent@, path@));
                if !is_represented(declared, &child) {
                    let ghost prior = out@;
                    out.push(child);
                    assert(views(out@) == views(prior).push(child@));
                    assert(so_far.push(child@) =~= before + (old_strays + seq![child@]));
                } else {
                    assert(so_far =~= before + (old_strays + Seq::<PathView>::empty()));
                }
            } else {
                assert(so_far =~= before + (old_strays + Seq::<PathView>::empty()));
            }
        }
        proof {
            assert(l.take(l.len() as int) =~= l);
            assert(d.take(p + 1).drop_last() =~= d.take(p as int));
            assert(d.take(p + 1).last() == parent@);
        }
    }
    assert(d.take(d.len() as int) =~= d);
    out
}

/// The place in an ascending list before which a key belongs: everything in
/// front of it comes before the key, and nothing behind it does.
fn place_of(sorted: &Vec<RegPath>, path: &RegPath) -> (i: usize)
    requires
        ascending(views(sorted@)),
    ensures
        i <= sorted@.len(),
        forall|j: int| 0 <= j < i ==> fold_less(#[trigger] views(sorted@)[j], path@),
        i < sorted@.len() ==> !fold_less(views(sorted@)[i as int], path@),
{
    let target = chars_of(path.fold().as_str());
    let mut i: usize = 0;
    let ghost all = views(sorted@);
    while i < sorted.len()
        invariant
            all == views(sorted@),
            target@ == path_fold(path@),
            i <= sorted@.len(),
            forall|j: int| 0 <= j < i ==> fold_less(#[trigger] all[j], path@),
        decreases sorted.len() - i,
    {
        assert(all[i as int] == sorted@[i as int]@);
        let here = chars_of(sorted[i].fold().as_str());
        if !comes_before(here.as_slice(), target.as_slice()) {
            return i;
        }
        i += 1;
    }
    i
}

/// Sorts keys and drops repetitions; of equal keys the first stays.
fn sort_unique(all: Vec<RegPath>) -> (out: Vec<RegPath>)
    ensures
        sorted_unique(views(all@), views(out@)),
{
    let ghost a = views(all@);
    let mut out: Vec<RegPath> = Vec::new();
    assert(views(out@) =~= Seq::<PathView>::empty());
    for n in 0..all.len()
        invariant
            a == views(all@),
            collected(a, n as int, views(out@)),
    {
        let path = all[n].clone();
        let ghost s = views(out@);
        assert(path@ == a[n as int]);
        let i = place_of(&out, &path);
        let mut found = false;
        if i < out.len() {
            assert(s[i as int] == out@[i as int]@);
            found = crate::text::same_str(out[i].fold().as_str(), path.fold().as_str());
        }
        if found {
            proof {
                a_known_key_adds_nothing(a, n as int, s, i as int);
            }
        } else {
            proof {
                if i < s.len() {
                    text_less_total(path_fold(s[i as int]), path_fold(a[n as int]));
                }
                a_new_key_is_collected(a, n as int, s, i as int);
            }
            out.insert(i, path);
            assert(views(out@) =~= s.insert(i as int, a[n as int]));
        }
    }
    out
}

/// The topmost live keys below a declared key that nothing declares, in order
/// and each once.
pub fn undeclared_subtree_roots(declared: &[RegPath], live: &[RegPath]) -> (out: Vec<RegPath>)
    ensures
        sorted_unique(
            strays(views(declared@), views(declared@), views(live@)),
            views(out@),
        ),
{
    let candidates = find_strays(declared, live);
    sort_unique(candidates)
}

proof fn strays_below_are_strays(
    declared: Seq<PathView>,
    parent: PathView,
    live: Seq<PathView>,
    i: int,
)
    requires
        0 <= i < strays_below(declared, parent, live).len(),
    ensures
        exists|k: int|
            0 <= k < live.len() && lies_below(#[trigger] live[k], parent) && strays_below(
                declared,
                parent,
                live,
            )[i] == branch(parent, live[k]) && !represented(declared, branch(parent, live[k])),
    decreases live.len(),
{
    let a = strays_below(declared, parent, live.drop_last());
    let b = stray(declared, parent, live.last());
    if i < a.len() {
        strays_below_are_strays(declared, parent, live.drop_last(), i);
        let k = choose|k: int|
            0 <= k < live.drop_last().len() && lies_below(#[trigger] live.drop_last()[k], parent)
                && a[i] == branch(parent, live.drop_last()[k]) && !represented(
                declared,
                branch(parent, live.drop_last()[k]),
            );
        assert(live.drop_last()[k] == live[k]);
    } else {
        assert(live.last() == live[live.len() - 1]);
    }
}

proof fn strays_are_strays(
    declared: Seq<PathView>,
    parents: Seq<PathView>,
    live: Seq<PathView>,
    i: int,
)
    requires
        0 <= i < strays(declared, parents, live).len(),
    ensures
        !represented(declared, strays(declared, parents, live)[i]),
        exists|p: int, k: int|
            0 <= p < parents.len() && 0 <= k < live.len() && lies_below(
                #[trigger] live[k],
                #[trigger] parents[p],
            ) && strays(declared, parents, live)[i] == branch(parents[p], live[k]),
    decreases parents.len(),
{
    let a = strays(declared, parents.drop_last(), live);
    let b = strays_below(declared, parents.last(), live);
    if i < a.len() {
        strays_are_strays(declared, parents.drop_last(), live, i);
        let (p, k) = choose|p: int, k: int|
            0 <= p < parents.drop_last().len() && 0 <= k < live.len() && lies_below(
                #[trigger] live[k],
                #[trigger] parents.drop_last()[p],
            ) && a[i] == branch(parents.drop_last()[p], live[k]);
        assert(parents.drop_last()[p] == parents[p]);
        assert(lies_below(live[k], parents[p]));
    } else {
        strays_below_are_strays(declared, parents.last(), live, i - a.len());
        let k = choose|k: int|
            0 <= k < live.len() && lies_below(#[trigger] live[k], parents.last()) && b[i - a.len()]
                == branch(parents.last(), live[k]) && !represented(
                declared,
                branch(parents.last(), live[k]),
            );
        let p = parents.len() - 1;
        assert(lies_below(live[k], parents[p]));
    }
}

/// Reconciliation never deletes a declared key, nor a key above one.
pub proof fn declared_keys_survive(
    declared: Seq<PathView>,
    live: Seq<PathView>,
    out: Seq<PathView>,
    k: int,
)
    requires
        sorted_unique(strays(declared, declared, live), out),
        0 <= k < out.len(),
    ensures
        forall|i: int|
            0 <= i < declared.len() ==> !same_key(#[trigger] declared[i], out[k]) && !lies_below(
                declared[i],
                out[k],
            ),
{
    let all = strays(declared, declared, live);
    let i = chosen_index(all, all.len() as int, out[k]);
    strays_are_strays(declared, declared, live, i);
}

/// Every key that is deleted is a live key's branch of a declared key.
pub proof fn deletions_are_live_branches(
    declared: Seq<PathView>,
    live: Seq<PathView>,
    out: Seq<PathView>,
    k: int,
)
    requires
        sorted_unique(strays(declared, declared, live), out),
        0 <= k < out.len(),
    ensures
        exists|p: int, l: int|
            0 <= p < declared.len() && 0 <= l < live.len() && lies_below(
                #[trigger] live[l],
                #[trigger] declared[p],
            ) && out[k] == branch(declared[p], live[l]),
{
    let all = strays(declared, declared, live);
    let i = chosen_index(all, all.len() as int, out[k]);
    strays_are_strays(declared, declared, live, i);
}

// ---------------------------------------------------------------------------
// What is live
// ---------------------------------------------------------------------------

/// What reading a live key gave.
pub enum LiveKey {
    /// Its blocks, and what could not be read of it.
    Read { blocks: Vec<KeyBlock>, skipped: Vec<(String, String)> },
    Missing,
    Failed(String),
}

/// Some value of `values` has the name.
pub open spec fn names_value(values: Seq<EntryView>, name: Option<Seq<char>>) -> bool {
    exists|i: int| 0 <= i < values.len() && same_name((#[trigger] values[i]).name, name)
}

/// Values with a deletion for each live value that they do not name.
pub open spec fn with_deletions(values: Seq<EntryView>, live: Seq<EntryView>) -> Seq<EntryView>
    decreases live.len(),
{
    if live.len() == 0 {
        values
    } else {
        let before = with_deletions(values, live.drop_last());
        if names_value(before, live.last().name) {
            before
        } else {
            before.push(EntryView { name: live.last().name, data: DataView::Delete, line: 0 })
        }
    }
}

/// A block with a deletion for each live value that it does not name.
pub open spec fn pruned(block: BlockView, live: LiveKey) -> Result<BlockView, Seq<char>> {
    if block.delete {
        Ok(block)
    } else {
        match live {
            LiveKey::Missing => Ok(block),
            LiveKey::Failed(e) => Err(path_text(block.path) + ": "@ + e@),
            LiveKey::Read { blocks, skipped } => if skipped@.len() != 0 {
                Err(
                    dec_of(skipped@.len()) + " key(s) at "@ + path_text(block.path)
                        + " were unreadable"@,
                )
            } else if blocks@.len() == 0 {
                Ok(block)
            } else {
                Ok(
                    BlockView {
                        values: with_deletions(block.values, blocks@[0]@.values),
                        ..block
                    },
                )
            },
        }
    }
}

/// Blocks with deletions for the live values that they do not name, or the
/// first that cannot be read in full.
pub open spec fn all_pruned(keys: Seq<BlockView>, live: Seq<LiveKey>) -> Result<
    Seq<BlockView>,
    Seq<char>,
>
    decreases keys.len(),
{
    if keys.len() == 0 {
        Ok(Seq::empty())
    } else {
        match all_pruned(keys.drop_last(), live) {
            Err(e) => Err(e),
            Ok(done) => match pruned(keys.last(), live[keys.len() - 1]) {
                Err(e) => Err(e),
                Ok(b) => Ok(done.push(b)),
            },
        }
    }
}

proof fn a_failure_stays(keys: Seq<BlockView>, live: Seq<LiveKey>, n: int)
    requires
        0 <= n <= keys.len(),
        all_pruned(keys.take(n), live) is Err,
    ensures
        all_pruned(keys, live) == all_pruned(keys.take(n), live),
    decreases keys.len() - n,
{
    if n < keys.len() {
        assert(keys.take(n + 1).drop_last() =~= keys.take(n));
        a_failure_stays(keys, live, n + 1);
    } else {
        assert(keys.take(n) =~= keys);
    }
}

fn has_name(values: &Vec<ValueEntry>, name: &crate::model::ValueName) -> (b: bool)
    ensures
        b == names_value(views(values@), name@),
{
    let ghost all = views(values@);
    for i in 0..values.len()
        invariant
            all == views(values@),
            forall|j: int| 0 <= j < i ==> !same_name((#[trigger] all[j]).name, name@),
    {
        assert(all[i as int] == values@[i as int]@);
        if value_name_matches(&values[i].name, name) {
            assert(same_name(all[i as int].name, name@));
            return true;
        }
    }
    false
}

fn add_deletions(values: &mut Vec<ValueEntry>, live: &Vec<ValueEntry>)
    ensures
        views(final(values)@) == with_deletions(views(old(values)@), views(live@)),
{
    broadcast use views_push;

    let ghost start = views(values@);
    let ghost all = views(live@);
    assert(all.take(0) =~= Seq::<EntryView>::empty());
    for i in 0..live.len()
        invariant
            all == views(live@),
            views(values@) == with_deletions(start, all.take(i as int)),
    {
        assert(all.take(i + 1).drop_last() =~= all.take(i as int));
        assert(all.take(i + 1).last() == live@[i as int]@);
        if !has_name(values, &live[i].name) {
            let entry = ValueEntry {
                name: live[i].name.clone(),
                data: RegData::Delete,
                line: 0,
            };
            let ghost before = values@;
            values.push(entry);
            assert(views(values@) == views(before).push(entry@));
        }
    }
    assert(all.take(all.len() as int) =~= all);
}

/// Adds to each block a deletion for every live value that it does not name.
/// `live` holds, for each block, what reading its key gave.
pub fn add_prune_deletes(keys: &[KeyBlock], live: &Vec<LiveKey>) -> (r: Result<
    Vec<KeyBlock>,
    String,
>)
    requires
        live@.len() == keys@.len(),
    ensures
        match r {
            Ok(out) => all_pruned(views(keys@), live@) == Ok::<Seq<BlockView>, Seq<char>>(
                views(out@),
            ),
            Err(e) => all_pruned(views(keys@), live@) == Err::<Seq<BlockView>, Seq<char>>(e@),
        },
{
    broadcast use views_push;

    let ghost all = views(keys@);
    let mut out: Vec<KeyBlock> = Vec::new();
    assert(views(out@) =~= Seq::<BlockView>::empty());
    assert(all.take(0) =~= Seq::<BlockView>::empty());
    for i in 0..keys.len()
        invariant
            all == views(keys@),
            live@.len() == keys@.len(),
            all_pruned(all.take(i as int), live@) == Ok::<Seq<BlockView>, Seq<char>>(views(out@)),
    {
        let mut block = keys[i].clone();
        let ghost given = block@;
        proof {
            assert(all.take(i + 1).drop_last() =~= all.take(i as int));
            assert(all.take(i + 1).last() == given);
        }
        if !block.delete {
            match &live[i] {
                LiveKey::Missing => {},
                LiveKey::Failed(e) => {
                    proof {
                        a_failure_stays(all, live@, i + 1);
                    }
                    return Err(concat3(block.path.to_string().as_str(), ": ", e.as_str()));
                },
                LiveKey::Read { blocks, skipped } => {
                    if skipped.len() != 0 {
                        let mut message = crate::number::to_dec(skipped.len() as u64);
                        message.append(" key(s) at ");
                        message.append(block.path.to_string().as_str());
                        message.append(" were unreadable");
                        proof {
                            a_failure_stays(all, live@, i + 1);
                        }
                        return Err(message);
                    }
                    if blocks.len() != 0 {
                        add_deletions(&mut block.values, &blocks[0].values);
                    }
                },
            }
        }
        let ghost before = out@;
        out.push(block);
        assert(views(out@) == views(before).push(block@));
    }
    assert(all.take(all.len() as int) =~= all);
    Ok(out)
}

proof fn names_persist(values: Seq<EntryView>, live: Seq<EntryView>, n: int)
    requires
        0 <= n < values.len(),
    ensures
        with_deletions(values, live).len() >= values.len(),
        with_deletions(values, live)[n] == values[n],
    decreases live.len(),
{
    if live.len() > 0 {
        names_persist(values, live.drop_last(), n);
    }
}

/// After pruning, every live value is named: it is set as declared or deleted.
pub proof fn pruning_accounts_for_every_value(
    values: Seq<EntryView>,
    live: Seq<EntryView>,
    k: int,
)
    requires
        0 <= k < live.len(),
    ensures
        names_value(with_deletions(values, live), live[k].name),
    decreases live.len(),
{
    let before = with_deletions(values, live.drop_last());
    let after = with_deletions(values, live);
    if k < live.len() - 1 {
        pruning_accounts_for_every_value(values, live.drop_last(), k);
        assert(live.drop_last()[k] == live[k]);
        let i = choose|i: int|
            0 <= i < before.len() && same_name((#[trigger] before[i]).name, live[k].name);
        assert(after[i] == before[i]);
    } else if !names_value(before, live.last().name) {
        assert(after[after.len() - 1].name == live.last().name);
        assert(same_name(after[after.len() - 1].name, live[k].name));
    }
}

/// Pruning keeps every declared value as it is and in its place.
pub proof fn pruning_keeps_declared_values(
    values: Seq<EntryView>,
    live: Seq<EntryView>,
    k: int,
)
    requires
        0 <= k < values.len(),
    ensures
        with_deletions(values, live).len() >= values.len(),
        with_deletions(values, live)[k] == values[k],
{
    names_persist(values, live, k);
}

/// The name under which a key holds a value.
pub open spec fn value_key(name: Option<Seq<char>>) -> Seq<char> {
    crate::model::folded(crate::model::api_name(name))
}

/// What a key that held `state` holds after the values are written to it in
/// their order: a deletion takes the value of its name away.
pub open spec fn held_after(
    state: Map<Seq<char>, DataView>,
    values: Seq<EntryView>,
) -> Map<Seq<char>, DataView>
    decreases values.len(),
{
    if values.len() == 0 {
        state
    } else {
        let before = held_after(state, values.drop_last());
        let last = values.last();
        if last.data is Delete {
            before.remove(value_key(last.name))
        } else {
            before.insert(value_key(last.name), last.data)
        }
    }
}

/// Some value is held under the name.
spec fn keyed(values: Seq<EntryView>, key: Seq<char>) -> bool {
    exists|i: int| 0 <= i < values.len() && value_key((#[trigger] values[i]).name) == key
}

proof fn keyed_step(values: Seq<EntryView>, key: Seq<char>)
    requires
        values.len() > 0,
    ensures
        keyed(values, key) == (keyed(values.drop_last(), key) || value_key(values.last().name)
            == key),
{
    let first = values.drop_last();
    if keyed(first, key) {
        let i = choose|i: int| 0 <= i < first.len() && value_key((#[trigger] first[i]).name) == key;
        assert(values[i] == first[i]);
    }
    if value_key(values.last().name) == key {
        assert(value_key(values[values.len() - 1].name) == key);
    }
    if keyed(values, key) {
        let i = choose|i: int|
            0 <= i < values.len() && value_key((#[trigger] values[i]).name) == key;
        if i < values.len() - 1 {
            assert(first[i] == values[i]);
        }
    }
}

spec fn agree(a: Map<Seq<char>, DataView>, b: Map<Seq<char>, DataView>, key: Seq<char>) -> bool {
    &&& a.contains_key(key) == b.contains_key(key)
    &&& a.contains_key(key) ==> a[key] == b[key]
}

proof fn written_names_decide(
    a: Map<Seq<char>, DataView>,
    b: Map<Seq<char>, DataView>,
    values: Seq<EntryView>,
    key: Seq<char>,
)
    ensures
        keyed(values, key) ==> agree(held_after(a, values), held_after(b, values), key),
        !keyed(values, key) ==> agree(held_after(a, values), a, key),
    decreases values.len(),
{
    if values.len() > 0 {
        keyed_step(values, key);
        written_names_decide(a, b, values.drop_last(), key);
    }
}

proof fn deletions_decide(
    state: Map<Seq<char>, DataView>,
    values: Seq<EntryView>,
    live: Seq<EntryView>,
    key: Seq<char>,
)
    ensures
        keyed(with_deletions(values, live), key) == (keyed(values, key) || keyed(live, key)),
        keyed(values, key) ==> agree(
            held_after(state, with_deletions(values, live)),
            held_after(state, values),
            key,
        ),
        !keyed(values, key) && keyed(live, key) ==> !held_after(
            state,
            with_deletions(values, live),
        ).contains_key(key),
        !keyed(values, key) && !keyed(live, key) ==> agree(
            held_after(state, with_deletions(values, live)),
            state,
            key,
        ),
    decreases live.len(),
{
    if live.len() == 0 {
        written_names_decide(state, state, values, key);
    } else {
        let first = live.drop_last();
        let before = with_deletions(values, first);
        let after = with_deletions(values, live);
        deletions_decide(state, values, first, key);
        keyed_step(live, key);
        let own = value_key(live.last().name);
        if names_value(before, live.last().name) {
            let i = choose|i: int|
                0 <= i < before.len() && same_name((#[trigger] before[i]).name, live.last().name);
            assert(value_key(before[i].name) == own);
            assert(keyed(before, own));
        } else {
            assert(!keyed(before, own)) by {
                if keyed(before, own) {
                    let i = choose|i: int|
                        0 <= i < before.len() && value_key((#[trigger] before[i]).name) == own;
                    assert(same_name(before[i].name, live.last().name));
                }
            }
            assert(after.drop_last() =~= before);
            keyed_step(after, key);
        }
    }
}

/// Writing a pruned block to the key that it was pruned for leaves there what
/// the block declares and nothing else.
pub proof fn pruned_keys_hold_what_is_declared(values: Seq<EntryView>, live: Seq<EntryView>)
    ensures
        held_after(held_after(Map::empty(), live), with_deletions(values, live)) == held_after(
            Map::empty(),
            values,
        ),
{
    let none = Map::<Seq<char>, DataView>::empty();
    let held = held_after(none, live);
    let left = held_after(held, with_deletions(values, live));
    let right = held_after(none, values);
    assert forall|key: Seq<char>| agree(left, right, key) by {
        deletions_decide(held, values, live, key);
        written_names_decide(held, none, values, key);
        written_names_decide(none, none, values, key);
        written_names_decide(none, none, live, key);
    }
    assert(left =~= right) by {
        assert forall|key: Seq<char>| left.contains_key(key) == right.contains_key(key) by {
            assert(agree(left, right, key));
        }
        assert forall|key: Seq<char>| left.contains_key(key) implies left[key] == right[key] by {
            assert(agree(left, right, key));
        }
    }
}

/// Writing the same values a second time changes nothing.
pub proof fn writing_again_changes_nothing(
    state: Map<Seq<char>, DataView>,
    values: Seq<EntryView>,
)
    ensures
        held_after(held_after(state, values), values) == held_after(state, values),
{
    let once = held_after(state, values);
    let twice = held_after(once, values);
    assert forall|key: Seq<char>| agree(twice, once, key) by {
        written_names_decide(once, state, values, key);
    }
    assert(twice =~= once) by {
        assert forall|key: Seq<char>| twice.contains_key(key) == once.contains_key(key) by {
            assert(agree(twice, once, key));
        }
        assert forall|key: Seq<char>| twice.contains_key(key) implies twice[key] == once[key] by {
            assert(agree(twice, once, key));
        }
    }
}

// ---------------------------------------------------------------------------
// Deleting undeclared subtrees
// ---------------------------------------------------------------------------

/// The paths of the blocks that declare a key.
pub open spec fn declared_paths(keys: Seq<BlockView>) -> Seq<PathView>
    decreases keys.len(),
{
    if keys.len() == 0 {
        Seq::empty()
    } else if keys.last().delete {
        declared_paths(keys.drop_last())
    } else {
        declared_paths(keys.drop_last()).push(keys.last().path)
    }
}

/// The paths of blocks.
pub open spec fn block_paths(blocks: Seq<BlockView>) -> Seq<PathView> {
    blocks.map_values(|b: BlockView| b.path)
}

/// A place that could not be read, and why.
pub open spec fn problem_text(p: (String, String)) -> Seq<char> {
    p.0@ + ": "@ + p.1@
}

/// Up to five of the places that could not be read.
pub open spec fn problem_details(skipped: Seq<(String, String)>) -> Seq<char> {
    let some = if skipped.len() > 5 {
        skipped.take(5)
    } else {
        skipped
    };
    joined(some.map_values(|p: (String, String)| problem_text(p)), "; "@)
}

/// The live paths below the declared keys, or the first key that cannot be read
/// in full.
pub open spec fn live_paths(declared: Seq<PathView>, live: Seq<LiveKey>) -> Result<
    Seq<PathView>,
    Seq<char>,
>
    decreases declared.len(),
{
    if declared.len() == 0 {
        Ok(Seq::empty())
    } else {
        match live_paths(declared.drop_last(), live) {
            Err(e) => Err(e),
            Ok(done) => match live[declared.len() - 1] {
                LiveKey::Missing => Ok(done),
                LiveKey::Failed(e) => Err(path_text(declared.last()) + ": "@ + e@),
                LiveKey::Read { blocks, skipped } => if skipped@.len() != 0 {
                    Err(
                        dec_of(skipped@.len()) + " subtree(s) below "@ + path_text(
                            declared.last(),
                        ) + " were unreadable ("@ + problem_details(skipped@) + ")"@,
                    )
                } else {
                    Ok(done + block_paths(views(blocks@)))
                },
            },
        }
    }
}

proof fn a_live_failure_stays(declared: Seq<PathView>, live: Seq<LiveKey>, n: int)
    requires
        0 <= n <= declared.len(),
        live_paths(declared.take(n), live) is Err,
    ensures
        live_paths(declared, live) == live_paths(declared.take(n), live),
    decreases declared.len() - n,
{
    if n < declared.len() {
        assert(declared.take(n + 1).drop_last() =~= declared.take(n));
        a_live_failure_stays(declared, live, n + 1);
    } else {
        assert(declared.take(n) =~= declared);
    }
}

/// A block that deletes a key.
pub open spec fn deletion_of(path: PathView) -> BlockView {
    BlockView { path, delete: true, values: Seq::empty(), line: 0 }
}

/// Blocks that delete keys.
pub open spec fn deletions_of(paths: Seq<PathView>) -> Seq<BlockView> {
    paths.map_values(|p: PathView| deletion_of(p))
}

/// The paths of the blocks that declare a key, in order.
pub fn declared_keys(keys: &[KeyBlock]) -> (out: Vec<RegPath>)
    ensures
        views(out@) == declared_paths(views(keys@)),
{
    broadcast use views_push;

    let ghost all = views(keys@);
    let mut out: Vec<RegPath> = Vec::new();
    assert(views(out@) =~= Seq::<PathView>::empty());
    assert(all.take(0) =~= Seq::<BlockView>::empty());
    for i in 0..keys.len()
        invariant
            all == views(keys@),
            views(out@) == declared_paths(all.take(i as int)),
    {
        assert(all.take(i + 1).drop_last() =~= all.take(i as int));
        assert(all.take(i + 1).last() == keys@[i as int]@);
        if !keys[i].delete {
            let path = keys[i].path.clone();
            let ghost before = out@;
            out.push(path);
            assert(views(out@) == views(before).push(path@));
        }
    }
    assert(all.take(all.len() as int) =~= all);
    out
}

fn describe_problems(skipped: &Vec<(String, String)>) -> (r: String)
    ensures
        r@ == problem_details(skipped@),
{
    broadcast use views_push;

    let n: usize = if skipped.len() > 5 {
        5
    } else {
        skipped.len()
    };
    let mut parts: Vec<String> = Vec::new();
    for i in 0..n
        invariant
            n <= skipped@.len(),
            views(parts@) =~= skipped@.take(i as int).map_values(
                |p: (String, String)| problem_text(p),
            ),
    {
        let one = concat3(skipped[i].0.as_str(), ": ", skipped[i].1.as_str());
        let ghost before = parts@;
        parts.push(one);
        assert(views(parts@) == views(before).push(one@));
    }
    assert(skipped@.len() <= 5 ==> skipped@.take(n as int) =~= skipped@);
    join(parts.as_slice(), "; ")
}

fn push_paths(out: &mut Vec<RegPath>, blocks: &Vec<KeyBlock>)
    ensures
        views(final(out)@) == views(old(out)@) + block_paths(views(blocks@)),
{
    broadcast use views_push;

    let ghost start = views(out@);
    let ghost all = views(blocks@);
    assert(start + block_paths(all.take(0)) =~= start);
    for i in 0..blocks.len()
        invariant
            all == views(blocks@),
            views(out@) =~= start + block_paths(all.take(i as int)),
    {
        let path = blocks[i].path.clone();
        let ghost before = out@;
        out.push(path);
        proof {
            assert(views(out@) == views(before).push(path@));
            assert(block_paths(all.take(i + 1)) =~= block_paths(all.take(i as int)).push(path@));
        }
    }
    assert(all.take(all.len() as int) =~= all);
}

fn collect_live(declared: &Vec<RegPath>, live: &Vec<LiveKey>) -> (r: Result<Vec<RegPath>, String>)
    requires
        live@.len() == declared@.len(),
    ensures
        match r {
            Ok(out) => live_paths(views(declared@), live@) == Ok::<Seq<PathView>, Seq<char>>(
                views(out@),
            ),
            Err(e) => live_paths(views(declared@), live@) == Err::<Seq<PathView>, Seq<char>>(e@),
        },
{
    let ghost d = views(declared@);
    let mut out: Vec<RegPath> = Vec::new();
    assert(views(out@) =~= Seq::<PathView>::empty());
    assert(d.take(0) =~= Seq::<PathView>::empty());
    for i in 0..declared.len()
        invariant
            d == views(declared@),
            live@.len() == declared@.len(),
            live_paths(d.take(i as int), live@) == Ok::<Seq<PathView>, Seq<char>>(views(out@)),
    {
        let parent = &declared[i];
        proof {
            assert(d.take(i + 1).drop_last() =~= d.take(i as int));
            assert(d.take(i + 1).last() == parent@);
        }
        match &live[i] {
            LiveKey::Missing => {},
            LiveKey::Failed(e) => {
                proof {
                    a_live_failure_stays(d, live@, i + 1);
                }
                return Err(concat3(parent.to_string().as_str(), ": ", e.as_str()));
            },
            LiveKey::Read { blocks, skipped } => {
                if skipped.len() != 0 {
                    let mut message = crate::number::to_dec(skipped.len() as u64);
                    message.append(" subtree(s) below ");
                    message.append(parent.to_string().as_str());
                    message.append(" were unreadable (");
                    message.append(describe_problems(skipped).as_str());
                    message.append(")");
                    proof {
                        a_live_failure_stays(d, live@, i + 1);
                    }
                    return Err(message);
                }
                push_paths(&mut out, blocks);
            },
        }
    }
    assert(d.take(d.len() as int) =~= d);
    Ok(out)
}

/// Adds a deletion for every topmost live subtree that the blocks do not
/// declare. `live` holds, for each declared key in order, what reading its
/// subtree gave.
pub fn add_prune_key_deletes(keys: &[KeyBlock], live: &Vec<LiveKey>) -> (r: Result<
    Vec<KeyBlock>,
    String,
>)
    requires
        live@.len() == declared_paths(views(keys@)).len(),
    ensures
        match r {
            Ok(out) => live_paths(declared_paths(views(keys@)), live@) is Ok && exists|
                roots: Seq<PathView>,
            |
                sorted_unique(
                    strays(
                        declared_paths(views(keys@)),
                        declared_paths(views(keys@)),
                        live_paths(declared_paths(views(keys@)), live@)->Ok_0,
                    ),
                    roots,
                ) && views(out@) == views(keys@) + #[trigger] deletions_of(roots),
            Err(e) => live_paths(declared_paths(views(keys@)), live@) == Err::<
                Seq<PathView>,
                Seq<char>,
            >(e@),
        },
{
    broadcast use views_push;

    let declared = declared_keys(keys);
    let paths = match collect_live(&declared, live) {
        Ok(paths) => paths,
        Err(e) => {
            return Err(e);
        },
    };
    let roots = undeclared_subtree_roots(declared.as_slice(), paths.as_slice());
    let mut out = crate::model::copy_blocks(keys);
    let ghost start = views(out@);
    let ghost r = views(roots@);
    assert(start + deletions_of(r.take(0)) =~= start);
    for i in 0..roots.len()
        invariant
            r == views(roots@),
            views(out@) =~= start + deletions_of(r.take(i as int)),
    {
        let values: Vec<ValueEntry> = Vec::new();
        assert(views(values@) =~= Seq::<EntryView>::empty());
        let block = KeyBlock { path: roots[i].clone(), delete: true, values, line: 0 };
        assert(block@ == deletion_of(r[i as int]));
        let ghost before = out@;
        out.push(block);
        proof {
            assert(views(out@) == views(before).push(block@));
            assert(deletions_of(r.take(i + 1)) =~= deletions_of(r.take(i as int)).push(block@));
        }
    }
    assert(r.take(r.len() as int) =~= r);
    assert(views(out@) == views(keys@) + deletions_of(r));
    Ok(out)
}

} // verus!
