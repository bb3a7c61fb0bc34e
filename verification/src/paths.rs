//! Subtrees: what lies below a key, and moving it elsewhere.
use vstd::prelude::*;
use vstd::slice::slice_subrange;

use crate::exit::{usage, usage_error, ErrorView, ExitError};
use crate::model::{
    copy_entries, fold_str, folded, folded_concat, path_named, path_text, BlockView, Hive,
    KeyBlock, PathView, RegFile, RegPath,
};
use crate::text::{
    begins, chars_of, concat, concat3, contains_char, debug_text, find_char, first_of,
    first_of_is_first, lowered, opt_str, same, split, split_by, starts_with, string_of, strip,
    stripped, to_debug, to_lower, views, views_push,
};

verus! {

/// `candidate` lies strictly below `parent`, by whole components and ignoring
/// case.
pub open spec fn lies_below(candidate: PathView, parent: PathView) -> bool {
    let c = folded(candidate.sub);
    let p = folded(parent.sub);
    candidate.hive == parent.hive && if p.len() == 0 {
        c.len() != 0
    } else {
        begins(c, p + "\\"@)
    }
}

/// Whether `candidate` lies strictly below `parent`.
pub fn path_is_within(candidate: &RegPath, parent: &RegPath) -> (b: bool)
    ensures
        b == lies_below(candidate@, parent@),
{
    if candidate.hive != parent.hive {
        return false;
    }
    let c = fold_str(candidate.sub.as_str());
    let p = fold_str(parent.sub.as_str());
    if p.as_str().is_empty() {
        return !c.as_str().is_empty();
    }
    let chars = chars_of(c.as_str());
    let prefix = chars_of(concat(p.as_str(), "\\").as_str());
    starts_with(chars.as_slice(), prefix.as_slice())
}

/// No key lies below itself.
pub proof fn nothing_lies_below_itself(p: PathView)
    ensures
        !lies_below(p, p),
{
    reveal_strlit("\\");
}

/// What lies below a key that lies below another lies below that one too.
pub proof fn lying_below_is_transitive(a: PathView, b: PathView, c: PathView)
    requires
        lies_below(a, b),
        lies_below(b, c),
    ensures
        lies_below(a, c),
{
    reveal_strlit("\\");
    let x = folded(a.sub);
    let y = folded(b.sub);
    let z = folded(c.sub);
    if z.len() > 0 {
        let p = z + "\\"@;
        let q = y + "\\"@;
        assert(x.take(p.len() as int) =~= x.take(q.len() as int).take(p.len() as int));
        assert(q.take(p.len() as int) =~= y.take(p.len() as int));
    }
}

/// A key lies below every key that its path goes through.
pub proof fn children_lie_below(p: PathView, more: Seq<char>)
    requires
        more.len() > 0,
    ensures
        lies_below(
            PathView {
                hive: p.hive,
                sub: if p.sub.len() == 0 {
                    more
                } else {
                    p.sub + "\\"@ + more
                },
            },
            p,
        ),
{
    reveal_strlit("\\");
    if p.sub.len() > 0 {
        let s = p.sub + "\\"@ + more;
        folded_concat(p.sub + "\\"@, more);
        folded_concat(p.sub, "\\"@);
        assert(folded("\\"@) =~= "\\"@);
        let prefix = folded(p.sub) + "\\"@;
        assert(folded(s).take(prefix.len() as int) =~= prefix);
    }
}

// ---------------------------------------------------------------------------
// Rebasing
// ---------------------------------------------------------------------------

/// What follows the first `n` components of a subkey path, each with its
/// backslash; none where there are not that many backslashes.
pub open spec fn after_components(sub: Seq<char>, n: nat) -> Option<Seq<char>>
    decreases n,
{
    if n == 0 {
        Some(sub)
    } else {
        let i = first_of(sub, '\\');
        if i >= sub.len() {
            None
        } else {
            after_components(sub.skip(i + 1), (n - 1) as nat)
        }
    }
}

/// The path of a key relative to the key that it is rebased from.
pub open spec fn relative_path(key: PathView, source: PathView) -> Result<Seq<char>, Seq<char>> {
    let k = folded(key.sub);
    let s = folded(source.sub);
    if key.hive != source.hive {
        Err(
            "cannot rebase "@ + path_text(key) + " below source "@ + path_text(source)
                + " because the registry hives differ"@,
        )
    } else if s.len() == 0 {
        Ok(key.sub)
    } else if k == s {
        Ok(Seq::empty())
    } else if begins(k, s + "\\"@) {
        match after_components(key.sub, split_by(source.sub, '\\').len()) {
            Some(rest) => Ok(rest),
            None => Err(
                "cannot derive relative path for "@ + path_text(key) + " below requested source "@
                    + path_text(source),
            ),
        }
    } else {
        Err("export returned "@ + path_text(key) + " outside requested source "@ + path_text(source))
    }
}

/// The path with `relative` behind `dest`.
pub open spec fn path_below(dest: PathView, relative: Seq<char>) -> PathView {
    PathView {
        hive: dest.hive,
        sub: if relative.len() == 0 {
            dest.sub
        } else if dest.sub.len() == 0 {
            relative
        } else {
            dest.sub + "\\"@ + relative
        },
    }
}

/// A key block moved from below `source` to below `dest`; only its path
/// changes.
pub open spec fn rebased(key: BlockView, source: PathView, dest: PathView) -> Result<
    BlockView,
    Seq<char>,
> {
    match relative_path(key.path, source) {
        Ok(relative) => Ok(BlockView { path: path_below(dest, relative), ..key }),
        Err(e) => Err(e),
    }
}

/// Key blocks moved from below `source` to below `dest`, or the first error.
pub open spec fn all_rebased(keys: Seq<BlockView>, source: PathView, dest: PathView) -> Result<
    Seq<BlockView>,
    Seq<char>,
>
    decreases keys.len(),
{
    if keys.len() == 0 {
        Ok(Seq::empty())
    } else {
        match all_rebased(keys.drop_last(), source, dest) {
            Err(e) => Err(e),
            Ok(done) => match rebased(keys.last(), source, dest) {
                Err(e) => Err(e),
                Ok(b) => Ok(done.push(b)),
            },
        }
    }
}

proof fn an_error_stays(keys: Seq<BlockView>, source: PathView, dest: PathView, n: int)
    requires
        0 <= n <= keys.len(),
        all_rebased(keys.take(n), source, dest) is Err,
    ensures
        all_rebased(keys, source, dest) == all_rebased(keys.take(n), source, dest),
    decreases keys.len() - n,
{
    if n < keys.len() {
        assert(keys.take(n + 1).drop_last() =~= keys.take(n));
        an_error_stays(keys, source, dest, n + 1);
    } else {
        assert(keys.take(n) =~= keys);
    }
}

fn skip_components(sub: &[char], n: usize) -> (r: Option<Vec<char>>)
    ensures
        match r {
            Some(rest) => after_components(sub@, n as nat) == Some(rest@),
            None => after_components(sub@, n as nat) is None,
        },
{
    let mut rest: &[char] = sub;
    let mut left: usize = n;
    while left > 0
        invariant
            after_components(sub@, n as nat) == after_components(rest@, left as nat),
        decreases left,
    {
        let i = find_char(rest, '\\');
        if i >= rest.len() {
            return None;
        }
        rest = slice_subrange(rest, i + 1, rest.len());
        left -= 1;
    }
    Some(vstd::slice::slice_to_vec(rest))
}

fn relative_to(key: &RegPath, source: &RegPath) -> (r: Result<Vec<char>, String>)
    ensures
        match r {
            Ok(rest) => relative_path(key@, source@) == Ok::<Seq<char>, Seq<char>>(rest@),
            Err(e) => relative_path(key@, source@) == Err::<Seq<char>, Seq<char>>(e@),
        },
{
    let key_text = key.to_string();
    let source_text = source.to_string();
    if key.hive != source.hive {
        let mut message = concat3("cannot rebase ", key_text.as_str(), " below source ");
        message.append(source_text.as_str());
        message.append(" because the registry hives differ");
        return Err(message);
    }
    let key_chars = chars_of(key.sub.as_str());
    let k = fold_str(key.sub.as_str());
    let s = fold_str(source.sub.as_str());
    if s.as_str().is_empty() {
        return Ok(key_chars);
    }
    let kc = chars_of(k.as_str());
    let sc = chars_of(s.as_str());
    if same(kc.as_slice(), sc.as_slice()) {
        let none: Vec<char> = Vec::new();
        assert(none@ =~= Seq::<char>::empty());
        return Ok(none);
    }
    let prefix = chars_of(concat(s.as_str(), "\\").as_str());
    if starts_with(kc.as_slice(), prefix.as_slice()) {
        let source_chars = chars_of(source.sub.as_str());
        let parts = split(source_chars.as_slice(), '\\');
        assert(views(parts@).len() == parts@.len());
        match skip_components(key_chars.as_slice(), parts.len()) {
            Some(rest) => Ok(rest),
            None => {
                let mut message = concat3(
                    "cannot derive relative path for ",
                    key_text.as_str(),
                    " below requested source ",
                );
                message.append(source_text.as_str());
                Err(message)
            },
        }
    } else {
        let mut message = concat3(
            "export returned ",
            key_text.as_str(),
            " outside requested source ",
        );
        message.append(source_text.as_str());
        Err(message)
    }
}

/// Moves key blocks from below `source` to below `dest`.
pub fn rebase_subtree(keys: &[KeyBlock], source: &RegPath, dest: &RegPath) -> (r: Result<
    Vec<KeyBlock>,
    String,
>)
    ensures
        match r {
            Ok(out) => all_rebased(views(keys@), source@, dest@) == Ok::<
                Seq<BlockView>,
                Seq<char>,
            >(views(out@)),
            Err(e) => all_rebased(views(keys@), source@, dest@) == Err::<
                Seq<BlockView>,
                Seq<char>,
            >(e@),
        },
{
    broadcast use views_push;

    let ghost all = views(keys@);
    let mut out: Vec<KeyBlock> = Vec::new();
    assert(views(out@) =~= Seq::<BlockView>::empty());
    assert(all.take(0) =~= Seq::<BlockView>::empty());
    for i in 0..keys.len()
        invariant
            all == views(keys@),
            all_rebased(all.take(i as int), source@, dest@) == Ok::<Seq<BlockView>, Seq<char>>(
                views(out@),
            ),
    {
        let key = &keys[i];
        proof {
            assert(all.take(i + 1).drop_last() =~= all.take(i as int));
            assert(all.take(i + 1).last() == key@);
        }
        match relative_to(&key.path, source) {
            Err(e) => {
                proof {
                    an_error_stays(all, source@, dest@, i + 1);
                }
                return Err(e);
            },
            Ok(relative) => {
                let sub = if relative.len() == 0 {
                    dest.sub.clone()
                } else if dest.sub.as_str().is_empty() {
                    string_of(relative.as_slice())
                } else {
                    concat3(
                        dest.sub.as_str(),
                        "\\",
                        string_of(relative.as_slice()).as_str(),
                    )
                };
                let block = KeyBlock {
                    path: RegPath { hive: dest.hive, sub },
                    delete: key.delete,
                    values: copy_entries(key.values.as_slice()),
                    line: key.line,
                };
                let ghost before = out@;
                out.push(block);
                assert(views(out@) == views(before).push(block@));
            },
        }
    }
    assert(all.take(all.len() as int) =~= all);
    Ok(out)
}

/// Rebasing keeps everything of a block but its path, and every block.
pub proof fn rebasing_keeps_the_values(keys: Seq<BlockView>, source: PathView, dest: PathView)
    requires
        all_rebased(keys, source, dest) is Ok,
    ensures
        ({
            let out = all_rebased(keys, source, dest)->Ok_0;
            &&& out.len() == keys.len()
            &&& forall|i: int|
                0 <= i < keys.len() ==> (#[trigger] out[i]).values == keys[i].values && out[i].delete
                    == keys[i].delete && out[i].line == keys[i].line && out[i].path.hive
                    == dest.hive
        }),
    decreases keys.len(),
{
    if keys.len() > 0 {
        rebasing_keeps_the_values(keys.drop_last(), source, dest);
    }
}

proof fn components_of_a_prefix(prefix: Seq<char>, rest: Seq<char>)
    ensures
        after_components(prefix + "\\"@ + rest, split_by(prefix, '\\').len()) == Some(rest),
    decreases prefix.len(),
{
    reveal_strlit("\\");
    let whole = prefix + "\\"@ + rest;
    first_of_is_first(prefix, '\\');
    let i = first_of(prefix, '\\');
    if i >= prefix.len() {
        assert forall|j: int| 0 <= j < prefix.len() implies whole[j] != '\\' by {
            assert(whole[j] == prefix[j]);
        }
        assert(whole[prefix.len() as int] == '\\');
        crate::text::first_of_unique(whole, '\\', prefix.len() as int);
        assert(whole.skip(prefix.len() as int + 1) =~= rest);
        assert(split_by(prefix, '\\').len() == 1);
        reveal_with_fuel(after_components, 2);
    } else {
        assert forall|j: int| 0 <= j < i implies whole[j] != '\\' by {
            assert(whole[j] == prefix[j]);
        }
        assert(whole[i] == prefix[i]);
        crate::text::first_of_unique(whole, '\\', i);
        let shorter = prefix.skip(i + 1);
        components_of_a_prefix(shorter, rest);
        assert(whole.skip(i + 1) =~= shorter + "\\"@ + rest);
        assert(split_by(prefix, '\\').len() == 1 + split_by(shorter, '\\').len());
    }
}

/// A key below `source` is moved to the same place below `dest`.
pub proof fn children_are_rebased(source: PathView, dest: PathView, rest: Seq<char>)
    requires
        rest.len() > 0,
    ensures
        relative_path(path_below(source, rest), source) == Ok::<Seq<char>, Seq<char>>(rest),
{
    reveal_strlit("\\");
    if source.sub.len() > 0 {
        let k = path_below(source, rest).sub;
        components_of_a_prefix(source.sub, rest);
        folded_concat(source.sub + "\\"@, rest);
        folded_concat(source.sub, "\\"@);
        assert(folded("\\"@) =~= "\\"@);
        let prefix = folded(source.sub) + "\\"@;
        assert(folded(k).take(prefix.len() as int) =~= prefix);
        assert(folded(k).len() == k.len());
        assert(folded(source.sub).len() == source.sub.len());
    } else {
        assert(folded(source.sub) =~= Seq::<char>::empty());
    }
}

/// A key lies at or below another, as that one is spelled.
pub open spec fn spelled_within(p: PathView, source: PathView) -> bool {
    p.hive == source.hive && (p.sub == source.sub || exists|rest: Seq<char>|
        rest.len() > 0 && p == #[trigger] path_below(source, rest))
}

/// Moving a block from `source` to `dest` and back gives the block that was
/// there, for a key at or below `source` as it is spelled.
pub proof fn rebasing_there_and_back(key: BlockView, source: PathView, dest: PathView)
    requires
        spelled_within(key.path, source),
    ensures
        rebased(key, source, dest) is Ok,
        rebased(rebased(key, source, dest)->Ok_0, dest, source) == Ok::<BlockView, Seq<char>>(key),
{
    if key.path.sub == source.sub {
        let moved = rebased(key, source, dest)->Ok_0;
        assert(folded(source.sub).len() == source.sub.len());
        assert(folded(dest.sub).len() == dest.sub.len());
        if source.sub.len() == 0 {
            assert(key.path.sub =~= Seq::<char>::empty());
        }
        assert(moved.path.sub == dest.sub);
        if dest.sub.len() == 0 {
            assert(dest.sub =~= Seq::<char>::empty());
        }
    } else {
        let rest = choose|rest: Seq<char>|
            rest.len() > 0 && key.path == #[trigger] path_below(source, rest);
        children_are_rebased(source, dest, rest);
        children_are_rebased(dest, source, rest);
    }
}

/// Moving a subtree from `source` to `dest` and back gives exactly the subtree
/// that was there, for keys at or below `source` as it is spelled.
pub proof fn subtrees_move_there_and_back(
    keys: Seq<BlockView>,
    source: PathView,
    dest: PathView,
)
    requires
        forall|i: int| 0 <= i < keys.len() ==> spelled_within((#[trigger] keys[i]).path, source),
    ensures
        all_rebased(keys, source, dest) is Ok,
        all_rebased(all_rebased(keys, source, dest)->Ok_0, dest, source) == Ok::<
            Seq<BlockView>,
            Seq<char>,
        >(keys),
    decreases keys.len(),
{
    if keys.len() > 0 {
        let front = keys.drop_last();
        assert forall|i: int| 0 <= i < front.len() implies spelled_within(
            (#[trigger] front[i]).path,
            source,
        ) by {
            assert(front[i] == keys[i]);
        }
        subtrees_move_there_and_back(front, source, dest);
        assert(keys.last() == keys[keys.len() - 1]);
        rebasing_there_and_back(keys.last(), source, dest);
        let moved = all_rebased(keys, source, dest)->Ok_0;
        let before = all_rebased(front, source, dest)->Ok_0;
        assert(moved.drop_last() =~= before);
        assert(front.push(keys.last()) =~= keys);
    } else {
        assert(keys =~= Seq::<BlockView>::empty());
    }
}

// ---------------------------------------------------------------------------
// Offline hives
// ---------------------------------------------------------------------------

/// The path of a key of an offline hive, whose own hive component is ignored.
pub open spec fn offline_path(sub: Seq<char>) -> PathView {
    PathView { hive: Hive::Hkcu, sub: stripped(sub, '\\') }
}

/// The path of a key of an offline hive.
pub fn hive_path(sub: &str) -> (r: RegPath)
    ensures
        r@ == offline_path(sub@),
{
    let chars = chars_of(sub);
    RegPath { hive: Hive::Hkcu, sub: string_of(strip(chars.as_slice(), '\\')) }
}

/// The path of `suffix` below `root`.
pub open spec fn joined_path(root: PathView, suffix: Seq<char>) -> PathView {
    let s = stripped(suffix, '\\');
    PathView {
        hive: root.hive,
        sub: if root.sub.len() == 0 {
            s
        } else if s.len() == 0 {
            root.sub
        } else {
            root.sub + "\\"@ + s
        },
    }
}

/// The path of `suffix` below `root`.
pub fn joined_reg_path(root: &RegPath, suffix: &str) -> (r: RegPath)
    ensures
        r@ == joined_path(root@, suffix@),
{
    let chars = chars_of(suffix);
    let s = strip(chars.as_slice(), '\\');
    let sub = if root.sub.as_str().is_empty() {
        string_of(s)
    } else if s.len() == 0 {
        root.sub.clone()
    } else {
        concat3(root.sub.as_str(), "\\", string_of(s).as_str())
    };
    RegPath { hive: root.hive, sub }
}

/// The keys of a file moved from below a prefix to the root of an offline hive.
/// A key outside the prefix is an error: kept, it would land in a surprising
/// place.
pub open spec fn strip_outcome(keys: Seq<BlockView>, prefix: Option<Seq<char>>) -> Result<
    Seq<BlockView>,
    ErrorView,
> {
    match prefix {
        None => Ok(keys),
        Some(raw) => {
            let p = stripped(raw, '\\');
            if p.len() == 0 {
                Err(usage_error("--strip-root cannot be empty"@))
            } else {
                match path_named(p) {
                    None => Err(
                        usage_error("invalid --strip-root registry path "@ + debug_text(p)),
                    ),
                    Some(source) => match all_rebased(keys, source, offline_path(Seq::empty())) {
                        Ok(out) => Ok(out),
                        Err(e) => Err(
                            usage_error(e + "; refusing a partially re-rooted hive import"@),
                        ),
                    },
                }
            }
        },
    }
}

/// Moves the keys of a file to the root of an offline hive.
pub fn strip_hive_root(file: &mut RegFile, prefix: Option<&str>) -> (r: Result<(), ExitError>)
    ensures
        final(file)@.format == old(file)@.format,
        final(file)@.encoding == old(file)@.encoding,
        match r {
            Ok(_) => strip_outcome(old(file)@.keys, opt_str(prefix)) == Ok::<
                Seq<BlockView>,
                ErrorView,
            >(final(file)@.keys),
            Err(e) => strip_outcome(old(file)@.keys, opt_str(prefix)) == Err::<
                Seq<BlockView>,
                ErrorView,
            >(e@) && final(file)@ == old(file)@,
        },
{
    let raw = match prefix {
        None => {
            return Ok(());
        },
        Some(raw) => raw,
    };
    let chars = chars_of(raw);
    let p = strip(chars.as_slice(), '\\');
    if p.len() == 0 {
        return Err(usage("--strip-root cannot be empty".to_owned()));
    }
    let source = match crate::model::parse_path(p) {
        Some(source) => source,
        None => {
            return Err(
                usage(
                    concat(
                        "invalid --strip-root registry path ",
                        to_debug(string_of(p).as_str()).as_str(),
                    ),
                ),
            );
        },
    };
    let root = hive_path("");
    proof {
        reveal_strlit("");
        assert(""@ =~= Seq::<char>::empty());
    }
    match rebase_subtree(file.keys.as_slice(), &source, &root) {
        Ok(keys) => {
            file.keys = keys;
            Ok(())
        },
        Err(e) => Err(
            usage(concat(e.as_str(), "; refusing a partially re-rooted hive import")),
        ),
    }
}

// ---------------------------------------------------------------------------
// Mapping one side of a comparison
// ---------------------------------------------------------------------------

/// The keys of one side of a comparison with a mapping `FROM=TO` applied.
pub open spec fn mapped(
    keys: Seq<BlockView>,
    mapping: Option<Seq<char>>,
    side: Seq<char>,
) -> Result<Seq<BlockView>, ErrorView> {
    let flag = "--map-"@ + lowered(side);
    match mapping {
        None => Ok(keys),
        Some(m) => {
            let i = first_of(m, '=');
            let from = m.take(i);
            let to = m.skip(i + 1);
            if i >= m.len() {
                Err(usage_error(flag + " expects FROM=TO absolute registry keys"@))
            } else if from.len() == 0 || to.len() == 0 || to.contains('=') {
                Err(usage_error(flag + " expects exactly one FROM=TO pair"@))
            } else if path_named(from) is None {
                Err(
                    usage_error(
                        flag + " source "@ + debug_text(from)
                            + " is not an absolute registry key"@,
                    ),
                )
            } else if path_named(to) is None {
                Err(
                    usage_error(
                        flag + " destination "@ + debug_text(to)
                            + " is not an absolute registry key"@,
                    ),
                )
            } else {
                match all_rebased(keys, path_named(from)->0, path_named(to)->0) {
                    Ok(out) => Ok(out),
                    Err(e) => Err(usage_error(flag + " cannot be applied: "@ + e)),
                }
            }
        },
    }
}

/// Applies a mapping to one side of a comparison.
pub fn apply_diff_mapping(keys: Vec<KeyBlock>, mapping: Option<&str>, side: &str) -> (r: Result<
    Vec<KeyBlock>,
    ExitError,
>)
    ensures
        match r {
            Ok(out) => mapped(views(keys@), opt_str(mapping), side@) == Ok::<
                Seq<BlockView>,
                ErrorView,
            >(views(out@)),
            Err(e) => mapped(views(keys@), opt_str(mapping), side@) == Err::<
                Seq<BlockView>,
                ErrorView,
            >(e@),
        },
{
    let m = match mapping {
        None => {
            return Ok(keys);
        },
        Some(m) => m,
    };
    let side_chars = chars_of(side);
    let low = to_lower(side_chars.as_slice());
    let flag = concat("--map-", string_of(low.as_slice()).as_str());
    let chars = chars_of(m);
    let s = chars.as_slice();
    let i = find_char(s, '=');
    if i >= s.len() {
        return Err(
            usage(concat(flag.as_str(), " expects FROM=TO absolute registry keys")),
        );
    }
    let from = slice_subrange(s, 0, i);
    let to = slice_subrange(s, i + 1, s.len());
    if from.len() == 0 || to.len() == 0 || contains_char(to, '=') {
        return Err(usage(concat(flag.as_str(), " expects exactly one FROM=TO pair")));
    }
    let source = match crate::model::parse_path(from) {
        Some(p) => p,
        None => {
            let mut message = concat3(
                flag.as_str(),
                " source ",
                to_debug(string_of(from).as_str()).as_str(),
            );
            message.append(" is not an absolute registry key");
            return Err(usage(message));
        },
    };
    let dest = match crate::model::parse_path(to) {
        Some(p) => p,
        None => {
            let mut message = concat3(
                flag.as_str(),
                " destination ",
                to_debug(string_of(to).as_str()).as_str(),
            );
            message.append(" is not an absolute registry key");
            return Err(usage(message));
        },
    };
    match rebase_subtree(keys.as_slice(), &source, &dest) {
        Ok(out) => Ok(out),
        Err(e) => Err(
            usage(concat3(flag.as_str(), " cannot be applied: ", e.as_str())),
        ),
    }
}

proof fn rebased_one_by_one(keys: Seq<BlockView>, source: PathView, dest: PathView, i: int)
    requires
        0 <= i < keys.len(),
        all_rebased(keys, source, dest) is Ok,
    ensures
        all_rebased(keys, source, dest)->Ok_0.len() == keys.len(),
        rebased(keys[i], source, dest) == Ok::<BlockView, Seq<char>>(
            (all_rebased(keys, source, dest)->Ok_0)[i],
        ),
    decreases keys.len(),
{
    rebasing_keeps_the_values(keys, source, dest);
    let front = keys.drop_last();
    rebasing_keeps_the_values(front, source, dest);
    if i < keys.len() - 1 {
        rebased_one_by_one(front, source, dest, i);
        assert(front[i] == keys[i]);
    }
}

/// Rebasing takes the key that lies `rest` below the source to `rest` below the
/// destination, and the source itself to the destination.
pub proof fn keys_go_along(
    keys: Seq<BlockView>,
    source: PathView,
    dest: PathView,
    i: int,
    rest: Seq<char>,
)
    requires
        all_rebased(keys, source, dest) is Ok,
        0 <= i < keys.len(),
        keys[i].path.hive == source.hive,
        keys[i].path.sub == if rest.len() == 0 {
            source.sub
        } else if source.sub.len() == 0 {
            rest
        } else {
            source.sub + seq!['\\'] + rest
        },
    ensures
        ({
            let out = all_rebased(keys, source, dest)->Ok_0;
            &&& out.len() == keys.len()
            &&& out[i].path.hive == dest.hive
            &&& out[i].path.sub == if rest.len() == 0 {
                dest.sub
            } else if dest.sub.len() == 0 {
                rest
            } else {
                dest.sub + seq!['\\'] + rest
            }
        }),
{
    reveal_strlit("\\");
    assert("\\"@ =~= seq!['\\']);
    rebased_one_by_one(keys, source, dest, i);
    if rest.len() > 0 {
        assert(keys[i].path == path_below(source, rest));
        children_are_rebased(source, dest, rest);
    } else {
        assert(folded(source.sub).len() == source.sub.len());
        if source.sub.len() == 0 {
            assert(source.sub =~= Seq::<char>::empty());
        }
    }
}

/// A key that does not lie at or below the source is never taken along: the
/// whole is refused.
pub proof fn strangers_are_not_taken_along(
    keys: Seq<BlockView>,
    source: PathView,
    dest: PathView,
    i: int,
)
    requires
        all_rebased(keys, source, dest) is Ok,
        0 <= i < keys.len(),
    ensures
        keys[i].path.hive == source.hive,
        source.sub.len() == 0 || folded(keys[i].path.sub) == folded(source.sub) || (folded(
            keys[i].path.sub,
        ).len() > source.sub.len() && folded(keys[i].path.sub).take(source.sub.len() as int)
            == folded(source.sub) && folded(keys[i].path.sub)[source.sub.len() as int] == '\\'),
{
    reveal_strlit("\\");
    rebased_one_by_one(keys, source, dest, i);
    let k = folded(keys[i].path.sub);
    let s = folded(source.sub);
    assert(s.len() == source.sub.len());
    if s.len() > 0 && k != s {
        assert(begins(k, s + "\\"@));
        assert(k.take(s.len() as int + 1)[s.len() as int] == '\\');
        assert(k.take(s.len() as int) =~= k.take(s.len() as int + 1).take(s.len() as int));
        assert((s + "\\"@).take(s.len() as int) =~= s);
    }
}

} // verus!
