//! Redirecting the keys of a file to where they would live per user.
use vstd::prelude::*;

use crate::model::{path_text, BlockView, KeyBlock, PathView, RegPath};
use crate::redirect::{label_of, mapping_of, rank_of, Confidence, MappingView, Policy};
use crate::text::{concat, concat3, same_str, views, views_push};

verus! {

/// What the caller asked for.
#[derive(Clone, Copy, Debug, PartialEq, Eq, Structural)]
pub enum RedirectMode {
    Off,
    Auto,
    ClassesOnly,
    Force,
}

/// The least confidence that the caller asked for.
#[derive(Clone, Copy, Debug, PartialEq, Eq, Structural)]
pub enum MinConfidence {
    Low,
    Medium,
    High,
}

/// What is to be mapped.
pub open spec fn policy_of_mode(mode: RedirectMode) -> Policy {
    match mode {
        RedirectMode::Off => Policy::Off,
        RedirectMode::ClassesOnly => Policy::ClassesOnly,
        RedirectMode::Auto => Policy::Auto,
        RedirectMode::Force => Policy::Auto,
    }
}

/// The confidence that a policy setting names.
pub open spec fn confidence_named(name: Seq<char>) -> Option<Confidence> {
    if name == "high"@ {
        Some(Confidence::High)
    } else if name == "medium"@ {
        Some(Confidence::Medium)
    } else if name == "low"@ {
        Some(Confidence::Low)
    } else {
        None
    }
}

/// The least confidence that the caller's options ask for.
pub open spec fn asked_floor(mode: RedirectMode, min: MinConfidence) -> Confidence {
    if mode == RedirectMode::Force || min == MinConfidence::Low {
        Confidence::Low
    } else if min == MinConfidence::Medium {
        Confidence::Medium
    } else {
        Confidence::High
    }
}

/// The least confidence with which a key is redirected. The policy raises what
/// the caller asked for and never lowers it.
pub open spec fn floor_of(
    mode: RedirectMode,
    min: MinConfidence,
    required: Option<Seq<char>>,
) -> Confidence {
    let asked = asked_floor(mode, min);
    match required {
        Some(name) => match confidence_named(name) {
            Some(w) => if rank_of(w) > rank_of(asked) {
                w
            } else {
                asked
            },
            None => asked,
        },
        None => asked,
    }
}

/// The floor is never below what the policy requires, nor below what the caller
/// asked for.
pub proof fn policy_only_raises_the_floor(
    mode: RedirectMode,
    min: MinConfidence,
    required: Option<Seq<char>>,
)
    ensures
        rank_of(floor_of(mode, min, required)) >= rank_of(asked_floor(mode, min)),
        required matches Some(name) ==> (confidence_named(name) matches Some(w) ==> rank_of(
            floor_of(mode, min, required),
        ) >= rank_of(w)),
{
}

/// The least confidence with which a key is redirected.
pub fn redirect_floor(mode: RedirectMode, min: MinConfidence, required: &Option<String>) -> (r:
    Confidence)
    ensures
        r == floor_of(mode, min, crate::text::opt_text(*required)),
{
    let asked = if mode == RedirectMode::Force || min == MinConfidence::Low {
        Confidence::Low
    } else if min == MinConfidence::Medium {
        Confidence::Medium
    } else {
        Confidence::High
    };
    match required {
        None => asked,
        Some(name) => {
            let want = if same_str(name.as_str(), "high") {
                Some(Confidence::High)
            } else if same_str(name.as_str(), "medium") {
                Some(Confidence::Medium)
            } else if same_str(name.as_str(), "low") {
                Some(Confidence::Low)
            } else {
                None
            };
            match want {
                Some(w) => if w.rank() > asked.rank() {
                    w
                } else {
                    asked
                },
                None => asked,
            }
        },
    }
}

/// What becomes of a key.
#[derive(Clone, Copy, Debug, PartialEq, Eq, Structural)]
pub enum Fate {
    /// It goes to its destination.
    Redirected,
    /// It has a destination that is not trusted enough.
    Skipped,
    /// It has none.
    Refused,
    /// It stays where it is.
    Kept,
}

/// What becomes of a key with a mapping.
pub open spec fn fate_of(m: MappingView, floor: Confidence) -> Fate {
    if m.to is Some {
        if rank_of(m.confidence) >= rank_of(floor) {
            Fate::Redirected
        } else {
            Fate::Skipped
        }
    } else if m.confidence == Confidence::Refuse {
        Fate::Refused
    } else {
        Fate::Kept
    }
}

/// What remains of keys, and how many were left out.
pub struct RedirectView {
    pub kept: Seq<BlockView>,
    pub skipped: nat,
    pub refused: nat,
}

/// The keys with their redirections applied. A key that is skipped or refused is
/// left out and counted.
pub open spec fn redirected(keys: Seq<BlockView>, policy: Policy, floor: Confidence) -> RedirectView
    decreases keys.len(),
{
    if keys.len() == 0 {
        RedirectView { kept: Seq::empty(), skipped: 0, refused: 0 }
    } else {
        let before = redirected(keys.drop_last(), policy, floor);
        let key = keys.last();
        let m = mapping_of(key.path, policy);
        match fate_of(m, floor) {
            Fate::Redirected => RedirectView {
                kept: before.kept.push(BlockView { path: m.to->0, ..key }),
                ..before
            },
            Fate::Skipped => RedirectView { skipped: before.skipped + 1, ..before },
            Fate::Refused => RedirectView { refused: before.refused + 1, ..before },
            Fate::Kept => RedirectView { kept: before.kept.push(key), ..before },
        }
    }
}

/// Every key is redirected, kept, skipped or refused, and counted once.
pub proof fn redirection_loses_no_key(keys: Seq<BlockView>, policy: Policy, floor: Confidence)
    ensures
        redirected(keys, policy, floor).kept.len() + redirected(keys, policy, floor).skipped
            + redirected(keys, policy, floor).refused == keys.len(),
    decreases keys.len(),
{
    if keys.len() > 0 {
        redirection_loses_no_key(keys.drop_last(), policy, floor);
    }
}

/// With redirection off a file stays as it is.
pub proof fn off_changes_nothing(keys: Seq<BlockView>, floor: Confidence)
    ensures
        redirected(keys, Policy::Off, floor) == (RedirectView {
            kept: keys,
            skipped: 0,
            refused: 0,
        }),
    decreases keys.len(),
{
    if keys.len() > 0 {
        off_changes_nothing(keys.drop_last(), floor);
        assert(keys.drop_last().push(keys.last()) =~= keys);
    } else {
        assert(redirected(keys, Policy::Off, floor).kept =~= keys);
    }
}

/// What remains of a file after redirection. Keys that now coincide are still to
/// be merged.
#[derive(Debug)]
pub struct Redirected {
    pub kept: Vec<KeyBlock>,
    pub skipped: usize,
    pub refused: usize,
}

fn policy_for(mode: RedirectMode) -> (r: Policy)
    ensures
        r == policy_of_mode(mode),
{
    match mode {
        RedirectMode::Off => Policy::Off,
        RedirectMode::ClassesOnly => Policy::ClassesOnly,
        RedirectMode::Auto => Policy::Auto,
        RedirectMode::Force => Policy::Auto,
    }
}

/// Redirects the keys of a file.
pub fn redirect_keys(
    keys: &Vec<KeyBlock>,
    mode: RedirectMode,
    min: MinConfidence,
    required: &Option<String>,
) -> (r: Redirected)
    ensures
        ({
            let floor = floor_of(mode, min, crate::text::opt_text(*required));
            let v = redirected(views(keys@), policy_of_mode(mode), floor);
            views(r.kept@) == v.kept && r.skipped == v.skipped && r.refused == v.refused
        }),
{
    broadcast use views_push;

    let policy = policy_for(mode);
    let floor = redirect_floor(mode, min, required);
    let ghost all = views(keys@);
    let mut kept: Vec<KeyBlock> = Vec::new();
    let mut skipped: usize = 0;
    let mut refused: usize = 0;
    assert(views(kept@) =~= Seq::<BlockView>::empty());
    assert(all.take(0) =~= Seq::<BlockView>::empty());
    for i in 0..keys.len()
        invariant
            all == views(keys@),
            ({
                let v = redirected(all.take(i as int), policy, floor);
                views(kept@) == v.kept && skipped == v.skipped && refused == v.refused
            }),
    {
        proof {
            assert(all.take(i + 1).drop_last() =~= all.take(i as int));
            assert(all.take(i + 1).last() == keys@[i as int]@);
            redirection_loses_no_key(all.take(i as int), policy, floor);
        }
        let mut key = keys[i].clone();
        let m = crate::redirect::map(&key.path, policy);
        let ghost before = kept@;
        match m.to {
            Some(dest) => {
                if m.confidence.rank() >= floor.rank() {
                    key.path = dest;
                    kept.push(key);
                    assert(views(kept@) == views(before).push(key@));
                } else {
                    skipped += 1;
                }
            },
            None => {
                if m.confidence == Confidence::Refuse {
                    refused += 1;
                } else {
                    kept.push(key);
                    assert(views(kept@) == views(before).push(key@));
                }
            },
        }
    }
    assert(all.take(all.len() as int) =~= all);
    Redirected { kept, skipped, refused }
}

// ---------------------------------------------------------------------------
// Telling what becomes of keys
// ---------------------------------------------------------------------------

/// What is told of a key. Where it goes is told only where `verbose` asks.
pub open spec fn fate_rows(path: PathView, m: MappingView, floor: Confidence, verbose: bool) -> Seq<
    Seq<char>,
> {
    match fate_of(m, floor) {
        Fate::Redirected => if verbose {
            seq![
                "  redirect ["@ + label_of(m.confidence) + "] "@ + path_text(path) + " -> "@
                    + path_text(m.to->0) + "  ("@ + m.reason + ")"@,
            ]
        } else {
            Seq::empty()
        },
        Fate::Skipped => seq![
            "  skip ["@ + label_of(m.confidence) + "] "@ + path_text(path) + " -> "@ + path_text(
                m.to->0,
            ) + "  ("@ + m.reason + "); lower --min-confidence to include"@,
        ],
        Fate::Refused => seq!["  refuse "@ + path_text(path) + "  ("@ + m.reason + ")"@],
        Fate::Kept => Seq::empty(),
    }
}

/// What is told of keys.
pub open spec fn fates_rows(
    keys: Seq<BlockView>,
    policy: Policy,
    floor: Confidence,
    verbose: bool,
) -> Seq<Seq<char>>
    decreases keys.len(),
{
    if keys.len() == 0 {
        Seq::empty()
    } else {
        fates_rows(keys.drop_last(), policy, floor, verbose) + fate_rows(
            keys.last().path,
            mapping_of(keys.last().path, policy),
            floor,
            verbose,
        )
    }
}

/// What is told of a redirection: that the policy raised the floor, and what
/// becomes of each key.
pub open spec fn redirection_rows(
    keys: Seq<BlockView>,
    mode: RedirectMode,
    min: MinConfidence,
    required: Option<Seq<char>>,
    verbose: bool,
) -> Seq<Seq<char>> {
    let floor = floor_of(mode, min, required);
    let raised = floor != asked_floor(mode, min);
    (if verbose && raised {
        seq!["  policy raises the redirection floor to "@ + label_of(floor)]
    } else {
        Seq::empty()
    }) + fates_rows(keys, policy_of_mode(mode), floor, verbose)
}

fn fate_line(path: &RegPath, policy: Policy, floor: Confidence, verbose: bool) -> (r: Option<String>)
    ensures
        fate_rows(path@, mapping_of(path@, policy), floor, verbose) == (match r {
            Some(line) => seq![line@],
            None => Seq::empty(),
        }),
{
    let m = crate::redirect::map(path, policy);
    match &m.to {
        Some(dest) => {
            if m.confidence.rank() >= floor.rank() {
                if !verbose {
                    return None;
                }
                let mut line = concat3("  redirect [", m.confidence.label(), "] ");
                line.append(path.to_string().as_str());
                line.append(" -> ");
                line.append(dest.to_string().as_str());
                line.append("  (");
                line.append(m.reason);
                line.append(")");
                Some(line)
            } else {
                let mut line = concat3("  skip [", m.confidence.label(), "] ");
                line.append(path.to_string().as_str());
                line.append(" -> ");
                line.append(dest.to_string().as_str());
                line.append("  (");
                line.append(m.reason);
                line.append("); lower --min-confidence to include");
                Some(line)
            }
        },
        None => {
            if m.confidence == Confidence::Refuse {
                let mut line = concat3("  refuse ", path.to_string().as_str(), "  (");
                line.append(m.reason);
                line.append(")");
                Some(line)
            } else {
                None
            }
        },
    }
}

/// What is told of a redirection.
pub fn redirection_lines(
    keys: &Vec<KeyBlock>,
    mode: RedirectMode,
    min: MinConfidence,
    required: &Option<String>,
    verbose: bool,
) -> (out: Vec<String>)
    ensures
        views(out@) == redirection_rows(
            views(keys@),
            mode,
            min,
            crate::text::opt_text(*required),
            verbose,
        ),
{
    broadcast use views_push;

    let policy = policy_for(mode);
    let floor = redirect_floor(mode, min, required);
    let asked = redirect_floor(mode, min, &None);
    let ghost all = views(keys@);
    let mut out: Vec<String> = Vec::new();
    assert(views(out@) =~= Seq::<Seq<char>>::empty());
    if verbose && floor != asked {
        let line = concat("  policy raises the redirection floor to ", floor.label());
        out.push(line);
        assert(views(out@) =~= seq![line@]);
    }
    let ghost head = views(out@);
    assert(all.take(0) =~= Seq::<BlockView>::empty());
    assert(head + Seq::<Seq<char>>::empty() =~= head);
    for i in 0..keys.len()
        invariant
            all == views(keys@),
            views(out@) == head + fates_rows(all.take(i as int), policy, floor, verbose),
    {
        assert(all.take(i + 1).drop_last() =~= all.take(i as int));
        assert(all.take(i + 1).last() == keys@[i as int]@);
        let ghost before = fates_rows(all.take(i as int), policy, floor, verbose);
        match fate_line(&keys[i].path, policy, floor, verbose) {
            Some(line) => {
                let ghost earlier = out@;
                out.push(line);
                assert(views(out@) == views(earlier).push(line@));
                assert((head + before).push(line@) =~= head + (before + seq![line@]));
            },
            None => {
                assert(before + Seq::<Seq<char>>::empty() =~= before);
            },
        }
    }
    assert(all.take(all.len() as int) =~= all);
    out
}

} // verus!
