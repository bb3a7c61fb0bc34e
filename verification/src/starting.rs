//! How each command that changes something starts: from what was asked for and
//! read to a guarded change, or to the end of the run.
use vstd::prelude::*;

use crate::changing::{begin_change, setup_of, ChangeKind, Flags};
use crate::exit::{ErrorView, Exit, ExitError, RegistryFailure};
use crate::guard::{begun, GuardView, Guarded};
use crate::input::{conflicts_end, require_coalesce_conflicts, ConflictPolicy, Stage};
use crate::model::{BlockView, FileView, KeyBlock, RegData, RegFile};
use crate::mutation::{
    delete_outcome, enforce_denies, file_of, hive_delete_file, key_or_usage, live_delete_file,
    make_file, parse_key, set_file, unnamed_or, value_block, Ground,
};
use crate::outcome::{import_stop, import_stops};
use crate::paths::{hive_path, offline_path};
use crate::policy::{Policy, PolicyView};
use crate::preparing::{
    coalesced_file, hive_value_start, prepare_hive_value_copy, prepare_subtree_copy, subtree_start,
    CopyStart, CopyStartView, Keys, ValueCopy,
};
use crate::text::{opt_str, views, views_push};

verus! {

/// How a command goes on: it ends, or a change begins.
#[derive(Debug)]
pub enum Started {
    Stop(Exit),
    Begin(Guarded),
}

/// What a `Started` stands for.
pub enum StartedView {
    Stop(Exit),
    Begin(GuardView),
}

impl View for Started {
    type V = StartedView;

    open spec fn view(&self) -> StartedView {
        match self {
            Started::Stop(e) => StartedView::Stop(*e),
            Started::Begin(g) => StartedView::Begin(g@),
        }
    }
}

/// How a command goes on, or the error it ends with.
pub open spec fn started_result(r: Result<Started, ExitError>) -> Result<StartedView, ErrorView> {
    match r {
        Ok(s) => Ok(s@),
        Err(e) => Err(e@),
    }
}

/// The same file for every view.
pub open spec fn for_views(file: FileView, count: nat) -> Seq<FileView> {
    Seq::new(count, |i: int| file)
}

fn repeat_file(file: RegFile, count: usize) -> (out: Vec<RegFile>)
    ensures
        views(out@) == for_views(file@, count as nat),
{
    broadcast use views_push;

    let mut out: Vec<RegFile> = Vec::new();
    for i in 0..count
        invariant
            views(out@) =~= for_views(file@, i as nat),
    {
        let one = file.clone();
        let ghost before = out@;
        out.push(one);
        assert(views(out@) == views(before).push(one@));
    }
    out
}

fn one_file(file: RegFile) -> (out: Vec<RegFile>)
    ensures
        views(out@) == seq![file@],
{
    let out = vec![file];
    assert(views(out@) =~= seq![file@]);
    out
}

// ---------------------------------------------------------------------------
// The live registry
// ---------------------------------------------------------------------------

/// How an import goes on: conflicts, refusals and emptiness end it; otherwise
/// the same keys are wanted in every view.
pub open spec fn import_start(
    policy: PolicyView,
    flags: Flags,
    count: nat,
    keys: Seq<BlockView>,
    conflicts: nat,
    allowed: ConflictPolicy,
    refused: nat,
    fail_on_refuse: bool,
) -> Result<StartedView, ErrorView> {
    match conflicts_end(conflicts, allowed, "registry mutation"@, Stage::Combined) {
        Err(e) => Err(e),
        Ok(_) => match import_stops(refused, fail_on_refuse, keys.len()) {
            Some(exit) => Ok(StartedView::Stop(exit)),
            None => Ok(
                StartedView::Begin(
                    begun(
                        policy,
                        setup_of(ChangeKind::Import, flags),
                        for_views(file_of(keys), count),
                    ),
                ),
            ),
        },
    }
}

/// How an import goes on. `keys` are what is left after redirection and
/// selection; `conflicts` came up when the inputs were combined.
pub fn start_import(
    policy: &Policy,
    flags: Flags,
    count: usize,
    keys: Vec<KeyBlock>,
    conflicts: usize,
    allowed: ConflictPolicy,
    refused: usize,
    fail_on_refuse: bool,
) -> (r: Result<Started, ExitError>)
    ensures
        started_result(r) == import_start(
            policy@,
            flags,
            count as nat,
            views(keys@),
            conflicts as nat,
            allowed,
            refused as nat,
            fail_on_refuse,
        ),
{
    match require_coalesce_conflicts(conflicts, allowed, "registry mutation", Stage::Combined) {
        Ok(_) => {},
        Err(e) => {
            return Err(e);
        },
    }
    assert(views(keys@).len() == keys@.len());
    match import_stop(refused, fail_on_refuse, keys.len()) {
        Some(exit) => Ok(Started::Stop(exit)),
        None => {
            let files = repeat_file(make_file(keys), count);
            Ok(Started::Begin(begin_change(policy, ChangeKind::Import, flags, files)))
        },
    }
}

/// How setting a value goes on. `keys` are what redirection left of the change.
pub fn start_set(policy: &Policy, flags: Flags, count: usize, keys: Vec<KeyBlock>) -> (r: Started)
    ensures
        r@ == if keys@.len() == 0 {
            StartedView::Stop(Exit::RedirectRefused)
        } else {
            StartedView::Begin(
                begun(
                    policy@,
                    setup_of(ChangeKind::SetValue, flags),
                    for_views(file_of(views(keys@)), count as nat),
                ),
            )
        },
{
    if keys.len() == 0 {
        return Started::Stop(Exit::RedirectRefused);
    }
    let files = repeat_file(make_file(keys), count);
    Started::Begin(begin_change(policy, ChangeKind::SetValue, flags, files))
}

/// What is said where a key is to be deleted without what is below it.
pub open spec fn recursion_needed() -> Seq<char> {
    "deleting a key removes its subkeys; pass -r to confirm, or -v NAME for one value"@
}

/// How deleting a key or a value goes on.
pub open spec fn delete_start(
    policy: PolicyView,
    flags: Flags,
    count: nat,
    key: Seq<char>,
    value: Option<Seq<char>>,
    recursive: bool,
) -> Result<StartedView, ErrorView> {
    match key_or_usage(key) {
        Err(e) => Err(e),
        Ok(path) => match delete_outcome(path, value, recursive, recursion_needed()) {
            Err(e) => Err(e),
            Ok(file) => Ok(
                StartedView::Begin(
                    begun(
                        policy,
                        setup_of(ChangeKind::Delete, flags),
                        for_views(file, count),
                    ),
                ),
            ),
        },
    }
}

/// How deleting a key or a value goes on.
pub fn start_delete(
    policy: &Policy,
    flags: Flags,
    count: usize,
    key: &str,
    value: Option<&str>,
    recursive: bool,
) -> (r: Result<Started, ExitError>)
    ensures
        started_result(r) == delete_start(
            policy@,
            flags,
            count as nat,
            key@,
            opt_str(value),
            recursive,
        ),
{
    let path = match parse_key(key) {
        Ok(p) => p,
        Err(e) => {
            return Err(e);
        },
    };
    match live_delete_file(path, value, recursive) {
        Ok(file) => {
            let files = repeat_file(file, count);
            Ok(Started::Begin(begin_change(policy, ChangeKind::Delete, flags, files)))
        },
        Err(e) => Err(e),
    }
}

/// What was prepared for one view.
pub open spec fn copy_view(r: Result<CopyStart, ExitError>) -> Result<CopyStartView, ErrorView> {
    match r {
        Ok(s) => Ok(s@),
        Err(e) => Err(e@),
    }
}

/// How copying goes on in several views from the `i`th on: each is prepared and
/// held against the policy before the next, and the first that stops or fails
/// ends the run.
pub open spec fn copies_start(
    policy: PolicyView,
    kind: ChangeKind,
    flags: Flags,
    prepared: Seq<Result<CopyStartView, ErrorView>>,
    done: Seq<FileView>,
    i: int,
) -> Result<StartedView, ErrorView>
    decreases prepared.len() - i,
{
    if i >= prepared.len() {
        Ok(StartedView::Begin(begun(policy, setup_of(kind, flags), done)))
    } else {
        match prepared[i] {
            Err(e) => Err(e),
            Ok(CopyStartView::Stop(exit)) => Ok(StartedView::Stop(exit)),
            Ok(CopyStartView::Go(files)) => match crate::mutation::denial(
                policy,
                files.combined.keys,
                0,
            ) {
                Err(e) => Err(e),
                Ok(_) => copies_start(
                    policy,
                    kind,
                    flags,
                    prepared,
                    done.push(files.combined),
                    i + 1,
                ),
            },
        }
    }
}

/// How copying goes on in several views.
pub fn start_copies(
    policy: &Policy,
    kind: ChangeKind,
    flags: Flags,
    prepared: Vec<Result<CopyStart, ExitError>>,
) -> (r: Result<Started, ExitError>)
    ensures
        started_result(r) == copies_start(
            policy@,
            kind,
            flags,
            prepared@.map_values(|p: Result<CopyStart, ExitError>| copy_view(p)),
            Seq::empty(),
            0,
        ),
{
    broadcast use views_push;

    let ghost all = prepared@.map_values(|p: Result<CopyStart, ExitError>| copy_view(p));
    let count = prepared.len();
    let mut rest = prepared;
    let mut files: Vec<RegFile> = Vec::new();
    assert(views(files@) =~= Seq::<FileView>::empty());
    let mut i: usize = 0;
    while rest.len() > 0
        invariant
            i + rest@.len() == count,
            count == all.len(),
            rest@ == prepared@.skip(i as int),
            copies_start(policy@, kind, flags, all, Seq::empty(), 0) == copies_start(
                policy@,
                kind,
                flags,
                all,
                views(files@),
                i as int,
            ),
            all == prepared@.map_values(|p: Result<CopyStart, ExitError>| copy_view(p)),
        decreases rest@.len(),
    {
        let first = rest.remove(0);
        assert(first == prepared@[i as int]);
        assert(copy_view(first) == all[i as int]);
        assert(rest@ =~= prepared@.skip(i + 1));
        match first {
            Err(e) => {
                return Err(e);
            },
            Ok(CopyStart::Stop(exit)) => {
                return Ok(Started::Stop(exit));
            },
            Ok(CopyStart::Go(one)) => {
                match enforce_denies(policy, &one.combined) {
                    Ok(_) => {},
                    Err(e) => {
                        return Err(e);
                    },
                }
                let file = one.combined;
                let ghost before = files@;
                files.push(file);
                assert(views(files@) == views(before).push(file@));
                i += 1;
            },
        }
    }
    Ok(Started::Begin(begin_change(policy, kind, flags, files)))
}

// ---------------------------------------------------------------------------
// Offline hives
// ---------------------------------------------------------------------------

/// How setting a value of a hive goes on.
pub fn start_hive_set(
    policy: &Policy,
    flags: Flags,
    subkey: &str,
    value: &str,
    data: RegData,
) -> (r: Started)
    ensures
        r@ == StartedView::Begin(
            begun(
                policy@,
                setup_of(ChangeKind::HiveSet, flags),
                seq![file_of(seq![value_block(offline_path(subkey@), unnamed_or(value@), data@)])],
            ),
        ),
{
    let files = one_file(set_file(hive_path(subkey), value, data));
    Started::Begin(begin_change(policy, ChangeKind::HiveSet, flags, files))
}

/// How deleting from a hive goes on.
pub open spec fn hive_delete_start(
    policy: PolicyView,
    flags: Flags,
    subkey: Seq<char>,
    value: Option<Seq<char>>,
    recursive: bool,
) -> Result<StartedView, ErrorView> {
    match delete_outcome(
        offline_path(subkey),
        value,
        recursive,
        "pass -r to delete a subkey and its children"@,
    ) {
        Err(e) => Err(e),
        Ok(file) => Ok(
            StartedView::Begin(begun(policy, setup_of(ChangeKind::HiveDelete, flags), seq![file])),
        ),
    }
}

/// How deleting from a hive goes on.
pub fn start_hive_delete(
    policy: &Policy,
    flags: Flags,
    subkey: &str,
    value: Option<&str>,
    recursive: bool,
) -> (r: Result<Started, ExitError>)
    ensures
        started_result(r) == hive_delete_start(policy@, flags, subkey@, opt_str(value), recursive),
{
    match hive_delete_file(hive_path(subkey), value, recursive) {
        Ok(file) => Ok(
            Started::Begin(begin_change(policy, ChangeKind::HiveDelete, flags, one_file(file))),
        ),
        Err(e) => Err(e),
    }
}

/// A prepared copy in a hive begins with both of its changes as one.
pub open spec fn hive_copy_begun(
    policy: PolicyView,
    kind: ChangeKind,
    flags: Flags,
    start: Result<CopyStartView, ErrorView>,
) -> Result<StartedView, ErrorView> {
    match start {
        Err(e) => Err(e),
        Ok(CopyStartView::Stop(exit)) => Ok(StartedView::Stop(exit)),
        Ok(CopyStartView::Go(files)) => Ok(
            StartedView::Begin(begun(policy, setup_of(kind, flags), seq![files.combined])),
        ),
    }
}

fn begin_hive_copy(
    policy: &Policy,
    kind: ChangeKind,
    flags: Flags,
    start: Result<CopyStart, ExitError>,
) -> (r: Result<Started, ExitError>)
    ensures
        started_result(r) == hive_copy_begun(policy@, kind, flags, copy_view(start)),
{
    match start {
        Err(e) => Err(e),
        Ok(CopyStart::Stop(exit)) => Ok(Started::Stop(exit)),
        Ok(CopyStart::Go(files)) => Ok(
            Started::Begin(begin_change(policy, kind, flags, one_file(files.combined))),
        ),
    }
}

/// How copying or moving a subtree in a hive goes on.
pub fn start_hive_copy(
    policy: &Policy,
    flags: Flags,
    source: &str,
    dest: &str,
    remove_source: bool,
    overwrite: bool,
    read: Result<Keys, RegistryFailure>,
    present: bool,
) -> (r: Result<Started, ExitError>)
    ensures
        started_result(r) == hive_copy_begun(
            policy@,
            ChangeKind::HiveCopy,
            flags,
            subtree_start(
                offline_path(source@),
                offline_path(dest@),
                Ground::Offline,
                remove_source,
                overwrite,
                read,
                present,
                None,
            ),
        ),
{
    let start = prepare_subtree_copy(
        &hive_path(source),
        &hive_path(dest),
        Ground::Offline,
        remove_source,
        overwrite,
        read,
        present,
        None,
    );
    begin_hive_copy(policy, ChangeKind::HiveCopy, flags, start)
}

/// How copying or moving a value in a hive goes on.
pub fn start_hive_value_copy(
    policy: &Policy,
    flags: Flags,
    c: &ValueCopy,
    dest: &str,
    from: Result<Keys, String>,
    to: Option<Result<Keys, String>>,
) -> (r: Result<Started, ExitError>)
    ensures
        started_result(r) == hive_copy_begun(
            policy@,
            ChangeKind::HiveCopyValue,
            flags,
            hive_value_start(*c, dest@, from, to),
        ),
{
    let start = prepare_hive_value_copy(c, dest, from, to);
    begin_hive_copy(policy, ChangeKind::HiveCopyValue, flags, start)
}

/// What an operation on a hive says where there are no keys and some are needed.
pub open spec fn keys_needed(kind: ChangeKind) -> Option<Seq<char>> {
    if kind == ChangeKind::HiveUndo {
        Some("hive undo snapshot contains no key blocks"@)
    } else if kind == ChangeKind::HiveSync {
        Some("hive sync input contains no key blocks"@)
    } else {
        None
    }
}

/// Which conflicts an operation on a hive allows: undoing a change refuses none.
pub open spec fn allowance(kind: ChangeKind, allowed: ConflictPolicy) -> ConflictPolicy {
    if kind == ChangeKind::HiveUndo {
        ConflictPolicy::LastWins
    } else {
        allowed
    }
}

/// How importing into, synchronizing or undoing a change of a hive goes on with
/// the blocks that were brought together.
pub open spec fn hive_file_start(
    policy: PolicyView,
    kind: ChangeKind,
    flags: Flags,
    operation: Seq<char>,
    keys: Seq<BlockView>,
    conflicts: nat,
    allowed: ConflictPolicy,
) -> Result<StartedView, ErrorView> {
    match conflicts_end(conflicts, allowance(kind, allowed), operation, Stage::Coalesced) {
        Err(e) => Err(e),
        Ok(_) => if keys.len() == 0 && keys_needed(kind) is Some {
            Err(crate::exit::usage_error(keys_needed(kind)->0))
        } else {
            Ok(StartedView::Begin(begun(policy, setup_of(kind, flags), seq![file_of(keys)])))
        },
    }
}

/// How importing into, synchronizing or undoing a change of a hive goes on.
pub fn start_hive_file(
    policy: &Policy,
    kind: ChangeKind,
    flags: Flags,
    operation: &str,
    keys: Vec<KeyBlock>,
    conflicts: usize,
    allowed: ConflictPolicy,
) -> (r: Result<Started, ExitError>)
    ensures
        started_result(r) == hive_file_start(
            policy@,
            kind,
            flags,
            operation@,
            views(keys@),
            conflicts as nat,
            allowed,
        ),
{
    let needed = match kind {
        ChangeKind::HiveUndo => Some("hive undo snapshot contains no key blocks"),
        ChangeKind::HiveSync => Some("hive sync input contains no key blocks"),
        _ => None,
    };
    let allowed = match kind {
        ChangeKind::HiveUndo => ConflictPolicy::LastWins,
        _ => allowed,
    };
    assert(views(keys@).len() == keys@.len());
    match coalesced_file(keys, conflicts, allowed, operation, needed) {
        Ok(file) => Ok(Started::Begin(begin_change(policy, kind, flags, one_file(file)))),
        Err(e) => Err(e),
    }
}

// ---------------------------------------------------------------------------
// Laws
// ---------------------------------------------------------------------------

/// Where copying begins in several views, every one of them was prepared, and
/// none is denied.
pub proof fn copies_begin_undenied(
    policy: PolicyView,
    kind: ChangeKind,
    flags: Flags,
    prepared: Seq<Result<CopyStartView, ErrorView>>,
    done: Seq<FileView>,
    i: int,
    k: int,
)
    requires
        0 <= i <= k < prepared.len(),
        copies_start(policy, kind, flags, prepared, done, i) matches Ok(StartedView::Begin(_)),
    ensures
        prepared[k] matches Ok(CopyStartView::Go(files)) && crate::mutation::denial(
            policy,
            files.combined.keys,
            0,
        ) is Ok,
    decreases prepared.len() - i,
{
    if i < k {
        match prepared[i] {
            Ok(CopyStartView::Go(files)) => {
                copies_begin_undenied(
                    policy,
                    kind,
                    flags,
                    prepared,
                    done.push(files.combined),
                    i + 1,
                    k,
                );
            },
            _ => {},
        }
    }
}

} // verus!
