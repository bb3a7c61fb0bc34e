//! What commands do between reading and changing: from what was read to the
//! changes that are to be made, or to the end of the run.
use vstd::prelude::*;

use crate::exit::{
    failed, failure_exit, plain_error, reg_exit, usage, usage_error, ErrorView, Exit, ExitError,
    InputError, RegistryFailure,
};
use crate::guard::{all_pass, Place};
use crate::input::{
    conflicts_end, conflicts_text, losses_text, require_allowed_conflicts,
    require_coalesce_conflicts, ConflictPolicy, ReadOutcome, Stage,
};
use crate::model::{
    copy_blocks, name_text, path_text, BlockView, FileView, KeyBlock, PathView, RegFile, RegPath,
    ValueName,
};
use crate::mutation::{
    check_copy, check_value_copy, collides, collision, copy_barred, copy_subtree, copy_value,
    enforce_denies, file_of, find_value, make_file, subtree_files, value_copy_barred, value_files,
    value_in, CopyFiles, CopyFilesView, Ground,
};
use crate::paths::{
    all_rebased, offline_path, rebase_subtree, spelled_within, subtrees_move_there_and_back,
};
use crate::policy::{Policy, PolicyView};
use crate::search::{find, Field, Filters, Match, Matcher, SearchView, ValueFilters};
use crate::source::cut_matches;
use crate::text::{concat, concat3, opt_str, views, views_concat};

verus! {

/// What reading keys gave.
#[derive(Debug)]
pub struct Keys {
    pub blocks: Vec<KeyBlock>,
    /// The number of subkeys that could not be read.
    pub skipped: usize,
}

// ---------------------------------------------------------------------------
// Copying and moving subtrees
// ---------------------------------------------------------------------------

/// How copying goes on: it ends, or these changes are to be made.
#[derive(Debug)]
pub enum CopyStart {
    Stop(Exit),
    Go(CopyFiles),
}

/// What a `CopyStart` stands for.
pub enum CopyStartView {
    Stop(Exit),
    Go(CopyFilesView),
}

impl View for CopyStart {
    type V = CopyStartView;

    open spec fn view(&self) -> CopyStartView {
        match self {
            CopyStart::Stop(e) => CopyStartView::Stop(*e),
            CopyStart::Go(f) => CopyStartView::Go(f@),
        }
    }
}

/// How copying goes on, or the error it ends with.
pub open spec fn start_result(r: Result<CopyStart, ExitError>) -> Result<CopyStartView, ErrorView> {
    match r {
        Ok(s) => Ok(s@),
        Err(e) => Err(e@),
    }
}

/// Where a destination was found: in an offline hive, in the one view that was
/// asked for, or in one of several.
pub open spec fn present_text(ground: Ground, dest: PathView, view: Option<Seq<char>>) -> Seq<char> {
    if ground == Ground::Offline {
        "destination "@ + dest.sub + " exists; pass --overwrite to merge into it"@
    } else {
        match view {
            Some(label) => "destination "@ + path_text(dest) + " already exists in view "@ + label
                + "; pass --overwrite to merge into it"@,
            None => "destination "@ + path_text(dest)
                + " already exists; pass --overwrite to merge into it"@,
        }
    }
}

/// The message for a destination that is there.
pub fn present_message(ground: Ground, dest: &RegPath, view: Option<&str>) -> (r: String)
    ensures
        r@ == present_text(ground, dest@, opt_str(view)),
{
    if ground == Ground::Offline {
        return concat3(
            "destination ",
            dest.sub.as_str(),
            " exists; pass --overwrite to merge into it",
        );
    }
    match view {
        Some(label) => {
            let mut out = concat3(
                "destination ",
                dest.to_string().as_str(),
                " already exists in view ",
            );
            out.append(label);
            out.append("; pass --overwrite to merge into it");
            out
        },
        None => concat3(
            "destination ",
            dest.to_string().as_str(),
            " already exists; pass --overwrite to merge into it",
        ),
    }
}

/// How copying or moving a subtree goes on in one view: the request has to make
/// sense, the source has to be read in full, and what is at the destination is
/// only merged into where that was asked for.
pub open spec fn subtree_start(
    source: PathView,
    dest: PathView,
    ground: Ground,
    remove_source: bool,
    overwrite: bool,
    read: Result<Keys, RegistryFailure>,
    present: bool,
    view: Option<Seq<char>>,
) -> Result<CopyStartView, ErrorView> {
    match copy_barred(source, dest, ground, remove_source) {
        Err(e) => Err(e),
        Ok(_) => match read {
            Err(f) => Ok(CopyStartView::Stop(failure_exit(f))),
            Ok(keys) => if keys.skipped > 0 {
                Ok(CopyStartView::Stop(Exit::Partial))
            } else if present && !overwrite {
                Err(usage_error(present_text(ground, dest, view)))
            } else {
                match subtree_files(views(keys.blocks@), source, dest, remove_source) {
                    Ok(files) => Ok(CopyStartView::Go(files)),
                    Err(e) => Err(plain_error(e)),
                }
            },
        },
    }
}

/// How copying or moving a subtree goes on in one view.
pub fn prepare_subtree_copy(
    source: &RegPath,
    dest: &RegPath,
    ground: Ground,
    remove_source: bool,
    overwrite: bool,
    read: Result<Keys, RegistryFailure>,
    present: bool,
    view: Option<&str>,
) -> (r: Result<CopyStart, ExitError>)
    ensures
        start_result(r) == subtree_start(
            source@,
            dest@,
            ground,
            remove_source,
            overwrite,
            read,
            present,
            opt_str(view),
        ),
{
    match check_copy(source, dest, ground, remove_source) {
        Ok(_) => {},
        Err(e) => {
            return Err(e);
        },
    }
    let keys = match read {
        Ok(k) => k,
        Err(f) => {
            return Ok(CopyStart::Stop(reg_exit(f)));
        },
    };
    if keys.skipped > 0 {
        return Ok(CopyStart::Stop(Exit::Partial));
    }
    if present && !overwrite {
        return Err(usage(present_message(ground, dest, view)));
    }
    match copy_subtree(keys.blocks, source, dest, remove_source) {
        Ok(files) => Ok(CopyStart::Go(files)),
        Err(e) => Err(e),
    }
}

// ---------------------------------------------------------------------------
// Copying and moving values
// ---------------------------------------------------------------------------

/// The words for a value that is at the destination. In an offline hive the key
/// is named as it was given.
pub open spec fn value_present_text(
    dest: Seq<char>,
    name: Option<Seq<char>>,
    view: Option<Seq<char>>,
) -> Seq<char> {
    match view {
        Some(label) => "destination value "@ + dest + "\\"@ + name_text(name)
            + " already exists in view "@ + label + "; pass --overwrite to replace it"@,
        None => "destination value "@ + dest + "\\"@ + name_text(name)
            + " exists; pass --overwrite"@,
    }
}

fn value_present_message(dest: &str, name: &ValueName, view: Option<&str>) -> (r: String)
    ensures
        r@ == value_present_text(dest@, name@, opt_str(view)),
{
    let mut out = concat3("destination value ", dest, "\\");
    out.append(name.to_string().as_str());
    match view {
        Some(label) => {
            out.append(" already exists in view ");
            out.append(label);
            out.append("; pass --overwrite to replace it");
        },
        None => {
            out.append(" exists; pass --overwrite");
        },
    }
    out
}

/// A value that is copied or moved, and where to.
#[derive(Debug)]
pub struct ValueCopy {
    pub source: RegPath,
    pub source_name: ValueName,
    pub dest: RegPath,
    pub dest_name: ValueName,
    pub remove_source: bool,
    pub overwrite: bool,
    /// The source is on another computer.
    pub remote: bool,
}

/// How copying or moving a value goes on in one view: both keys have to be read
/// in full, the value has to be there, and one at the destination is only
/// replaced where that was asked for.
pub open spec fn value_start(
    c: ValueCopy,
    shown: Seq<char>,
    from: Result<Keys, RegistryFailure>,
    to: Option<Result<Keys, String>>,
    view: Option<Seq<char>>,
) -> Result<CopyStartView, ErrorView> {
    match value_copy_barred(c.source@, c.source_name@, c.dest@, c.dest_name@, c.remote) {
        Err(e) => Err(e),
        Ok(_) => match from {
            Err(f) => Ok(CopyStartView::Stop(failure_exit(f))),
            Ok(keys) => if keys.skipped > 0 {
                Ok(CopyStartView::Stop(Exit::Partial))
            } else {
                match value_in(views(keys.blocks@), c.source_name@) {
                    None => Ok(CopyStartView::Stop(Exit::NotFound)),
                    Some(entry) => if to is Some && to->0 is Err {
                        Err(plain_error((to->0)->Err_0@))
                    } else if to matches Some(Ok(there)) && there.skipped > 0 {
                        Ok(CopyStartView::Stop(Exit::Partial))
                    } else if to matches Some(Ok(there)) && collision(
                        views(there.blocks@),
                        c.dest_name@,
                        c.overwrite,
                    ) {
                        Err(usage_error(value_present_text(shown, c.dest_name@, view)))
                    } else {
                        Ok(
                            CopyStartView::Go(
                                value_files(
                                    c.source@,
                                    c.source_name@,
                                    entry,
                                    c.dest@,
                                    c.dest_name@,
                                    c.remove_source,
                                ),
                            ),
                        )
                    },
                }
            },
        },
    }
}

/// How copying or moving a value goes on in one view. `to` is what was read of
/// the destination where it is there, or why it could not be; `shown` is how it
/// is named in messages.
pub fn prepare_value_copy(
    c: &ValueCopy,
    shown: &str,
    from: Result<Keys, RegistryFailure>,
    to: Option<Result<Keys, String>>,
    view: Option<&str>,
) -> (r: Result<CopyStart, ExitError>)
    ensures
        start_result(r) == value_start(*c, shown@, from, to, opt_str(view)),
{
    match check_value_copy(&c.source, &c.source_name, &c.dest, &c.dest_name, c.remote) {
        Ok(_) => {},
        Err(e) => {
            return Err(e);
        },
    }
    let keys = match from {
        Ok(k) => k,
        Err(f) => {
            return Ok(CopyStart::Stop(reg_exit(f)));
        },
    };
    if keys.skipped > 0 {
        return Ok(CopyStart::Stop(Exit::Partial));
    }
    let entry = match find_value(keys.blocks.as_slice(), &c.source_name) {
        Some(e) => e,
        None => {
            return Ok(CopyStart::Stop(Exit::NotFound));
        },
    };
    if let Some(Err(e)) = to {
        return Err(failed(e));
    }
    if let Some(Ok(there)) = &to {
        if there.skipped > 0 {
            return Ok(CopyStart::Stop(Exit::Partial));
        }
        if collides(there.blocks.as_slice(), &c.dest_name, c.overwrite) {
            return Err(usage(value_present_message(shown, &c.dest_name, view)));
        }
    }
    Ok(
        CopyStart::Go(
            copy_value(
                &c.source,
                &c.source_name,
                &entry,
                &c.dest,
                &c.dest_name,
                c.remove_source,
            ),
        ),
    )
}

/// How copying or moving a value in a hive goes on: as in a view, but a source
/// that cannot be read is an error, whatever kept it from being read.
pub open spec fn hive_value_start(
    c: ValueCopy,
    shown: Seq<char>,
    from: Result<Keys, String>,
    to: Option<Result<Keys, String>>,
) -> Result<CopyStartView, ErrorView> {
    match value_copy_barred(c.source@, c.source_name@, c.dest@, c.dest_name@, false) {
        Err(e) => Err(e),
        Ok(_) => match from {
            Err(e) => Err(plain_error(e@)),
            Ok(keys) => value_start(c, shown, Ok(keys), to, None),
        },
    }
}

/// How copying or moving a value in a hive goes on. `from` and `to` are what was
/// read of the source, and of the destination where it is there.
pub fn prepare_hive_value_copy(
    c: &ValueCopy,
    shown: &str,
    from: Result<Keys, String>,
    to: Option<Result<Keys, String>>,
) -> (r: Result<CopyStart, ExitError>)
    ensures
        start_result(r) == hive_value_start(*c, shown@, from, to),
{
    match check_value_copy(&c.source, &c.source_name, &c.dest, &c.dest_name, false) {
        Ok(_) => {},
        Err(e) => {
            return Err(e);
        },
    }
    match from {
        Ok(keys) => prepare_value_copy(c, shown, Ok(keys), to, None),
        Err(e) => Err(failed(e)),
    }
}

// ---------------------------------------------------------------------------
// Restoring
// ---------------------------------------------------------------------------

/// How a command goes on: it ends, or this file is to be applied.
#[derive(Debug)]
pub enum FileStart {
    Stop(Exit),
    Go(RegFile),
}

/// What a `FileStart` stands for.
pub enum FileStartView {
    Stop(Exit),
    Go(FileView),
}

impl View for FileStart {
    type V = FileStartView;

    open spec fn view(&self) -> FileStartView {
        match self {
            FileStart::Stop(e) => FileStartView::Stop(*e),
            FileStart::Go(f) => FileStartView::Go(f@),
        }
    }
}

/// How a command goes on, or the error it ends with.
pub open spec fn file_result(r: Result<FileStart, ExitError>) -> Result<FileStartView, ErrorView> {
    match r {
        Ok(s) => Ok(s@),
        Err(e) => Err(e@),
    }
}

/// How restoring a backup goes on in one view: nothing is merged into unasked,
/// and only a backup that was read in full is restored.
pub open spec fn restore_start(
    dest: PathView,
    overwrite: bool,
    present: bool,
    view: Option<Seq<char>>,
    backup: Keys,
) -> Result<FileStartView, ErrorView> {
    if present && !overwrite {
        Err(plain_error(present_text(Ground::Live, dest, view)))
    } else if backup.skipped > 0 {
        Ok(FileStartView::Stop(Exit::Partial))
    } else {
        match all_rebased(views(backup.blocks@), offline_path(Seq::empty()), dest) {
            Ok(keys) => Ok(FileStartView::Go(file_of(keys))),
            Err(e) => Err(plain_error(e)),
        }
    }
}

/// How restoring a backup goes on in one view.
pub fn prepare_restore(
    dest: &RegPath,
    overwrite: bool,
    present: bool,
    view: Option<&str>,
    backup: Keys,
) -> (r: Result<FileStart, ExitError>)
    ensures
        file_result(r) == restore_start(dest@, overwrite, present, opt_str(view), backup),
{
    if present && !overwrite {
        return Err(failed(present_message(Ground::Live, dest, view)));
    }
    if backup.skipped > 0 {
        return Ok(FileStart::Stop(Exit::Partial));
    }
    let root = crate::paths::hive_path("");
    proof {
        reveal_strlit("");
        assert(""@ =~= Seq::<char>::empty());
    }
    match rebase_subtree(backup.blocks.as_slice(), &root, dest) {
        Ok(keys) => Ok(FileStart::Go(make_file(keys))),
        Err(e) => Err(failed(e)),
    }
}

/// How backing up a key goes on in one view: no backup is written over a file,
/// and only what was read in full is backed up, rooted at the top of the backup.
pub open spec fn backup_start(
    source: PathView,
    output: Seq<char>,
    taken: bool,
    read: Result<Keys, RegistryFailure>,
) -> Result<FileStartView, ErrorView> {
    if taken {
        Err(plain_error(output + " already exists; refusing to overwrite a backup"@))
    } else {
        match read {
            Err(f) => Ok(FileStartView::Stop(failure_exit(f))),
            Ok(keys) => if keys.skipped > 0 {
                Ok(FileStartView::Stop(Exit::Partial))
            } else {
                match all_rebased(views(keys.blocks@), source, offline_path(Seq::empty())) {
                    Ok(out) => Ok(FileStartView::Go(file_of(out))),
                    Err(e) => Err(plain_error(e)),
                }
            },
        }
    }
}

/// How backing up a key goes on in one view. `taken` tells whether the output
/// exists.
pub fn prepare_backup(
    source: &RegPath,
    output: &str,
    taken: bool,
    read: Result<Keys, RegistryFailure>,
) -> (r: Result<FileStart, ExitError>)
    ensures
        file_result(r) == backup_start(source@, output@, taken, read),
{
    if taken {
        return Err(failed(concat(output, " already exists; refusing to overwrite a backup")));
    }
    let keys = match read {
        Ok(k) => k,
        Err(f) => {
            return Ok(FileStart::Stop(reg_exit(f)));
        },
    };
    if keys.skipped > 0 {
        return Ok(FileStart::Stop(Exit::Partial));
    }
    let root = crate::paths::hive_path("");
    proof {
        reveal_strlit("");
        assert(""@ =~= Seq::<char>::empty());
    }
    match rebase_subtree(keys.blocks.as_slice(), source, &root) {
        Ok(out) => Ok(FileStart::Go(make_file(out))),
        Err(e) => Err(failed(e)),
    }
}

// ---------------------------------------------------------------------------
// Inputs
// ---------------------------------------------------------------------------

/// An input with its name.
#[derive(Debug)]
pub struct NamedInput {
    pub label: String,
    pub outcome: ReadOutcome,
}

/// The first input from `i` on that an operation cannot use, and why.
pub open spec fn unusable(
    inputs: Seq<NamedInput>,
    policy: ConflictPolicy,
    operation: Seq<char>,
    i: int,
) -> Option<(Seq<char>, Seq<char>)>
    decreases inputs.len() - i,
{
    if i >= inputs.len() {
        None
    } else {
        let o = inputs[i].outcome;
        if o.losses@.len() != 0 {
            Some((inputs[i].label@, losses_text(operation, views(o.losses@))))
        } else if policy == ConflictPolicy::Error && o.conflicts@.len() != 0 {
            Some((inputs[i].label@, conflicts_text(operation, o.conflicts@)))
        } else {
            unusable(inputs, policy, operation, i + 1)
        }
    }
}

/// The keys of inputs from `i` on, behind those already taken.
pub open spec fn input_keys(inputs: Seq<NamedInput>, n: int) -> Seq<BlockView>
    decreases n,
{
    if n <= 0 {
        Seq::empty()
    } else {
        input_keys(inputs, n - 1) + views(inputs[n - 1].outcome.file.keys@)
    }
}

/// The keys of several inputs, one input after the other. An operation that
/// changes something takes only inputs that it can take exactly.
pub fn gather_inputs(
    inputs: Vec<NamedInput>,
    policy: ConflictPolicy,
    operation: &str,
) -> (r: Result<Vec<KeyBlock>, InputError>)
    ensures
        match (r, unusable(inputs@, policy, operation@, 0)) {
            (Ok(keys), None) => views(keys@) == input_keys(inputs@, inputs@.len() as int),
            (Err(e), Some((label, message))) => e.source@ == label && e.message@ == message
                && e.code == Exit::Parse,
            _ => false,
        },
{
    let mut out: Vec<KeyBlock> = Vec::new();
    assert(views(out@) =~= Seq::<BlockView>::empty());
    for i in 0..inputs.len()
        invariant
            unusable(inputs@, policy, operation@, 0) == unusable(
                inputs@,
                policy,
                operation@,
                i as int,
            ),
            views(out@) == input_keys(inputs@, i as int),
    {
        let input = &inputs[i];
        if input.outcome.losses.len() != 0 {
            let mut message = concat(
                operation,
                " requires an exact registry-data model, but the input contains:\n  ",
            );
            message.append(crate::text::join(input.outcome.losses.as_slice(), "\n  ").as_str());
            return Err(InputError { source: input.label.clone(), message, code: Exit::Parse });
        }
        match require_allowed_conflicts(&input.outcome, input.label.as_str(), policy, operation) {
            Ok(_) => {},
            Err(e) => {
                return Err(e);
            },
        }
        let mut more = copy_blocks(input.outcome.file.keys.as_slice());
        proof {
            views_concat(out@, more@);
        }
        out.append(&mut more);
    }
    Ok(out)
}

/// The file of blocks that were brought together, unless they conflict, or are
/// none where some are needed.
pub fn coalesced_file(
    keys: Vec<KeyBlock>,
    conflicts: usize,
    policy: ConflictPolicy,
    operation: &str,
    needed: Option<&str>,
) -> (r: Result<RegFile, ExitError>)
    ensures
        match r {
            Ok(f) => conflicts_end(conflicts as nat, policy, operation@, Stage::Coalesced) is Ok
                && (keys@.len() != 0 || needed is None) && f@ == file_of(views(keys@)),
            Err(e) => match conflicts_end(conflicts as nat, policy, operation@, Stage::Coalesced) {
                Err(c) => e@ == c,
                Ok(_) => keys@.len() == 0 && (needed matches Some(m) && e@ == usage_error(m@)),
            },
        },
{
    match require_coalesce_conflicts(conflicts, policy, operation, Stage::Coalesced) {
        Ok(_) => {},
        Err(e) => {
            return Err(e);
        },
    }
    if keys.len() == 0 {
        if let Some(m) = needed {
            return Err(usage(m.to_owned()));
        }
    }
    Ok(make_file(keys))
}

// ---------------------------------------------------------------------------
// Batches
// ---------------------------------------------------------------------------

/// What redirecting the operations of a batch gave.
#[derive(Clone, Copy, Debug, PartialEq, Eq, Structural)]
pub struct BatchRedirects {
    pub skipped: usize,
    pub refused: usize,
    pub conflicts: usize,
    /// A refusal keeps the batch from starting.
    pub fail_on_refuse: bool,
}

/// The keys of the operations of a batch, one after the other.
pub open spec fn batch_keys(files: Seq<FileView>) -> Seq<BlockView>
    decreases files.len(),
{
    if files.len() == 0 {
        Seq::empty()
    } else {
        batch_keys(files.drop_last()) + files.last().keys
    }
}

/// How a batch goes on. Every operation is held against the policy before
/// anything else; then conflicts, refusals and emptiness end it.
pub open spec fn batch_start(
    policy: PolicyView,
    files: Seq<FileView>,
    redirects: BatchRedirects,
    conflicts: ConflictPolicy,
) -> Result<FileStartView, ErrorView> {
    match all_pass(policy, Place::Live, files, 0) {
        Err(e) => Err(e),
        Ok(_) => match conflicts_end(
            redirects.conflicts as nat,
            conflicts,
            "batch"@,
            Stage::Batch,
        ) {
            Err(e) => Err(e),
            Ok(_) => if redirects.refused > 0 && redirects.fail_on_refuse {
                Ok(FileStartView::Stop(Exit::RedirectRefused))
            } else if batch_keys(files).len() == 0 {
                Ok(
                    FileStartView::Stop(
                        if redirects.refused > 0 {
                            Exit::RedirectRefused
                        } else if redirects.skipped > 0 {
                            Exit::Partial
                        } else {
                            Exit::Success
                        },
                    ),
                )
            } else {
                Ok(FileStartView::Go(file_of(batch_keys(files))))
            },
        },
    }
}

/// How a batch goes on: the file to keep a snapshot for, or the end.
pub fn prepare_batch(
    policy: &Policy,
    files: &Vec<RegFile>,
    redirects: BatchRedirects,
    conflicts: ConflictPolicy,
) -> (r: Result<FileStart, ExitError>)
    ensures
        file_result(r) == batch_start(policy@, views(files@), redirects, conflicts),
{
    let ghost all = views(files@);
    let mut keys: Vec<KeyBlock> = Vec::new();
    assert(views(keys@) =~= Seq::<BlockView>::empty());
    assert(all.take(0) =~= Seq::<FileView>::empty());
    for i in 0..files.len()
        invariant
            all == views(files@),
            all_pass(policy@, Place::Live, all, 0) == all_pass(policy@, Place::Live, all, i as int),
            views(keys@) == batch_keys(all.take(i as int)),
    {
        assert(all[i as int] == files@[i as int]@);
        assert(all.take(i + 1).drop_last() =~= all.take(i as int));
        match enforce_denies(policy, &files[i]) {
            Ok(_) => {},
            Err(e) => {
                return Err(e);
            },
        }
        let mut more = copy_blocks(files[i].keys.as_slice());
        proof {
            views_concat(keys@, more@);
        }
        keys.append(&mut more);
    }
    assert(all.take(all.len() as int) =~= all);
    match require_coalesce_conflicts(redirects.conflicts, conflicts, "batch", Stage::Batch) {
        Ok(_) => {},
        Err(e) => {
            return Err(e);
        },
    }
    if redirects.refused > 0 && redirects.fail_on_refuse {
        return Ok(FileStart::Stop(Exit::RedirectRefused));
    }
    assert(views(keys@).len() == keys@.len());
    if keys.len() == 0 {
        return Ok(
            FileStart::Stop(
                if redirects.refused > 0 {
                    Exit::RedirectRefused
                } else if redirects.skipped > 0 {
                    Exit::Partial
                } else {
                    Exit::Success
                },
            ),
        );
    }
    Ok(FileStart::Go(make_file(keys)))
}

// ---------------------------------------------------------------------------
// Searches
// ---------------------------------------------------------------------------

/// Searches keys for at most `limit` matches, and tells whether there are more.
pub fn search_keys(
    keys: &Vec<KeyBlock>,
    query: &Matcher,
    fields: &[Field],
    filters: &Filters,
    value_filters: &ValueFilters,
    limit: usize,
) -> (r: (Vec<Match>, bool))
    requires
        limit < usize::MAX,
    ensures
        ({
            let all = (SearchView {
                query: query@,
                fields: fields@,
                filters: filters@,
                value_filters: value_filters@,
            }).hits(views(keys@), limit as nat + 1);
            &&& r.1 == (all.len() > limit)
            &&& views(r.0@) == if all.len() > limit {
                all.take(limit as int)
            } else {
                all
            }
        }),
{
    let found = find(
        keys.as_slice(),
        query,
        fields,
        filters,
        value_filters,
        limit + 1,
    );
    let ghost all = views(found@);
    let r = cut_matches(found, limit);
    proof {
        assert(all.len() == found@.len());
        if all.len() > limit {
            assert(views(r.0@) =~= all.take(limit as int));
        }
    }
    r
}

// ---------------------------------------------------------------------------
// Laws
// ---------------------------------------------------------------------------

/// Whatever is copied, moved or restored was read in full.
pub proof fn only_whole_sources_are_copied(
    source: PathView,
    dest: PathView,
    ground: Ground,
    remove_source: bool,
    overwrite: bool,
    read: Result<Keys, RegistryFailure>,
    present: bool,
    view: Option<Seq<char>>,
)
    requires
        subtree_start(
            source,
            dest,
            ground,
            remove_source,
            overwrite,
            read,
            present,
            view,
        ) matches Ok(CopyStartView::Go(_)),
    ensures
        read matches Ok(keys) && keys.skipped == 0,
        present ==> overwrite,
{
}

/// Gathering loses no key: every block of every input is there.
pub proof fn gathering_keeps_every_key(inputs: Seq<NamedInput>, n: int, i: int, k: int)
    requires
        0 <= i < n <= inputs.len(),
        0 <= k < inputs[i].outcome.file.keys@.len(),
    ensures
        input_keys(inputs, n).contains(inputs[i].outcome.file.keys@[k]@),
    decreases n,
{
    let front = input_keys(inputs, n - 1);
    let back = views(inputs[n - 1].outcome.file.keys@);
    if i == n - 1 {
        assert(back[k] == inputs[i].outcome.file.keys@[k]@);
        assert(input_keys(inputs, n)[front.len() + k] == back[k]);
    } else {
        gathering_keeps_every_key(inputs, n - 1, i, k);
        let j = choose|j: int|
            0 <= j < front.len() && front[j] == inputs[i].outcome.file.keys@[k]@;
        assert(input_keys(inputs, n)[j] == front[j]);
    }
}

/// What is backed up is restored where it was: restoring to its source a backup
/// that is read as it was written gives exactly the keys that were backed up, for
/// keys at or below the source as it is spelled.
pub proof fn backups_restore_in_place(
    source: PathView,
    output: Seq<char>,
    read: Keys,
    backup: Keys,
    file: FileView,
)
    requires
        forall|i: int|
            0 <= i < read.blocks@.len() ==> spelled_within(
                (#[trigger] read.blocks@[i])@.path,
                source,
            ),
        backup_start(source, output, false, Ok(read)) == Ok::<FileStartView, ErrorView>(
            FileStartView::Go(file),
        ),
        views(backup.blocks@) == file.keys,
        backup.skipped == 0,
    ensures
        restore_start(source, true, true, None, backup) == Ok::<FileStartView, ErrorView>(
            FileStartView::Go(file_of(views(read.blocks@))),
        ),
{
    let keys = views(read.blocks@);
    assert forall|i: int| 0 <= i < keys.len() implies spelled_within(
        (#[trigger] keys[i]).path,
        source,
    ) by {
        assert(keys[i] == read.blocks@[i]@);
    }
    subtrees_move_there_and_back(keys, source, offline_path(Seq::empty()));
}

/// Where a batch goes on, no operation of it is denied.
pub proof fn batches_hold_no_denied_operation(
    policy: PolicyView,
    files: Seq<FileView>,
    redirects: BatchRedirects,
    conflicts: ConflictPolicy,
)
    requires
        batch_start(policy, files, redirects, conflicts) matches Ok(FileStartView::Go(_)),
    ensures
        all_pass(policy, Place::Live, files, 0) is Ok,
{
}

} // verus!
