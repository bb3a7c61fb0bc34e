//! Changes to the registry: what they consist of, and what stands against them.
use vstd::prelude::*;

use crate::encoding::SourceEncoding;
use crate::exit::{
    access_denied, denied_error, done_result, failed, usage, usage_error, ErrorView, Exit,
    ExitError,
};
use crate::model::{
    copy_blocks, path_named, path_text, same_key, same_name, value_name_matches, BlockView,
    DataView, EntryView, FileView, KeyBlock, PathView, RegData, RegFile, RegFormat, RegPath,
    ValueEntry, ValueName,
};
use crate::paths::{all_rebased, lies_below, path_is_within, rebase_subtree};
use crate::policy::{denied_by, sub_denied_by, Policy, PolicyView};
use crate::text::{concat, concat3, debug_text, same_str, to_debug, views, views_push};

verus! {

// ---------------------------------------------------------------------------
// Files
// ---------------------------------------------------------------------------

/// A file of keys, in the dialect and encoding that are written.
pub open spec fn file_of(keys: Seq<BlockView>) -> FileView {
    FileView { format: RegFormat::V5, encoding: SourceEncoding::Utf16Le, keys }
}

/// A file of keys.
pub fn make_file(keys: Vec<KeyBlock>) -> (r: RegFile)
    ensures
        r@ == file_of(views(keys@)),
{
    RegFile { format: RegFormat::V5, encoding: SourceEncoding::Utf16Le, keys }
}

/// A file without keys.
pub fn empty_file() -> (r: RegFile)
    ensures
        r@ == file_of(Seq::empty()),
{
    let keys: Vec<KeyBlock> = Vec::new();
    assert(views(keys@) =~= Seq::<BlockView>::empty());
    make_file(keys)
}

/// A block that sets or deletes one value.
pub open spec fn value_block(path: PathView, name: Option<Seq<char>>, data: DataView) -> BlockView {
    BlockView {
        path,
        delete: false,
        values: seq![EntryView { name, data, line: 0 }],
        line: 0,
    }
}

/// A block that deletes a key.
pub open spec fn key_deletion(path: PathView) -> BlockView {
    BlockView { path, delete: true, values: Seq::empty(), line: 0 }
}

fn make_value_block(path: RegPath, name: ValueName, data: RegData) -> (r: KeyBlock)
    ensures
        r@ == value_block(path@, name@, data@),
{
    broadcast use views_push;

    let mut values: Vec<ValueEntry> = Vec::new();
    let entry = ValueEntry { name, data, line: 0 };
    values.push(entry);
    assert(views(values@) =~= seq![entry@]);
    KeyBlock { path, delete: false, values, line: 0 }
}

fn make_deletion(path: RegPath) -> (r: KeyBlock)
    ensures
        r@ == key_deletion(path@),
{
    let values: Vec<ValueEntry> = Vec::new();
    assert(views(values@) =~= Seq::<EntryView>::empty());
    KeyBlock { path, delete: true, values, line: 0 }
}

fn one_block(block: KeyBlock) -> (r: RegFile)
    ensures
        r@ == file_of(seq![block@]),
{
    let mut keys: Vec<KeyBlock> = Vec::new();
    keys.push(block);
    assert(views(keys@) =~= seq![block@]);
    make_file(keys)
}

/// The name of a value in a command that takes the empty text for the default
/// value.
pub open spec fn unnamed_or(name: Seq<char>) -> Option<Seq<char>> {
    if name.len() == 0 {
        None
    } else {
        Some(name)
    }
}

fn name_or_default(name: &str) -> (r: ValueName)
    ensures
        r@ == unnamed_or(name@),
{
    if name.is_empty() {
        ValueName::Default
    } else {
        ValueName::Named(name.to_owned())
    }
}

/// The name of a value in a command that takes `@` for the default value.
pub open spec fn at_or(name: Seq<char>) -> Option<Seq<char>> {
    if name == "@"@ {
        None
    } else {
        Some(name)
    }
}

/// The name of a value in a command that takes `@` for the default value.
pub fn cli_value_name(name: &str) -> (r: ValueName)
    ensures
        r@ == at_or(name@),
{
    if same_str(name, "@") {
        ValueName::Default
    } else {
        ValueName::Named(name.to_owned())
    }
}

/// A key that has to be named in full.
pub open spec fn key_or_usage(s: Seq<char>) -> Result<PathView, ErrorView> {
    match path_named(s) {
        Some(p) => Ok(p),
        None => Err(
            usage_error(
                debug_text(s)
                    + " does not start with a known root (HKLM, HKCU, HKCR, HKU, HKCC)"@,
            ),
        ),
    }
}

/// Reads a key that has to be named in full.
pub fn parse_key(s: &str) -> (r: Result<RegPath, ExitError>)
    ensures
        match r {
            Ok(p) => key_or_usage(s@) == Ok::<PathView, ErrorView>(p@),
            Err(e) => key_or_usage(s@) == Err::<PathView, ErrorView>(e@),
        },
{
    match RegPath::parse(s) {
        Some(p) => Ok(p),
        None => Err(
            usage(
                concat(
                    to_debug(s).as_str(),
                    " does not start with a known root (HKLM, HKCU, HKCR, HKU, HKCC)",
                ),
            ),
        ),
    }
}

/// The change that sets one value.
pub fn set_file(path: RegPath, value: &str, data: RegData) -> (r: RegFile)
    ensures
        r@ == file_of(seq![value_block(path@, unnamed_or(value@), data@)]),
{
    one_block(make_value_block(path, name_or_default(value), data))
}

/// The change that deletes a value or a key. A key is only deleted with
/// everything below it, which has to be asked for.
pub open spec fn delete_outcome(
    path: PathView,
    value: Option<Seq<char>>,
    recursive: bool,
    complaint: Seq<char>,
) -> Result<FileView, ErrorView> {
    match value {
        Some(name) => Ok(file_of(seq![value_block(path, unnamed_or(name), DataView::Delete)])),
        None => if recursive {
            Ok(file_of(seq![key_deletion(path)]))
        } else {
            Err(usage_error(complaint))
        },
    }
}

/// The change that deletes a value or a key.
pub fn delete_file(path: RegPath, value: Option<&str>, recursive: bool, complaint: &str) -> (r:
    Result<RegFile, ExitError>)
    ensures
        match r {
            Ok(f) => delete_outcome(path@, crate::text::opt_str(value), recursive, complaint@)
                == Ok::<FileView, ErrorView>(f@),
            Err(e) => delete_outcome(path@, crate::text::opt_str(value), recursive, complaint@)
                == Err::<FileView, ErrorView>(e@),
        },
{
    match value {
        Some(name) => Ok(
            one_block(make_value_block(path, name_or_default(name), RegData::Delete)),
        ),
        None => if recursive {
            Ok(one_block(make_deletion(path)))
        } else {
            Err(usage(complaint.to_owned()))
        },
    }
}

/// The change that deletes a value or a key of the live registry.
pub fn live_delete_file(path: RegPath, value: Option<&str>, recursive: bool) -> (r: Result<
    RegFile,
    ExitError,
>)
    ensures
        ({
            let outcome = delete_outcome(
                path@,
                crate::text::opt_str(value),
                recursive,
                "deleting a key removes its subkeys; pass -r to confirm, or -v NAME for one value"@,
            );
            match r {
                Ok(f) => outcome == Ok::<FileView, ErrorView>(f@),
                Err(e) => outcome == Err::<FileView, ErrorView>(e@),
            }
        }),
{
    delete_file(
        path,
        value,
        recursive,
        "deleting a key removes its subkeys; pass -r to confirm, or -v NAME for one value",
    )
}

/// The change that deletes a value or a key of an offline hive.
pub fn hive_delete_file(path: RegPath, value: Option<&str>, recursive: bool) -> (r: Result<
    RegFile,
    ExitError,
>)
    ensures
        ({
            let outcome = delete_outcome(
                path@,
                crate::text::opt_str(value),
                recursive,
                "pass -r to delete a subkey and its children"@,
            );
            match r {
                Ok(f) => outcome == Ok::<FileView, ErrorView>(f@),
                Err(e) => outcome == Err::<FileView, ErrorView>(e@),
            }
        }),
{
    delete_file(path, value, recursive, "pass -r to delete a subkey and its children")
}

// ---------------------------------------------------------------------------
// Denials
// ---------------------------------------------------------------------------

/// The verdict of the policy on blocks from `i` on: the whole change is refused
/// where one of its keys is denied.
pub open spec fn denial(policy: PolicyView, keys: Seq<BlockView>, i: int) -> Result<(), ErrorView>
    decreases keys.len() - i,
{
    if i >= keys.len() {
        Ok(())
    } else {
        match denied_by(policy.deny_keys, keys[i].path) {
            Some(rule) => Err(
                denied_error(
                    path_text(keys[i].path) + " is denied by administrative policy (rule: "@ + rule
                        + "). Nothing was written."@,
                ),
            ),
            None => denial(policy, keys, i + 1),
        }
    }
}

/// Refuses a change that touches a denied key.
pub fn enforce_denies(policy: &Policy, file: &RegFile) -> (r: Result<(), ExitError>)
    ensures
        done_result(r) == denial(policy@, file@.keys, 0),
{
    let ghost all = file@.keys;
    for i in 0..file.keys.len()
        invariant
            all == views(file.keys@),
            denial(policy@, all, 0) == denial(policy@, all, i as int),
    {
        assert(all[i as int] == file.keys@[i as int]@);
        if let Some(rule) = policy.denies(&file.keys[i].path) {
            let mut message = concat3(
                file.keys[i].path.to_string().as_str(),
                " is denied by administrative policy (rule: ",
                rule,
            );
            message.append("). Nothing was written.");
            return Err(access_denied(message));
        }
    }
    Ok(())
}

/// A change passes the policy exactly where none of its keys is denied.
pub proof fn changes_pass_where_no_key_is_denied(
    policy: PolicyView,
    keys: Seq<BlockView>,
    i: int,
)
    requires
        0 <= i <= keys.len(),
    ensures
        denial(policy, keys, i) is Ok <==> forall|k: int|
            i <= k < keys.len() ==> denied_by(policy.deny_keys, (#[trigger] keys[k]).path) is None,
    decreases keys.len() - i,
{
    if i < keys.len() {
        changes_pass_where_no_key_is_denied(policy, keys, i + 1);
    }
}

/// The verdict on a change to an offline hive: its root is never deleted, and a
/// denied subkey refuses the whole change.
pub open spec fn hive_denial(policy: PolicyView, keys: Seq<BlockView>, i: int) -> Result<
    (),
    ErrorView,
>
    decreases keys.len() - i,
{
    if i >= keys.len() {
        Ok(())
    } else if keys[i].delete && keys[i].path.sub.len() == 0 {
        Err(
            usage_error(
                "refusing to delete the mounted hive root; delete named subkeys instead"@,
            ),
        )
    } else {
        match sub_denied_by(policy.deny_keys, keys[i].path.sub) {
            Some(rule) => Err(
                denied_error(
                    (if keys[i].path.sub.len() == 0 {
                        "the hive root"@
                    } else {
                        keys[i].path.sub
                    }) + " inside this hive is denied by administrative policy (rule: "@ + rule
                        + "). Nothing was written."@,
                ),
            ),
            None => hive_denial(policy, keys, i + 1),
        }
    }
}

/// Refuses a change to an offline hive that deletes its root or touches a denied
/// subkey.
pub fn enforce_hive_denies(policy: &Policy, file: &RegFile) -> (r: Result<(), ExitError>)
    ensures
        done_result(r) == hive_denial(policy@, file@.keys, 0),
{
    let ghost all = file@.keys;
    for i in 0..file.keys.len()
        invariant
            all == views(file.keys@),
            hive_denial(policy@, all, 0) == hive_denial(policy@, all, i as int),
    {
        let block = &file.keys[i];
        assert(all[i as int] == block@);
        if block.delete && block.path.sub.as_str().is_empty() {
            return Err(
                usage(
                    "refusing to delete the mounted hive root; delete named subkeys instead".to_owned(),
                ),
            );
        }
        if let Some(rule) = policy.denies_hive_subkey(block.path.sub.as_str()) {
            let what = if block.path.sub.as_str().is_empty() {
                "the hive root".to_owned()
            } else {
                block.path.sub.clone()
            };
            let mut message = concat3(
                what.as_str(),
                " inside this hive is denied by administrative policy (rule: ",
                rule,
            );
            message.append("). Nothing was written.");
            return Err(access_denied(message));
        }
    }
    Ok(())
}

/// An accepted change never deletes the root of an offline hive.
pub proof fn hive_roots_survive(policy: PolicyView, keys: Seq<BlockView>, i: int)
    requires
        0 <= i <= keys.len(),
        hive_denial(policy, keys, i) is Ok,
    ensures
        forall|k: int|
            i <= k < keys.len() ==> !((#[trigger] keys[k]).delete && keys[k].path.sub.len() == 0)
                && sub_denied_by(policy.deny_keys, keys[k].path.sub) is None,
    decreases keys.len() - i,
{
    if i < keys.len() {
        hive_roots_survive(policy, keys, i + 1);
    }
}

// ---------------------------------------------------------------------------
// Copying and moving subtrees
// ---------------------------------------------------------------------------

/// Where a subtree is copied or moved.
#[derive(Clone, Copy, Debug, PartialEq, Eq, Structural)]
pub enum Ground {
    /// Within the live registry.
    Live,
    /// From another computer into the live registry.
    Remote,
    /// Within an offline hive.
    Offline,
}

/// `copy` or `move`.
pub open spec fn verb_of(remove_source: bool) -> Seq<char> {
    if remove_source {
        "move"@
    } else {
        "copy"@
    }
}

/// `copy` or `move`.
pub fn copy_verb(remove_source: bool) -> (r: &'static str)
    ensures
        r@ == verb_of(remove_source),
{
    if remove_source {
        "move"
    } else {
        "copy"
    }
}

/// A key as it is shown.
pub open spec fn shown_key(ground: Ground, p: PathView) -> Seq<char> {
    if ground == Ground::Offline {
        p.sub
    } else {
        path_text(p)
    }
}

/// What stands against copying or moving a subtree: it would be copied onto or
/// into itself, or a whole hive would be removed.
pub open spec fn copy_barred(
    source: PathView,
    dest: PathView,
    ground: Ground,
    remove_source: bool,
) -> Result<(), ErrorView> {
    if ground != Ground::Remote && same_key(source, dest) {
        Err(
            usage_error(
                if ground == Ground::Offline {
                    "source and destination are the same subkey"@
                } else {
                    "source and destination are the same key"@
                },
            ),
        )
    } else if remove_source && source.sub.len() == 0 {
        Err(
            usage_error(
                if ground == Ground::Offline {
                    "refusing to move or delete the hive root"@
                } else {
                    "refusing to move or delete a predefined hive root"@
                },
            ),
        )
    } else if ground != Ground::Remote && lies_below(dest, source) {
        Err(
            usage_error(
                "destination "@ + shown_key(ground, dest) + " is inside source "@ + shown_key(
                    ground,
                    source,
                ) + "; recursive "@ + verb_of(remove_source) + " would consume its own output"@,
            ),
        )
    } else {
        Ok(())
    }
}

fn show_key(ground: Ground, p: &RegPath) -> (r: String)
    ensures
        r@ == shown_key(ground, p@),
{
    match ground {
        Ground::Offline => p.sub.clone(),
        _ => p.to_string(),
    }
}

/// Whether a subtree may be copied or moved.
pub fn check_copy(source: &RegPath, dest: &RegPath, ground: Ground, remove_source: bool) -> (r:
    Result<(), ExitError>)
    ensures
        done_result(r) == copy_barred(source@, dest@, ground, remove_source),
{
    let offline = ground == Ground::Offline;
    let remote = ground == Ground::Remote;
    if !remote && source.is_same_key(dest) {
        return Err(
            usage(
                if offline {
                    "source and destination are the same subkey".to_owned()
                } else {
                    "source and destination are the same key".to_owned()
                },
            ),
        );
    }
    if remove_source && source.sub.as_str().is_empty() {
        return Err(
            usage(
                if offline {
                    "refusing to move or delete the hive root".to_owned()
                } else {
                    "refusing to move or delete a predefined hive root".to_owned()
                },
            ),
        );
    }
    if !remote && path_is_within(dest, source) {
        let mut message = concat3(
            "destination ",
            show_key(ground, dest).as_str(),
            " is inside source ",
        );
        message.append(show_key(ground, source).as_str());
        message.append("; recursive ");
        message.append(copy_verb(remove_source));
        message.append(" would consume its own output");
        return Err(usage(message));
    }
    Ok(())
}

/// The changes that copy or move something: what is written at the destination,
/// and what is removed at the source.
#[derive(Debug)]
pub struct CopyFiles {
    pub source: RegFile,
    pub copy: RegFile,
    pub delete: RegFile,
    /// Both changes, as one.
    pub combined: RegFile,
}

/// What a `CopyFiles` stands for.
pub struct CopyFilesView {
    pub source: FileView,
    pub copy: FileView,
    pub delete: FileView,
    pub combined: FileView,
}

impl View for CopyFiles {
    type V = CopyFilesView;

    open spec fn view(&self) -> CopyFilesView {
        CopyFilesView {
            source: self.source@,
            copy: self.copy@,
            delete: self.delete@,
            combined: self.combined@,
        }
    }
}

/// The changes, from their blocks.
pub open spec fn copy_files_of(
    source: Seq<BlockView>,
    copy: Seq<BlockView>,
    delete: Seq<BlockView>,
) -> CopyFilesView {
    CopyFilesView {
        source: file_of(source),
        copy: file_of(copy),
        delete: file_of(delete),
        combined: file_of(copy + delete),
    }
}

fn make_copy_files(
    source: Vec<KeyBlock>,
    copy: Vec<KeyBlock>,
    delete: Vec<KeyBlock>,
) -> (r: CopyFiles)
    ensures
        r@ == copy_files_of(views(source@), views(copy@), views(delete@)),
{
    let mut combined = copy_blocks(copy.as_slice());
    let mut more = copy_blocks(delete.as_slice());
    let ghost a = combined@;
    let ghost b = more@;
    combined.append(&mut more);
    assert(views(combined@) =~= views(a) + views(b));
    CopyFiles {
        source: make_file(source),
        copy: make_file(copy),
        delete: make_file(delete),
        combined: make_file(combined),
    }
}

/// The changes that copy or move a subtree.
pub open spec fn subtree_files(
    keys: Seq<BlockView>,
    source: PathView,
    dest: PathView,
    remove_source: bool,
) -> Result<CopyFilesView, Seq<char>> {
    match all_rebased(keys, source, dest) {
        Err(e) => Err(e),
        Ok(copy) => Ok(
            copy_files_of(
                keys,
                copy,
                if remove_source {
                    seq![key_deletion(source)]
                } else {
                    Seq::empty()
                },
            ),
        ),
    }
}

/// The changes that copy or move a subtree, of which `keys` were read.
pub fn copy_subtree(
    keys: Vec<KeyBlock>,
    source: &RegPath,
    dest: &RegPath,
    remove_source: bool,
) -> (r: Result<CopyFiles, ExitError>)
    ensures
        match r {
            Ok(f) => subtree_files(views(keys@), source@, dest@, remove_source) == Ok::<
                CopyFilesView,
                Seq<char>,
            >(f@),
            Err(e) => e@.code == Exit::Io && subtree_files(
                views(keys@),
                source@,
                dest@,
                remove_source,
            ) == Err::<CopyFilesView, Seq<char>>(e@.message),
        },
{
    let copy = match rebase_subtree(keys.as_slice(), source, dest) {
        Ok(copy) => copy,
        Err(e) => {
            return Err(failed(e));
        },
    };
    let mut delete: Vec<KeyBlock> = Vec::new();
    if remove_source {
        delete.push(make_deletion(source.clone()));
        assert(views(delete@) =~= seq![key_deletion(source@)]);
    } else {
        assert(views(delete@) =~= Seq::<BlockView>::empty());
    }
    Ok(make_copy_files(keys, copy, delete))
}

/// A copy deletes nothing, and a move deletes exactly its source.
pub proof fn copies_delete_only_their_source(
    keys: Seq<BlockView>,
    source: PathView,
    dest: PathView,
    remove_source: bool,
)
    requires
        subtree_files(keys, source, dest, remove_source) is Ok,
        forall|i: int| 0 <= i < keys.len() ==> !(#[trigger] keys[i]).delete,
    ensures
        ({
            let combined = (subtree_files(keys, source, dest, remove_source)->Ok_0).combined.keys;
            forall|i: int|
                0 <= i < combined.len() && (#[trigger] combined[i]).delete ==> remove_source
                    && combined[i].path == source
        }),
{
    crate::paths::rebasing_keeps_the_values(keys, source, dest);
    let copy = all_rebased(keys, source, dest)->Ok_0;
    let combined = (subtree_files(keys, source, dest, remove_source)->Ok_0).combined.keys;
    assert forall|i: int| 0 <= i < combined.len() && (#[trigger] combined[i]).delete implies
        remove_source && combined[i].path == source by {
        if i < copy.len() {
            assert(combined[i] == copy[i]);
            assert(copy[i].delete == keys[i].delete);
        }
    }
}

// ---------------------------------------------------------------------------
// Copying and moving values
// ---------------------------------------------------------------------------

/// The first value with a name in the first block.
pub open spec fn value_in(keys: Seq<BlockView>, name: Option<Seq<char>>) -> Option<EntryView> {
    if keys.len() == 0 {
        None
    } else {
        value_from(keys[0].values, name, 0)
    }
}

/// The first value with a name, from `i` on.
pub open spec fn value_from(values: Seq<EntryView>, name: Option<Seq<char>>, i: int) -> Option<
    EntryView,
>
    decreases values.len() - i,
{
    if i >= values.len() {
        None
    } else if same_name(values[i].name, name) {
        Some(values[i])
    } else {
        value_from(values, name, i + 1)
    }
}

/// An optional entry as a view.
pub open spec fn entry_view(e: Option<ValueEntry>) -> Option<EntryView> {
    match e {
        Some(v) => Some(v@),
        None => None,
    }
}

/// The first value with a name in the first block.
pub fn find_value(keys: &[KeyBlock], name: &ValueName) -> (r: Option<ValueEntry>)
    ensures
        entry_view(r) == value_in(views(keys@), name@),
{
    if keys.len() == 0 {
        return None;
    }
    let block = &keys[0];
    let ghost all = views(block.values@);
    assert(views(keys@)[0] == block@);
    for i in 0..block.values.len()
        invariant
            all == views(block.values@),
            value_in(views(keys@), name@) == value_from(all, name@, 0),
            value_from(all, name@, 0) == value_from(all, name@, i as int),
    {
        assert(all[i as int] == block.values@[i as int]@);
        if value_name_matches(&block.values[i].name, name) {
            return Some(block.values[i].clone());
        }
    }
    None
}

/// What stands against copying or moving a value: it would be copied onto
/// itself.
pub open spec fn value_copy_barred(
    source: PathView,
    source_name: Option<Seq<char>>,
    dest: PathView,
    dest_name: Option<Seq<char>>,
    remote: bool,
) -> Result<(), ErrorView> {
    if !remote && same_key(source, dest) && same_name(source_name, dest_name) {
        Err(usage_error("source and destination are the same registry value"@))
    } else {
        Ok(())
    }
}

/// Whether a value may be copied or moved.
pub fn check_value_copy(
    source: &RegPath,
    source_name: &ValueName,
    dest: &RegPath,
    dest_name: &ValueName,
    remote: bool,
) -> (r: Result<(), ExitError>)
    ensures
        done_result(r) == value_copy_barred(source@, source_name@, dest@, dest_name@, remote),
{
    if !remote && source.is_same_key(dest) && value_name_matches(source_name, dest_name) {
        return Err(usage("source and destination are the same registry value".to_owned()));
    }
    Ok(())
}

/// A value at the destination is only replaced where that was asked for.
pub open spec fn collision(
    dest_keys: Seq<BlockView>,
    dest_name: Option<Seq<char>>,
    overwrite: bool,
) -> bool {
    value_in(dest_keys, dest_name) is Some && !overwrite
}

/// Whether a value at the destination is in the way.
pub fn collides(dest_keys: &[KeyBlock], dest_name: &ValueName, overwrite: bool) -> (b: bool)
    ensures
        b == collision(views(dest_keys@), dest_name@, overwrite),
{
    !overwrite && find_value(dest_keys, dest_name).is_some()
}

/// The changes that copy or move a value: its data under the new name, and a
/// deletion of the old one.
pub open spec fn value_files(
    source: PathView,
    source_name: Option<Seq<char>>,
    entry: EntryView,
    dest: PathView,
    dest_name: Option<Seq<char>>,
    remove_source: bool,
) -> CopyFilesView {
    copy_files_of(
        seq![BlockView { path: source, delete: false, values: seq![entry], line: 0 }],
        seq![value_block(dest, dest_name, entry.data)],
        if remove_source {
            seq![value_block(source, source_name, DataView::Delete)]
        } else {
            Seq::empty()
        },
    )
}

/// The changes that copy or move a value.
pub fn copy_value(
    source: &RegPath,
    source_name: &ValueName,
    entry: &ValueEntry,
    dest: &RegPath,
    dest_name: &ValueName,
    remove_source: bool,
) -> (r: CopyFiles)
    ensures
        r@ == value_files(source@, source_name@, entry@, dest@, dest_name@, remove_source),
{
    broadcast use views_push;

    let mut from: Vec<KeyBlock> = Vec::new();
    let mut values: Vec<ValueEntry> = Vec::new();
    values.push(entry.clone());
    assert(views(values@) =~= seq![entry@]);
    from.push(KeyBlock { path: source.clone(), delete: false, values, line: 0 });
    assert(views(from@) =~= seq![
        BlockView { path: source@, delete: false, values: seq![entry@], line: 0 },
    ]);
    let mut copy: Vec<KeyBlock> = Vec::new();
    copy.push(make_value_block(dest.clone(), dest_name.clone(), entry.data.clone()));
    assert(views(copy@) =~= seq![value_block(dest@, dest_name@, entry@.data)]);
    let mut delete: Vec<KeyBlock> = Vec::new();
    if remove_source {
        delete.push(make_value_block(source.clone(), source_name.clone(), RegData::Delete));
        assert(views(delete@) =~= seq![value_block(source@, source_name@, DataView::Delete)]);
    } else {
        assert(views(delete@) =~= Seq::<BlockView>::empty());
    }
    make_copy_files(from, copy, delete)
}

// ---------------------------------------------------------------------------
// What the changes do
// ---------------------------------------------------------------------------

/// A block writes one value and nothing else.
pub open spec fn writes_only(
    b: BlockView,
    path: PathView,
    name: Option<Seq<char>>,
    data: DataView,
) -> bool {
    &&& b.path == path
    &&& !b.delete
    &&& b.values.len() == 1
    &&& b.values[0].name == name
    &&& b.values[0].data == data
}

/// Copying or moving a value writes its data once, at the destination under the
/// name that was asked for. All that a move deletes is the value under its old
/// name; a copy deletes nothing. Both changes together are the two in this order.
pub proof fn values_arrive_under_their_new_name(
    source: PathView,
    source_name: Option<Seq<char>>,
    entry: EntryView,
    dest: PathView,
    dest_name: Option<Seq<char>>,
    remove_source: bool,
)
    ensures
        ({
            let f = value_files(source, source_name, entry, dest, dest_name, remove_source);
            &&& f.copy.keys.len() == 1
            &&& writes_only(f.copy.keys[0], dest, dest_name, entry.data)
            &&& f.delete.keys.len() == if remove_source {
                1int
            } else {
                0
            }
            &&& remove_source ==> writes_only(
                f.delete.keys[0],
                source,
                source_name,
                DataView::Delete,
            )
            &&& f.combined.keys == f.copy.keys + f.delete.keys
            &&& f.source.keys.len() == 1
            &&& f.source.keys[0].path == source
            &&& f.source.keys[0].values == seq![entry]
        }),
{
}

/// The value that is found has the name that was asked for, and stands in the
/// key before any other of that name; where none is found, none is there.
pub proof fn found_values_have_their_name(keys: Seq<BlockView>, name: Option<Seq<char>>)
    ensures
        match value_in(keys, name) {
            Some(e) => keys.len() > 0 && exists|i: int|
                0 <= i < keys[0].values.len() && #[trigger] keys[0].values[i] == e && same_name(
                    e.name,
                    name,
                ) && forall|j: int|
                    0 <= j < i ==> !same_name((#[trigger] keys[0].values[j]).name, name),
            None => keys.len() > 0 ==> forall|j: int|
                0 <= j < keys[0].values.len() ==> !same_name(
                    (#[trigger] keys[0].values[j]).name,
                    name,
                ),
        },
{
    if keys.len() > 0 {
        first_value_is_found(keys[0].values, name, 0);
    }
}

proof fn first_value_is_found(values: Seq<EntryView>, name: Option<Seq<char>>, i: int)
    requires
        0 <= i <= values.len(),
        forall|j: int| 0 <= j < i ==> !same_name((#[trigger] values[j]).name, name),
    ensures
        match value_from(values, name, i) {
            Some(e) => exists|k: int|
                0 <= k < values.len() && #[trigger] values[k] == e && same_name(e.name, name)
                    && forall|j: int| 0 <= j < k ==> !same_name((#[trigger] values[j]).name, name),
            None => forall|j: int|
                0 <= j < values.len() ==> !same_name((#[trigger] values[j]).name, name),
        },
    decreases values.len() - i,
{
    if i < values.len() {
        if same_name(values[i].name, name) {
            assert(value_from(values, name, i) == Some(values[i]));
        } else {
            first_value_is_found(values, name, i + 1);
        }
    }
}

/// A value is never copied onto itself, and nothing else stands in its way but
/// a value of the new name that may not be replaced.
pub proof fn values_are_not_copied_onto_themselves(
    source: PathView,
    source_name: Option<Seq<char>>,
    dest: PathView,
    dest_name: Option<Seq<char>>,
    dest_keys: Seq<BlockView>,
    overwrite: bool,
)
    ensures
        value_copy_barred(source, source_name, dest, dest_name, false) is Err <==> same_key(
            source,
            dest,
        ) && same_name(source_name, dest_name),
        value_copy_barred(source, source_name, dest, dest_name, true) is Ok,
        collision(dest_keys, dest_name, overwrite) ==> !overwrite && dest_keys.len() > 0
            && exists|i: int|
            0 <= i < dest_keys[0].values.len() && same_name(
                (#[trigger] dest_keys[0].values[i]).name,
                dest_name,
            ),
        !overwrite && dest_keys.len() > 0 && (exists|i: int|
            0 <= i < dest_keys[0].values.len() && same_name(
                (#[trigger] dest_keys[0].values[i]).name,
                dest_name,
            )) ==> collision(dest_keys, dest_name, overwrite),
{
    found_values_have_their_name(dest_keys, dest_name);
}

/// Deleting a value deletes that value of that key and nothing else; deleting a
/// key deletes that key, and only where it was asked for with all below it. The
/// empty name is the default value.
pub proof fn deletions_hit_what_was_named(
    path: PathView,
    value: Option<Seq<char>>,
    recursive: bool,
    complaint: Seq<char>,
)
    ensures
        delete_outcome(path, value, recursive, complaint) is Err <==> value is None && !recursive,
        delete_outcome(path, value, recursive, complaint) matches Ok(f) ==> {
            &&& f.keys.len() == 1
            &&& f.keys[0].path == path
            &&& value is None ==> f.keys[0].delete && f.keys[0].values.len() == 0
            &&& value matches Some(name) ==> writes_only(
                f.keys[0],
                path,
                if name == Seq::<char>::empty() {
                    None
                } else {
                    Some(name)
                },
                DataView::Delete,
            )
        },
{
    if let Some(name) = value {
        if name.len() == 0 {
            assert(name =~= Seq::<char>::empty());
        }
    }
}

/// Setting a value sets that value of that key and nothing else. The empty name
/// is the default value.
pub proof fn settings_hit_what_was_named(path: PathView, name: Seq<char>, data: DataView)
    ensures
        ({
            let f = file_of(seq![value_block(path, unnamed_or(name), data)]);
            f.keys.len() == 1 && writes_only(
                f.keys[0],
                path,
                if name == Seq::<char>::empty() {
                    None
                } else {
                    Some(name)
                },
                data,
            )
        }),
{
    if name.len() == 0 {
        assert(name =~= Seq::<char>::empty());
    }
}

/// A subtree is copied key by key: the key that lies `rest` below the source
/// goes to `rest` below the destination, the source itself to the destination,
/// and each with all its values. A move deletes the source key behind all that,
/// and a copy deletes nothing.
pub proof fn subtree_keys_arrive(
    keys: Seq<BlockView>,
    source: PathView,
    dest: PathView,
    remove_source: bool,
    i: int,
    rest: Seq<char>,
)
    requires
        0 <= i < keys.len(),
        keys[i].path.hive == source.hive,
        keys[i].path.sub == if rest.len() == 0 {
            source.sub
        } else if source.sub.len() == 0 {
            rest
        } else {
            source.sub + seq!['\\'] + rest
        },
    ensures
        subtree_files(keys, source, dest, remove_source) matches Ok(f) ==> {
            &&& f.source.keys == keys
            &&& f.copy.keys.len() == keys.len()
            &&& f.copy.keys[i].values == keys[i].values
            &&& f.copy.keys[i].delete == keys[i].delete
            &&& f.copy.keys[i].path.hive == dest.hive
            &&& f.copy.keys[i].path.sub == if rest.len() == 0 {
                dest.sub
            } else if dest.sub.len() == 0 {
                rest
            } else {
                dest.sub + seq!['\\'] + rest
            }
            &&& f.combined.keys == f.copy.keys + f.delete.keys
            &&& !remove_source ==> f.delete.keys.len() == 0
            &&& remove_source ==> f.delete.keys.len() == 1 && f.delete.keys[0].path == source
                && f.delete.keys[0].delete && f.delete.keys[0].values.len() == 0
        },
{
    if subtree_files(keys, source, dest, remove_source) is Ok {
        crate::paths::rebasing_keeps_the_values(keys, source, dest);
        crate::paths::keys_go_along(keys, source, dest, i, rest);
    }
}

/// What stands against copying or moving a subtree is that it would go onto or
/// into itself, or that a whole hive would be removed; nothing else does.
pub proof fn subtrees_do_not_swallow_themselves(
    source: PathView,
    dest: PathView,
    ground: Ground,
    remove_source: bool,
)
    ensures
        copy_barred(source, dest, ground, remove_source) is Err <==> {
            ||| ground != Ground::Remote && (same_key(source, dest) || lies_below(dest, source))
            ||| remove_source && source.sub.len() == 0
        },
{
}

} // verus!
