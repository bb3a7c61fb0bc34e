//! From keys that were read to what a command shows of them.
use vstd::prelude::*;

use crate::encoding::SourceEncoding;
use crate::exit::{failed, plain_error, Exit, ExitError};
use crate::model::{BlockView, FileView, KeyBlock, PathView, RegFile, RegFormat, RegPath};
use crate::outcome::{export_end, export_exit};
use crate::paths::{all_rebased, joined_path, joined_reg_path, rebase_subtree};
use crate::select::{
    capped, fingerprint_selection, path_depth, registry_stats, stats_of, total_values, FingerprintSelection,
    RegistryStats, Scope,
};
use crate::source::opt_path;
use crate::text::views;

verus! {

/// Keys as they are, or below another root.
pub open spec fn rooted(keys: Seq<BlockView>, from: PathView, root: Option<PathView>) -> Result<
    Seq<BlockView>,
    Seq<char>,
> {
    match root {
        None => Ok(keys),
        Some(to) => all_rebased(keys, from, to),
    }
}

/// Keys as they are, or below another root.
pub fn rooted_keys(keys: Vec<KeyBlock>, from: &RegPath, root: &Option<RegPath>) -> (r: Result<
    Vec<KeyBlock>,
    ExitError,
>)
    ensures
        match r {
            Ok(k) => rooted(views(keys@), from@, opt_path(*root)) == Ok::<
                Seq<BlockView>,
                Seq<char>,
            >(views(k@)),
            Err(e) => exists|m: Seq<char>|
                rooted(views(keys@), from@, opt_path(*root)) == Err::<Seq<BlockView>, Seq<char>>(m)
                    && e@ == #[trigger] plain_error(m),
        },
{
    match root {
        None => Ok(keys),
        Some(to) => match rebase_subtree(keys.as_slice(), from, to) {
            Ok(k) => Ok(k),
            Err(m) => {
                let ghost words = m@;
                let e = failed(m);
                assert(e@ == plain_error(words));
                Err(e)
            },
        },
    }
}

/// What is exported, and how the export ends.
#[derive(Debug)]
pub struct Exported {
    pub file: RegFile,
    /// There were patterns to select by.
    pub selected: bool,
    pub exit: Exit,
}

/// Selects what is exported. An export that leaves something out that could not
/// be read is partial; one whose patterns match nothing found nothing.
pub fn select_export(
    keys: Vec<KeyBlock>,
    from: &RegPath,
    root: &Option<RegPath>,
    scope: &Scope,
    version: RegFormat,
    skipped: usize,
) -> (r: Result<Exported, ExitError>)
    ensures
        ({
            let all = rooted(views(keys@), from@, opt_path(*root));
            let selects = scope@.filters_keys() || scope@.filters_values();
            &&& all is Err ==> r is Err && r->Err_0@ == plain_error(all->Err_0)
            &&& all is Ok && !selects ==> r is Ok
            &&& all is Ok && r is Err ==> scope@.refused_with(r->Err_0@)
            &&& r matches Ok(x) ==> {
                &&& all is Ok
                &&& scope@.keys_sound()
                &&& scope@.values_sound()
                &&& x.selected == selects
                &&& x.file@ == (FileView {
                    format: version,
                    encoding: SourceEncoding::Utf16Le,
                    keys: scope@.selects(all->Ok_0, false),
                })
                &&& x.exit == export_end(selects, x.file.keys@.len(), skipped as nat)
            }
        }),
{
    let all = match rooted_keys(keys, from, root) {
        Ok(k) => k,
        Err(e) => {
            return Err(e);
        },
    };
    let selected = scope.include_keys.len() != 0 || scope.exclude_keys.len() != 0
        || scope.include_values.len() != 0 || scope.exclude_values.len() != 0;
    assert(selected == (scope@.filters_keys() || scope@.filters_values()));
    match fingerprint_selection(all, scope, false) {
        Err(e) => Err(e),
        Ok(selection) => Ok(exported(selection, selected, version, skipped)),
    }
}

/// What is exported of a selection, and how the export ends.
pub fn exported(
    selection: FingerprintSelection,
    selected: bool,
    version: RegFormat,
    skipped: usize,
) -> (x: Exported)
    ensures
        x.selected == selected,
        x.file@ == (FileView {
            format: version,
            encoding: SourceEncoding::Utf16Le,
            keys: views(selection.keys@),
        }),
        x.exit == export_end(selected, selection.keys@.len(), skipped as nat),
{
    let exit = export_exit(selected, selection.keys.len(), skipped);
    Exported {
        file: RegFile {
            format: version,
            encoding: SourceEncoding::Utf16Le,
            keys: selection.keys,
        },
        selected,
        exit,
    }
}

/// Selects what is counted or fingerprinted in a hive: patterns speak of paths
/// within the hive.
pub fn select_in_hive(
    keys: Vec<KeyBlock>,
    root: &Option<RegPath>,
    scope: &Scope,
) -> (r: Result<FingerprintSelection, ExitError>)
    ensures
        ({
            let hive = crate::paths::offline_path(Seq::empty());
            let all = rooted(views(keys@), hive, opt_path(*root));
            let selects = scope@.filters_keys() || scope@.filters_values();
            &&& all is Err ==> r is Err && r->Err_0@ == plain_error(all->Err_0)
            &&& all is Ok && !selects ==> r is Ok
            &&& all is Ok && r is Err ==> scope@.refused_with(r->Err_0@)
            &&& r is Ok ==> scope@.keys_sound() && scope@.values_sound()
            &&& r matches Ok(s) ==> {
                let some = scope@.selects(all->Ok_0, true);
                &&& all is Ok
                &&& views(s.keys@) == some
                &&& s.key_count == some.len()
                &&& s.value_count == capped(total_values(some))
                &&& s.matched == (some.len() > 0 || !selects)
            }
        }),
{
    proof {
        reveal_strlit("");
        assert(""@ =~= Seq::<char>::empty());
    }
    let hive = crate::paths::hive_path("");
    let all = match rooted_keys(keys, &hive, root) {
        Ok(k) => k,
        Err(e) => {
            return Err(e);
        },
    };
    fingerprint_selection(all, scope, true)
}

/// Counts what was selected in a hive, with depths counted from the subkey.
pub fn hive_stats(keys: &Vec<KeyBlock>, subkey: &str, root: &Option<RegPath>) -> (r: RegistryStats)
    ensures
        ({
            let base = match *root {
                Some(to) => joined_path(to@, subkey@),
                None => crate::paths::offline_path(subkey@),
            };
            r == stats_of(views(keys@), path_depth(base.sub))
        }),
{
    let base = match root {
        Some(to) => joined_reg_path(to, subkey),
        None => crate::paths::hive_path(subkey),
    };
    registry_stats(keys, Some(&base))
}

// ---------------------------------------------------------------------------
// Laws
// ---------------------------------------------------------------------------

/// What is exported without patterns is everything that was read: as many keys,
/// with the same values.
pub proof fn plain_exports_are_whole(keys: Seq<BlockView>, from: PathView, root: Option<PathView>)
    requires
        rooted(keys, from, root) is Ok,
    ensures
        rooted(keys, from, root)->Ok_0.len() == keys.len(),
        forall|i: int|
            0 <= i < keys.len() ==> (#[trigger] (rooted(keys, from, root)->Ok_0)[i]).values
                == keys[i].values,
{
    if let Some(to) = root {
        crate::paths::rebasing_keeps_the_values(keys, from, to);
    }
}

} // verus!
