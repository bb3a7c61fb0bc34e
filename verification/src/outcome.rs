//! How a run ends that only looks at the registry.
use vstd::prelude::*;

use crate::exit::{failure_exit, reg_exit, worse, worse_of, Exit, RegistryFailure};

verus! {

/// What the views of a command gave.
pub struct ViewTally {
    /// The views that could be read.
    pub views: usize,
    /// Why the first view that failed did.
    pub first_failure: Option<RegistryFailure>,
    /// Something could not be read in a view that could.
    pub incomplete: bool,
}

/// How a run ends that read no view at all.
pub open spec fn unread(first_failure: Option<RegistryFailure>) -> Exit {
    match first_failure {
        Some(f) => failure_exit(f),
        None => Exit::NotFound,
    }
}

fn unread_exit(first_failure: Option<RegistryFailure>) -> (r: Exit)
    ensures
        r == unread(first_failure),
{
    match first_failure {
        Some(f) => reg_exit(f),
        None => Exit::NotFound,
    }
}

/// How listing keys ends.
pub open spec fn listing(t: ViewTally) -> Exit {
    if t.views == 0 {
        unread(t.first_failure)
    } else if t.first_failure is Some || t.incomplete {
        Exit::Partial
    } else {
        Exit::Success
    }
}

/// How listing keys ends.
pub fn ls_exit(t: &ViewTally) -> (r: Exit)
    ensures
        r == listing(*t),
{
    if t.views == 0 {
        unread_exit(t.first_failure)
    } else if t.first_failure.is_some() || t.incomplete {
        Exit::Partial
    } else {
        Exit::Success
    }
}

/// How a query of several views ends: a value that was asked for has to be
/// found in one of them.
pub fn query_exit(t: &ViewTally, asked: bool, found: bool) -> (r: Exit)
    ensures
        r == (if listing(*t) != Exit::Success {
            listing(*t)
        } else if asked && !found {
            Exit::NotFound
        } else {
            Exit::Success
        }),
{
    let base = ls_exit(t);
    if base != Exit::Success {
        base
    } else if asked && !found {
        Exit::NotFound
    } else {
        Exit::Success
    }
}

/// How a query of one view ends.
pub fn query_one_exit(incomplete: bool, asked: bool, found: bool) -> (r: Exit)
    ensures
        r == (if incomplete {
            Exit::Partial
        } else if asked && !found {
            Exit::NotFound
        } else {
            Exit::Success
        }),
{
    if incomplete {
        Exit::Partial
    } else if asked && !found {
        Exit::NotFound
    } else {
        Exit::Success
    }
}

/// How counting or fingerprinting several views ends. `mismatch` tells that a
/// fingerprint is not the expected one; a scope has to match in every view.
pub open spec fn scoped(
    t: ViewTally,
    any_matched: bool,
    all_matched: bool,
    mismatch: bool,
) -> Exit {
    if t.views == 0 {
        unread(t.first_failure)
    } else if !any_matched {
        Exit::NotFound
    } else if t.first_failure is Some || t.incomplete || mismatch || !all_matched {
        Exit::Partial
    } else {
        Exit::Success
    }
}

/// How counting or fingerprinting several views ends.
pub fn scope_exit(t: &ViewTally, any_matched: bool, all_matched: bool, mismatch: bool) -> (r: Exit)
    ensures
        r == scoped(*t, any_matched, all_matched, mismatch),
{
    if t.views == 0 {
        unread_exit(t.first_failure)
    } else if !any_matched {
        Exit::NotFound
    } else if t.first_failure.is_some() || t.incomplete || mismatch || !all_matched {
        Exit::Partial
    } else {
        Exit::Success
    }
}

/// How counting or fingerprinting one source ends.
pub open spec fn scope_one_end(matched: bool, incomplete: bool, mismatch: bool) -> Exit {
    if !matched {
        Exit::NotFound
    } else if incomplete || mismatch {
        Exit::Partial
    } else {
        Exit::Success
    }
}

/// How counting or fingerprinting one source ends.
pub fn scope_one_exit(matched: bool, incomplete: bool, mismatch: bool) -> (r: Exit)
    ensures
        r == scope_one_end(matched, incomplete, mismatch),
{
    if !matched {
        Exit::NotFound
    } else if incomplete || mismatch {
        Exit::Partial
    } else {
        Exit::Success
    }
}

/// How probing ends: by the number of views that can be written or created, of
/// one or of two.
pub fn probe_exit(usable: usize, views: usize) -> (r: Exit)
    requires
        usable <= views,
        views == 1 || views == 2,
    ensures
        r == (if usable == views {
            Exit::Success
        } else if usable == 1 {
            Exit::Partial
        } else {
            Exit::AccessDenied
        }),
{
    if usable == views {
        Exit::Success
    } else if usable == 1 {
        Exit::Partial
    } else {
        Exit::AccessDenied
    }
}

/// How showing permissions ends.
pub open spec fn permissions_end(reports: nat, failures: nat) -> Exit {
    if reports == 0 {
        Exit::AccessDenied
    } else if failures == 0 {
        Exit::Success
    } else {
        Exit::Partial
    }
}

/// How showing permissions ends.
pub fn permissions_exit(reports: usize, failures: usize) -> (r: Exit)
    ensures
        r == permissions_end(reports as nat, failures as nat),
{
    if reports == 0 {
        Exit::AccessDenied
    } else if failures == 0 {
        Exit::Success
    } else {
        Exit::Partial
    }
}

/// How comparing permissions ends.
pub fn compare_permissions_exit(
    comparisons: usize,
    failures: usize,
    other_failures: usize,
    exit_code: bool,
    different: bool,
) -> (r: Exit)
    ensures
        r == (if comparisons == 0 {
            Exit::AccessDenied
        } else if failures != 0 || other_failures != 0 || (exit_code && different) {
            Exit::Partial
        } else {
            Exit::Success
        }),
{
    if comparisons == 0 {
        Exit::AccessDenied
    } else if failures != 0 || other_failures != 0 || (exit_code && different) {
        Exit::Partial
    } else {
        Exit::Success
    }
}

/// How a search of one source ends.
pub open spec fn search_end(incomplete: bool, matches: nat) -> Exit {
    if incomplete {
        Exit::Partial
    } else if matches == 0 {
        Exit::NotFound
    } else {
        Exit::Success
    }
}

/// How a search of one source ends.
pub fn search_exit(incomplete: bool, matches: usize) -> (r: Exit)
    ensures
        r == search_end(incomplete, matches as nat),
{
    if incomplete {
        Exit::Partial
    } else if matches == 0 {
        Exit::NotFound
    } else {
        Exit::Success
    }
}

/// How a search of both views ends.
pub fn search_views_exit(views: usize, failures: usize, incomplete: bool, matches: usize) -> (r: Exit)
    ensures
        r == (if views == 0 {
            Exit::NotFound
        } else if failures != 0 || incomplete {
            Exit::Partial
        } else if matches == 0 {
            Exit::NotFound
        } else {
            Exit::Success
        }),
{
    if views == 0 {
        Exit::NotFound
    } else if failures != 0 || incomplete {
        Exit::Partial
    } else if matches == 0 {
        Exit::NotFound
    } else {
        Exit::Success
    }
}

/// How a comparison ends.
pub fn diff_exit(incomplete: bool, exit_code: bool, different: bool) -> (r: Exit)
    ensures
        r == (if incomplete || exit_code && different {
            Exit::Partial
        } else {
            Exit::Success
        }),
{
    if incomplete || exit_code && different {
        Exit::Partial
    } else {
        Exit::Success
    }
}

/// A patch is only written where both sources are complete and it is no dry run.
pub fn patch_is_written(asked: bool, incomplete: bool, dry_run: bool) -> (b: bool)
    ensures
        b == (asked && !incomplete && !dry_run),
{
    asked && !incomplete && !dry_run
}

/// How an export ends: one that leaves out what could not be read is partial, and
/// one whose selection leaves nothing found nothing.
pub open spec fn export_end(selected: bool, keys: nat, skipped: nat) -> Exit {
    if skipped != 0 {
        Exit::Partial
    } else if selected && keys == 0 {
        Exit::NotFound
    } else {
        Exit::Success
    }
}

/// How an export ends.
pub fn export_exit(selected: bool, keys: usize, skipped: usize) -> (r: Exit)
    ensures
        r == export_end(selected, keys as nat, skipped as nat),
{
    if skipped != 0 {
        Exit::Partial
    } else if selected && keys == 0 {
        Exit::NotFound
    } else {
        Exit::Success
    }
}

/// How an export of both views ends. `empty` counts the views that hold nothing.
pub fn export_views_exit(exported: usize, failures: usize, incomplete: bool, empty: usize) -> (r:
    Exit)
    ensures
        r == (if exported == 0 {
            Exit::NotFound
        } else if failures != 0 || incomplete {
            Exit::Partial
        } else if empty == exported {
            Exit::NotFound
        } else {
            Exit::Success
        }),
{
    if exported == 0 {
        Exit::NotFound
    } else if failures != 0 || incomplete {
        Exit::Partial
    } else if empty == exported {
        Exit::NotFound
    } else {
        Exit::Success
    }
}

/// How an import ends: redirection that left something out makes a success
/// partial.
pub fn import_exit(result: Exit, redirect_skipped: usize) -> (r: Exit)
    ensures
        r == (if result == Exit::Success && redirect_skipped > 0 {
            Exit::Partial
        } else {
            result
        }),
{
    if result == Exit::Success && redirect_skipped > 0 {
        Exit::Partial
    } else {
        result
    }
}

/// How an import ends before anything is applied: where a refused key fails the
/// run, or nothing is left.
pub open spec fn import_stops(refused: nat, fail_on_refuse: bool, keys: nat) -> Option<Exit> {
    if refused > 0 && fail_on_refuse {
        Some(Exit::RedirectRefused)
    } else if keys == 0 {
        Some(
            if refused > 0 {
                Exit::RedirectRefused
            } else {
                Exit::Success
            },
        )
    } else {
        None
    }
}

/// How an import ends before anything is applied, if it does.
pub fn import_stop(refused: usize, fail_on_refuse: bool, keys: usize) -> (r: Option<Exit>)
    ensures
        r == import_stops(refused as nat, fail_on_refuse, keys as nat),
{
    if refused > 0 && fail_on_refuse {
        Some(Exit::RedirectRefused)
    } else if keys == 0 {
        Some(
            if refused > 0 {
                Exit::RedirectRefused
            } else {
                Exit::Success
            },
        )
    } else {
        None
    }
}

/// A plan is not safe to save or apply.
pub open spec fn unsafe_plan(
    denied: nat,
    failures: nat,
    complete: bool,
    skipped: nat,
    refused: nat,
) -> bool {
    denied != 0 || failures != 0 || !complete || skipped > 0 || refused > 0
}

/// Whether a plan is not safe to save or apply.
pub fn plan_is_unsafe(
    denied: usize,
    failures: usize,
    complete: bool,
    skipped: usize,
    refused: usize,
) -> (b: bool)
    ensures
        b == unsafe_plan(
            denied as nat,
            failures as nat,
            complete,
            skipped as nat,
            refused as nat,
        ),
{
    denied != 0 || failures != 0 || !complete || skipped > 0 || refused > 0
}

/// How planning ends.
pub fn plan_exit(is_unsafe: bool) -> (r: Exit)
    ensures
        r == (if is_unsafe {
            Exit::Partial
        } else {
            Exit::Success
        }),
{
    if is_unsafe {
        Exit::Partial
    } else {
        Exit::Success
    }
}

/// What became of validating one file.
pub struct Validated {
    pub has_errors: bool,
    pub diagnostics: usize,
    pub strict: bool,
    pub fix: bool,
    /// Repairs that were found, and defects that have none.
    pub repairs: usize,
    pub unfixable: usize,
    pub dry_run: bool,
}

/// How validation stands after a file.
pub open spec fn validated(worst: Exit, v: Validated) -> Exit {
    if v.has_errors {
        Exit::Parse
    } else if !v.fix {
        if v.strict && v.diagnostics != 0 && worst == Exit::Success {
            Exit::Parse
        } else {
            worst
        }
    } else if v.repairs == 0 {
        if v.unfixable != 0 {
            Exit::Parse
        } else {
            worst
        }
    } else if v.dry_run {
        worst
    } else if v.unfixable != 0 {
        Exit::Partial
    } else {
        worst
    }
}

/// How validation stands after a file. One with syntax errors is not repaired:
/// that would be guessing.
pub fn validate_step(worst: Exit, v: &Validated) -> (r: Exit)
    ensures
        r == validated(worst, *v),
{
    if v.has_errors {
        return Exit::Parse;
    }
    if !v.fix {
        return if v.strict && v.diagnostics != 0 && worst == Exit::Success {
            Exit::Parse
        } else {
            worst
        };
    }
    if v.repairs == 0 {
        return if v.unfixable != 0 {
            Exit::Parse
        } else {
            worst
        };
    }
    if !v.dry_run && v.unfixable != 0 {
        return Exit::Partial;
    }
    worst
}

/// How long to wait for a change, in milliseconds: forever where no limit is
/// given.
pub open spec fn wait_limit(seconds: u32) -> u32 {
    if seconds == 0 || 1_000 * seconds > 0xffff_ffff {
        0xffff_ffffu32
    } else {
        (1_000 * seconds) as u32
    }
}

/// How long to wait for a change, in milliseconds.
pub fn wait_milliseconds(seconds: u32) -> (r: u32)
    ensures
        r == wait_limit(seconds),
{
    if seconds == 0 {
        return 0xffff_ffff;
    }
    let wide: u64 = 1_000 * (seconds as u64);
    if wide > 0xffff_ffff {
        0xffff_ffff
    } else {
        wide as u32
    }
}

/// How watching goes on after a change: `None` to keep watching.
pub fn watch_step(incomplete: bool, removed: bool) -> (r: Option<Exit>)
    ensures
        r == (if incomplete {
            Some(Exit::Partial)
        } else if removed {
            Some(Exit::Success)
        } else {
            None::<Exit>
        }),
{
    if incomplete {
        Some(Exit::Partial)
    } else if removed {
        Some(Exit::Success)
    } else {
        None
    }
}

/// What inspecting one file gave.
#[derive(Clone, Copy, Debug, PartialEq, Eq, Structural)]
pub enum Inspected {
    Unreadable,
    Read {
        /// Something was lost, or two statements conflict.
        inexact: bool,
        /// The number of keys without a per-user equivalent.
        refused: usize,
    },
}

/// How inspecting ends after one more file. Keys without an equivalent are told
/// only in text.
pub open spec fn inspected(worst: Exit, one: Inspected, json: bool) -> Exit {
    match one {
        Inspected::Unreadable => Exit::Parse,
        Inspected::Read { inexact, refused } => if !json && refused > 0 {
            Exit::Partial
        } else if inexact {
            worse_of(worst, Exit::Partial)
        } else {
            worst
        },
    }
}

/// How inspecting ends after one more file.
pub fn inspect_step(worst: Exit, one: Inspected, json: bool) -> (r: Exit)
    ensures
        r == inspected(worst, one, json),
{
    match one {
        Inspected::Unreadable => Exit::Parse,
        Inspected::Read { inexact, refused } => if !json && refused > 0 {
            Exit::Partial
        } else if inexact {
            worse(worst, Exit::Partial)
        } else {
            worst
        },
    }
}

} // verus!
