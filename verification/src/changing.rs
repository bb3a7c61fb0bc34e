//! Every kind of change, and how it is guarded.
use vstd::prelude::*;

use crate::exit::Exit;
use crate::guard::{
    all_pass, begun, changes_are_guarded, reached, EventView, Guarded, Place, Setup, Stage,
};
use crate::model::{FileView, RegFile};
use crate::policy::{Policy, PolicyView};
use crate::text::views;
use crate::transaction::UndoRule;

verus! {

/// A kind of change.
#[derive(Clone, Copy, Debug, PartialEq, Eq, Structural)]
pub enum ChangeKind {
    /// Importing or synchronizing files.
    Import,
    Undo,
    SetValue,
    Delete,
    /// Copying or moving subtrees and values.
    Copy,
    Restore,
    ApplyPlan,
    ApplyCopyPlan,
    Batch,
    HiveSet,
    HiveDelete,
    HiveCopy,
    HiveCopyValue,
    HiveImport,
    HiveUndo,
    HiveSync,
    HiveBatch,
}

/// What was asked for on the command line, and what the policy demands.
#[derive(Clone, Copy, Debug, PartialEq, Eq, Structural)]
pub struct Flags {
    pub dry_run: bool,
    pub yes: bool,
    pub require_confirm: bool,
    /// What is there and not wanted is to be deleted; of importing and
    /// synchronizing only.
    pub prune: bool,
    /// No undo file is wanted; of importing only.
    pub no_backup: bool,
}

/// Where a kind of change is made.
pub open spec fn place_of(kind: ChangeKind) -> Place {
    match kind {
        ChangeKind::Import | ChangeKind::Undo | ChangeKind::SetValue | ChangeKind::Delete
        | ChangeKind::Copy | ChangeKind::Restore | ChangeKind::ApplyPlan
        | ChangeKind::ApplyCopyPlan | ChangeKind::Batch => Place::Live,
        _ => Place::Hive,
    }
}

/// How a kind of change is made.
pub open spec fn setup_of(kind: ChangeKind, flags: Flags) -> Setup {
    Setup {
        place: place_of(kind),
        reconciles: flags.prune && (kind == ChangeKind::Import || kind == ChangeKind::HiveSync),
        keeps_undo: !(flags.no_backup && kind == ChangeKind::Import),
        unread_exit: if kind == ChangeKind::SetValue || kind == ChangeKind::Delete {
            Exit::AccessDenied
        } else {
            Exit::Partial
        },
        dry_run: flags.dry_run,
        yes: flags.yes,
        require_confirm: flags.require_confirm,
    }
}

fn place_for(kind: ChangeKind) -> (r: Place)
    ensures
        r == place_of(kind),
{
    match kind {
        ChangeKind::Import => Place::Live,
        ChangeKind::Undo => Place::Live,
        ChangeKind::SetValue => Place::Live,
        ChangeKind::Delete => Place::Live,
        ChangeKind::Copy => Place::Live,
        ChangeKind::Restore => Place::Live,
        ChangeKind::ApplyPlan => Place::Live,
        ChangeKind::ApplyCopyPlan => Place::Live,
        ChangeKind::Batch => Place::Live,
        _ => Place::Hive,
    }
}

/// How a kind of change is made.
pub fn setup_for(kind: ChangeKind, flags: Flags) -> (r: Setup)
    ensures
        r == setup_of(kind, flags),
{
    let unread_exit = if kind == ChangeKind::SetValue || kind == ChangeKind::Delete {
        Exit::AccessDenied
    } else {
        Exit::Partial
    };
    Setup {
        place: place_for(kind),
        reconciles: flags.prune && (kind == ChangeKind::Import || kind == ChangeKind::HiveSync),
        keeps_undo: !(flags.no_backup && kind == ChangeKind::Import),
        unread_exit,
        dry_run: flags.dry_run,
        yes: flags.yes,
        require_confirm: flags.require_confirm,
    }
}

/// What a failed change of several views takes back: what was written down
/// before, and nothing where nothing was.
pub fn undo_rule_for(kind: ChangeKind, flags: Flags) -> (r: UndoRule)
    ensures
        r == (if setup_of(kind, flags).keeps_undo {
            UndoRule::Touched
        } else {
            UndoRule::Nothing
        }),
{
    if setup_for(kind, flags).keeps_undo {
        UndoRule::Touched
    } else {
        UndoRule::Nothing
    }
}

/// Begins a change of any kind with what is wanted in every view.
pub fn begin_change(policy: &Policy, kind: ChangeKind, flags: Flags, files: Vec<RegFile>) -> (r:
    Guarded)
    ensures
        r@ == begun(policy@, setup_of(kind, flags), views(files@)),
{
    Guarded::begin(policy, setup_for(kind, flags), files)
}

// ---------------------------------------------------------------------------
// Laws
// ---------------------------------------------------------------------------

/// Every way to write is guarded. Whatever the kind of change, whatever was
/// asked for, and whatever happens on the way: when the change is made, the
/// policy lets everything in it pass, generated deletions included; it was
/// confirmed, unless nothing is written or `-y` is given and allowed; what is
/// there was read in full and, unless nothing is written, written down after the
/// answer, but for an import without a backup; and the log is open.
pub proof fn every_change_is_guarded(
    policy: PolicyView,
    kind: ChangeKind,
    flags: Flags,
    files: Seq<FileView>,
    events: Seq<EventView>,
)
    ensures
        ({
            let g = reached(policy, begun(policy, setup_of(kind, flags), files), events);
            g.stage == Stage::Change ==> {
                &&& all_pass(policy, place_of(kind), g.files, 0) is Ok
                &&& !flags.dry_run && (!flags.yes || flags.require_confirm) ==> events.contains(
                    EventView::Answered(true),
                )
                &&& !(flags.no_backup && kind == ChangeKind::Import) ==> events.contains(
                    EventView::Snapshotted(true),
                )
                &&& !flags.dry_run && !(flags.no_backup && kind == ChangeKind::Import)
                    ==> events.contains(EventView::Saved(None))
                &&& events.contains(EventView::Logged(None))
            }
        }),
{
    changes_are_guarded(policy, setup_of(kind, flags), files, events);
}

/// No undo file is written before the answer: a question that is still open, or
/// was declined, has left nothing behind.
pub proof fn undo_files_follow_the_answer(
    policy: PolicyView,
    kind: ChangeKind,
    flags: Flags,
    files: Seq<FileView>,
    events: Seq<EventView>,
)
    ensures
        ({
            let s = setup_of(kind, flags);
            let g = reached(policy, begun(policy, s, files), events);
            g.stage == Stage::SaveUndo && s.asks() ==> events.contains(EventView::Answered(true))
        }),
{
    changes_are_guarded(policy, setup_of(kind, flags), files, events);
}

} // verus!
