//! The order in which a change is checked, confirmed, made reversible and made.
use vstd::prelude::*;

use crate::args::{confirmation, confirmation_of, Confirmation};
use crate::exit::{done_result, failed, plain_error, ErrorView, Exit, ExitError};
use crate::model::{BlockView, FileView, RegFile};
use crate::mutation::{denial, enforce_denies, enforce_hive_denies, hive_denial};
use crate::policy::{Policy, PolicyView};
use crate::text::views;

verus! {

/// Where a change is made.
#[derive(Clone, Copy, Debug, PartialEq, Eq, Structural)]
pub enum Place {
    Live,
    Hive,
}

/// How a change is to be made.
#[derive(Clone, Copy, Debug, PartialEq, Eq, Structural)]
pub struct Setup {
    pub place: Place,
    /// What is there and not wanted is deleted as well.
    pub reconciles: bool,
    /// What is there is kept, to take the change back.
    pub keeps_undo: bool,
    /// How it ends where what is there cannot be read in full.
    pub unread_exit: Exit,
    pub dry_run: bool,
    pub yes: bool,
    pub require_confirm: bool,
}

/// What has to be done next.
#[derive(Clone, Copy, Debug, PartialEq, Eq, Structural)]
pub enum Stage {
    /// Find out what has to be deleted.
    Reconcile,
    /// Read what is there.
    Snapshot,
    Ask,
    /// Write down what was there.
    SaveUndo,
    OpenLog,
    Change,
    Done,
}

/// What came of a stage.
#[derive(Debug)]
pub enum Event {
    /// The changes of every view with the deletions, or nothing where what is
    /// there could not be read in full.
    Reconciled(Option<Vec<RegFile>>),
    /// Whether everything could be read.
    Snapshotted(bool),
    Answered(bool),
    Saved(Result<(), String>),
    Logged(Result<(), String>),
    Changed(Exit),
}

/// What an `Event` stands for.
pub enum EventView {
    Reconciled(Option<Seq<FileView>>),
    Snapshotted(bool),
    Answered(bool),
    /// Whether writing failed, and why.
    Saved(Option<Seq<char>>),
    Logged(Option<Seq<char>>),
    Changed(Exit),
}

/// The words of an error, where there is one.
pub open spec fn problem_of(r: Result<(), String>) -> Option<Seq<char>> {
    match r {
        Ok(_) => None,
        Err(m) => Some(m@),
    }
}

impl View for Event {
    type V = EventView;

    open spec fn view(&self) -> EventView {
        match self {
            Event::Reconciled(Some(files)) => EventView::Reconciled(Some(views(files@))),
            Event::Reconciled(None) => EventView::Reconciled(None),
            Event::Snapshotted(complete) => EventView::Snapshotted(*complete),
            Event::Answered(yes) => EventView::Answered(*yes),
            Event::Saved(r) => EventView::Saved(problem_of(*r)),
            Event::Logged(r) => EventView::Logged(problem_of(*r)),
            Event::Changed(exit) => EventView::Changed(*exit),
        }
    }
}

/// A change on its way. The caller does what `stage` says and records what came
/// of it.
#[derive(Debug)]
pub struct Guarded {
    pub setup: Setup,
    /// The change of every view.
    pub files: Vec<RegFile>,
    pub stage: Stage,
    /// How it ended.
    pub end: Option<Result<Exit, ExitError>>,
}

/// What a `Guarded` stands for.
pub struct GuardView {
    pub setup: Setup,
    pub files: Seq<FileView>,
    pub stage: Stage,
    pub end: Option<Result<Exit, ErrorView>>,
}

/// How a change ended.
pub open spec fn end_view(end: Option<Result<Exit, ExitError>>) -> Option<Result<Exit, ErrorView>> {
    match end {
        Some(Ok(exit)) => Some(Ok(exit)),
        Some(Err(e)) => Some(Err(e@)),
        None => None,
    }
}

impl View for Guarded {
    type V = GuardView;

    open spec fn view(&self) -> GuardView {
        GuardView {
            setup: self.setup,
            files: views(self.files@),
            stage: self.stage,
            end: end_view(self.end),
        }
    }
}

/// Whether the policy lets a change pass.
pub open spec fn passes(policy: PolicyView, place: Place, keys: Seq<BlockView>) -> Result<
    (),
    ErrorView,
> {
    match place {
        Place::Live => denial(policy, keys, 0),
        Place::Hive => hive_denial(policy, keys, 0),
    }
}

/// Whether the policy lets the changes from `i` on pass; the first refusal.
pub open spec fn all_pass(
    policy: PolicyView,
    place: Place,
    files: Seq<FileView>,
    i: int,
) -> Result<(), ErrorView>
    decreases files.len() - i,
{
    if i >= files.len() {
        Ok(())
    } else {
        match passes(policy, place, files[i].keys) {
            Err(e) => Err(e),
            Ok(_) => all_pass(policy, place, files, i + 1),
        }
    }
}

fn check_all(policy: &Policy, place: Place, files: &Vec<RegFile>) -> (r: Result<(), ExitError>)
    ensures
        done_result(r) == all_pass(policy@, place, views(files@), 0),
{
    let ghost all = views(files@);
    for i in 0..files.len()
        invariant
            all == views(files@),
            all_pass(policy@, place, all, 0) == all_pass(policy@, place, all, i as int),
    {
        assert(all[i as int] == files@[i as int]@);
        let r = match place {
            Place::Live => enforce_denies(policy, &files[i]),
            Place::Hive => enforce_hive_denies(policy, &files[i]),
        };
        if let Err(e) = r {
            return Err(e);
        }
    }
    Ok(())
}

impl Setup {
    /// The stage after the answer.
    pub open spec fn after_answer(self) -> Stage {
        if self.keeps_undo && !self.dry_run {
            Stage::SaveUndo
        } else {
            Stage::OpenLog
        }
    }

    /// Whether the change has to be confirmed.
    pub open spec fn asks(self) -> bool {
        confirmation_of(self.dry_run, self.yes, self.require_confirm) != Confirmation::Proceed
    }

    /// The stage after everything was read.
    pub open spec fn after_snapshot(self) -> Stage {
        if self.asks() {
            Stage::Ask
        } else {
            self.after_answer()
        }
    }

    /// The stage after the deletions are known.
    pub open spec fn after_reconcile(self) -> Stage {
        if self.keeps_undo {
            Stage::Snapshot
        } else {
            self.after_snapshot()
        }
    }

    /// The stage after the policy let the change pass.
    pub open spec fn after_checks(self) -> Stage {
        if self.reconciles {
            Stage::Reconcile
        } else {
            self.after_reconcile()
        }
    }

    fn to_answered(self) -> (r: Stage)
        ensures
            r == self.after_answer(),
    {
        if self.keeps_undo && !self.dry_run {
            Stage::SaveUndo
        } else {
            Stage::OpenLog
        }
    }

    fn to_snapshotted(self) -> (r: Stage)
        ensures
            r == self.after_snapshot(),
    {
        match confirmation(self.dry_run, self.yes, self.require_confirm) {
            Confirmation::Proceed => self.to_answered(),
            _ => Stage::Ask,
        }
    }

    fn to_reconciled(self) -> (r: Stage)
        ensures
            r == self.after_reconcile(),
    {
        if self.keeps_undo {
            Stage::Snapshot
        } else {
            self.to_snapshotted()
        }
    }
}

impl GuardView {
    /// The change, at another stage.
    pub open spec fn at(self, stage: Stage) -> GuardView {
        GuardView { stage, ..self }
    }

    /// The change, over.
    pub open spec fn ended(self, end: Result<Exit, ErrorView>) -> GuardView {
        GuardView { stage: Stage::Done, end: Some(end), ..self }
    }

    /// The change after a stage. What does not belong to the stage changes
    /// nothing.
    pub open spec fn after(self, policy: PolicyView, event: EventView) -> GuardView {
        match (self.stage, event) {
            (Stage::Reconcile, EventView::Reconciled(None)) => self.ended(Ok(Exit::Partial)),
            (Stage::Reconcile, EventView::Reconciled(Some(files))) => {
                let next = GuardView { files, ..self };
                match all_pass(policy, self.setup.place, files, 0) {
                    Err(e) => next.ended(Err(e)),
                    Ok(_) => next.at(self.setup.after_reconcile()),
                }
            },
            (Stage::Snapshot, EventView::Snapshotted(complete)) => if complete {
                self.at(self.setup.after_snapshot())
            } else {
                self.ended(Ok(self.setup.unread_exit))
            },
            (Stage::Ask, EventView::Answered(yes)) => if yes {
                self.at(self.setup.after_answer())
            } else {
                self.ended(Ok(Exit::Success))
            },
            (Stage::SaveUndo, EventView::Saved(r)) => match r {
                None => self.at(Stage::OpenLog),
                Some(m) => self.ended(Err(plain_error(m))),
            },
            (Stage::OpenLog, EventView::Logged(r)) => match r {
                None => self.at(Stage::Change),
                Some(m) => self.ended(Err(plain_error(m))),
            },
            (Stage::Change, EventView::Changed(exit)) => self.ended(Ok(exit)),
            _ => self,
        }
    }
}

/// A change at its beginning. A change that the policy denies is over at once.
pub open spec fn begun(policy: PolicyView, setup: Setup, files: Seq<FileView>) -> GuardView {
    let g = GuardView { setup, files, stage: setup.after_checks(), end: None };
    match all_pass(policy, setup.place, files, 0) {
        Err(e) => g.ended(Err(e)),
        Ok(_) => g,
    }
}

impl Guarded {
    /// Begins a change with what is wanted in every view. It is held against the
    /// policy before anything else.
    pub fn begin(policy: &Policy, setup: Setup, files: Vec<RegFile>) -> (r: Guarded)
        ensures
            r@ == begun(policy@, setup, views(files@)),
    {
        match check_all(policy, setup.place, &files) {
            Err(e) => Guarded { setup, files, stage: Stage::Done, end: Some(Err(e)) },
            Ok(_) => {
                let stage = if setup.reconciles {
                    Stage::Reconcile
                } else {
                    setup.to_reconciled()
                };
                Guarded { setup, files, stage, end: None }
            },
        }
    }

    fn finish(&mut self, end: Result<Exit, ExitError>)
        ensures
            final(self)@ == old(self)@.ended(
                match end {
                    Ok(exit) => Ok(exit),
                    Err(e) => Err(e@),
                },
            ),
    {
        self.stage = Stage::Done;
        self.end = Some(end);
    }

    /// Records what came of a stage. The deletions that were found are held
    /// against the policy, too.
    pub fn record(&mut self, policy: &Policy, event: Event)
        ensures
            final(self)@ == old(self)@.after(policy@, event@),
    {
        let setup = self.setup;
        match (self.stage, event) {
            (Stage::Reconcile, Event::Reconciled(found)) => match found {
                None => self.finish(Ok(Exit::Partial)),
                Some(files) => {
                    let checked = check_all(policy, setup.place, &files);
                    self.files = files;
                    match checked {
                        Err(e) => self.finish(Err(e)),
                        Ok(_) => {
                            self.stage = setup.to_reconciled();
                        },
                    }
                },
            },
            (Stage::Snapshot, Event::Snapshotted(complete)) => if complete {
                self.stage = setup.to_snapshotted();
            } else {
                self.finish(Ok(setup.unread_exit));
            },
            (Stage::Ask, Event::Answered(yes)) => if yes {
                self.stage = setup.to_answered();
            } else {
                self.finish(Ok(Exit::Success));
            },
            (Stage::SaveUndo, Event::Saved(r)) => match r {
                Ok(_) => {
                    self.stage = Stage::OpenLog;
                },
                Err(m) => self.finish(Err(failed(m))),
            },
            (Stage::OpenLog, Event::Logged(r)) => match r {
                Ok(_) => {
                    self.stage = Stage::Change;
                },
                Err(m) => self.finish(Err(failed(m))),
            },
            (Stage::Change, Event::Changed(exit)) => self.finish(Ok(exit)),
            _ => {},
        }
    }
}

// ---------------------------------------------------------------------------
// Laws
// ---------------------------------------------------------------------------

/// The change after a number of events.
pub open spec fn reached(policy: PolicyView, g: GuardView, events: Seq<EventView>) -> GuardView
    decreases events.len(),
{
    if events.len() == 0 {
        g
    } else {
        reached(policy, g, events.drop_last()).after(policy, events.last())
    }
}

/// What must have happened before a stage.
pub open spec fn prepared(g: GuardView, policy: PolicyView, events: Seq<EventView>) -> bool {
    let s = g.setup;
    &&& g.stage != Stage::Done ==> all_pass(policy, s.place, g.files, 0) is Ok
    &&& s.reconciles && !(g.stage == Stage::Reconcile || g.stage == Stage::Done) ==> events.contains(
        EventView::Reconciled(Some(g.files)),
    )
    &&& s.keeps_undo && (g.stage == Stage::Ask || g.stage == Stage::SaveUndo || g.stage
        == Stage::OpenLog || g.stage == Stage::Change) ==> events.contains(
        EventView::Snapshotted(true),
    )
    &&& s.asks() && (g.stage == Stage::SaveUndo || g.stage == Stage::OpenLog || g.stage
        == Stage::Change) ==> events.contains(EventView::Answered(true))
    &&& s.keeps_undo && !s.dry_run && (g.stage == Stage::OpenLog || g.stage == Stage::Change)
        ==> events.contains(EventView::Saved(None))
    &&& g.stage == Stage::Change ==> events.contains(EventView::Logged(None))
    &&& g.stage == Stage::Ask ==> s.asks()
    &&& g.stage == Stage::SaveUndo ==> s.keeps_undo && !s.dry_run
    &&& g.stage == Stage::Snapshot ==> s.keeps_undo
}

/// Every stage is prepared for: at any time a change that goes on is one that
/// the policy lets pass, deletions included; it is asked for only after what is
/// there was read in full; what was there is written down only after the answer;
/// and the change is made only when all of this is done and the log is open.
pub proof fn changes_are_guarded(
    policy: PolicyView,
    setup: Setup,
    files: Seq<FileView>,
    events: Seq<EventView>,
)
    ensures
        reached(policy, begun(policy, setup, files), events).setup == setup,
        prepared(reached(policy, begun(policy, setup, files), events), policy, events),
    decreases events.len(),
{
    let g = begun(policy, setup, files);
    if events.len() > 0 {
        let front = events.drop_last();
        let e = events.last();
        changes_are_guarded(policy, setup, files, front);
        assert(events == front.push(e));
        assert forall|x: EventView| front.contains(x) implies events.contains(x) by {
            let i = choose|i: int| 0 <= i < front.len() && front[i] == x;
            assert(events[i] == x);
        }
        assert(events[events.len() - 1] == e);
        assert(events.contains(e));
    }
}

/// What has ended stays as it ended: nothing is asked, written or changed after
/// a refusal, a declined question or a failure.
pub proof fn ended_changes_stay_ended(policy: PolicyView, g: GuardView, events: Seq<EventView>)
    requires
        g.stage == Stage::Done,
    ensures
        reached(policy, g, events) == g,
    decreases events.len(),
{
    if events.len() > 0 {
        ended_changes_stay_ended(policy, g, events.drop_last());
    }
}

/// A change that the policy denies ends with that refusal, whatever happens:
/// nothing is read, asked, written or changed for it.
pub proof fn denied_changes_do_nothing(
    policy: PolicyView,
    setup: Setup,
    files: Seq<FileView>,
    events: Seq<EventView>,
)
    requires
        all_pass(policy, setup.place, files, 0) is Err,
    ensures
        ({
            let g = reached(policy, begun(policy, setup, files), events);
            g.stage == Stage::Done && g.end == Some(
                Err::<Exit, ErrorView>(all_pass(policy, setup.place, files, 0)->Err_0),
            )
        }),
{
    ended_changes_stay_ended(policy, begun(policy, setup, files), events);
}

/// A declined change ends without an error and leaves everything as it was.
pub proof fn declined_changes_do_nothing(policy: PolicyView, g: GuardView, events: Seq<EventView>)
    requires
        g.stage == Stage::Ask,
    ensures
        ({
            let r = reached(policy, g.after(policy, EventView::Answered(false)), events);
            r.stage == Stage::Done && r.end == Some(Ok::<Exit, ErrorView>(Exit::Success))
        }),
{
    ended_changes_stay_ended(policy, g.after(policy, EventView::Answered(false)), events);
}

} // verus!
