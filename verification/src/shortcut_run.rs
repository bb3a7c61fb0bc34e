//! The way of a change of shortcuts: asking, logging and writing, in this order.
use vstd::prelude::*;

use crate::exit::{access_denied, denied_error, failed, plain_error, ErrorView, Exit, ExitError};
use crate::guard::{end_view, problem_of};
use crate::text::{copy_opt, opt_text};

verus! {

/// What is done with shortcuts.
#[derive(Clone, Copy, Debug, PartialEq, Eq, Structural)]
pub enum LinkChange {
    Create,
    Delete,
    /// All actions of a manifest.
    Manifest,
}

/// What has to be done next.
#[derive(Clone, Copy, Debug, PartialEq, Eq, Structural)]
pub enum LinkStage {
    Ask,
    OpenLog,
    /// Record and tell what would be done.
    Rehearse,
    Write,
    /// Record and tell what was done.
    Report,
    Done,
}

/// What came of a stage.
#[derive(Debug)]
pub enum LinkEvent {
    Answered(bool),
    Logged(Result<(), String>),
    Written(Result<(), String>),
    /// What there was to tell was told, or could not be found out.
    Told(Result<(), String>),
}

/// What a `LinkEvent` stands for.
pub enum LinkEventView {
    Answered(bool),
    /// Whether it failed, and why.
    Logged(Option<Seq<char>>),
    Written(Option<Seq<char>>),
    Told(Option<Seq<char>>),
}

impl View for LinkEvent {
    type V = LinkEventView;

    open spec fn view(&self) -> LinkEventView {
        match self {
            LinkEvent::Answered(yes) => LinkEventView::Answered(*yes),
            LinkEvent::Logged(r) => LinkEventView::Logged(problem_of(*r)),
            LinkEvent::Written(r) => LinkEventView::Written(problem_of(*r)),
            LinkEvent::Told(r) => LinkEventView::Told(problem_of(*r)),
        }
    }
}

/// A change of shortcuts on its way. The caller does what `stage` says and
/// records what came of it.
#[derive(Debug)]
pub struct LinkRun {
    pub change: LinkChange,
    pub dry_run: bool,
    pub stage: LinkStage,
    /// How it ended.
    pub end: Option<Result<Exit, ExitError>>,
}

/// What a `LinkRun` stands for.
pub struct LinkRunView {
    pub change: LinkChange,
    pub dry_run: bool,
    pub stage: LinkStage,
    pub end: Option<Result<Exit, ErrorView>>,
}

impl View for LinkRun {
    type V = LinkRunView;

    open spec fn view(&self) -> LinkRunView {
        LinkRunView {
            change: self.change,
            dry_run: self.dry_run,
            stage: self.stage,
            end: end_view(self.end),
        }
    }
}

/// What is said where a change is not confirmed.
pub open spec fn unconfirmed(change: LinkChange) -> Seq<char> {
    match change {
        LinkChange::Create => "shortcut creation was not confirmed"@,
        LinkChange::Delete => "shortcut deletion was not confirmed"@,
        LinkChange::Manifest => "shortcut manifest was not confirmed"@,
    }
}

/// A change has to be confirmed.
pub open spec fn asks(dry_run: bool, yes: bool, require_confirm: bool) -> bool {
    !dry_run && (!yes || require_confirm)
}

/// A change at its beginning.
pub open spec fn link_begun(
    change: LinkChange,
    dry_run: bool,
    yes: bool,
    require_confirm: bool,
) -> LinkRunView {
    LinkRunView {
        change,
        dry_run,
        stage: if asks(dry_run, yes, require_confirm) {
            LinkStage::Ask
        } else {
            LinkStage::OpenLog
        },
        end: None,
    }
}

impl LinkRunView {
    /// The change, at another stage.
    pub open spec fn at(self, stage: LinkStage) -> LinkRunView {
        LinkRunView { stage, ..self }
    }

    /// The change, over.
    pub open spec fn ended(self, end: Result<Exit, ErrorView>) -> LinkRunView {
        LinkRunView { stage: LinkStage::Done, end: Some(end), ..self }
    }

    /// The change after a stage. What does not belong to the stage changes
    /// nothing.
    pub open spec fn after(self, event: LinkEventView) -> LinkRunView {
        match (self.stage, event) {
            (LinkStage::Ask, LinkEventView::Answered(yes)) => if yes {
                self.at(LinkStage::OpenLog)
            } else {
                self.ended(Err(denied_error(unconfirmed(self.change))))
            },
            (LinkStage::OpenLog, LinkEventView::Logged(None)) => self.at(
                if self.dry_run {
                    LinkStage::Rehearse
                } else {
                    LinkStage::Write
                },
            ),
            (LinkStage::OpenLog, LinkEventView::Logged(Some(m))) => self.ended(Err(plain_error(m))),
            (LinkStage::Write, LinkEventView::Written(None)) => self.at(LinkStage::Report),
            (LinkStage::Write, LinkEventView::Written(Some(m))) => self.ended(Err(plain_error(m))),
            (LinkStage::Rehearse, LinkEventView::Told(None)) => self.ended(Ok(Exit::Success)),
            (LinkStage::Rehearse, LinkEventView::Told(Some(m))) => self.ended(Err(plain_error(m))),
            (LinkStage::Report, LinkEventView::Told(None)) => self.ended(Ok(Exit::Success)),
            (LinkStage::Report, LinkEventView::Told(Some(m))) => self.ended(Err(plain_error(m))),
            _ => self,
        }
    }
}

impl LinkRun {
    /// Begins a change that was prepared.
    pub fn begin(change: LinkChange, dry_run: bool, yes: bool, require_confirm: bool) -> (r: LinkRun)
        ensures
            r@ == link_begun(change, dry_run, yes, require_confirm),
    {
        let stage = if !dry_run && (!yes || require_confirm) {
            LinkStage::Ask
        } else {
            LinkStage::OpenLog
        };
        LinkRun { change, dry_run, stage, end: None }
    }

    fn finish(&mut self, end: Result<Exit, ExitError>)
        ensures
            final(self)@ == old(self)@.ended(
                match end {
                    Ok(exit) => Ok(exit),
                    Err(e) => Err(e@),
                },
            ),
    {
        self.stage = LinkStage::Done;
        self.end = Some(end);
    }

    /// Records what came of a stage.
    pub fn record(&mut self, event: LinkEvent)
        ensures
            final(self)@ == old(self)@.after(event@),
    {
        match (self.stage, event) {
            (LinkStage::Ask, LinkEvent::Answered(yes)) => if yes {
                self.stage = LinkStage::OpenLog;
            } else {
                let words = match self.change {
                    LinkChange::Create => "shortcut creation was not confirmed",
                    LinkChange::Delete => "shortcut deletion was not confirmed",
                    LinkChange::Manifest => "shortcut manifest was not confirmed",
                };
                self.finish(Err(access_denied(words.to_owned())));
            },
            (LinkStage::OpenLog, LinkEvent::Logged(r)) => match r {
                Ok(_) => {
                    self.stage = if self.dry_run {
                        LinkStage::Rehearse
                    } else {
                        LinkStage::Write
                    };
                },
                Err(m) => self.finish(Err(failed(m))),
            },
            (LinkStage::Write, LinkEvent::Written(r)) => match r {
                Ok(_) => {
                    self.stage = LinkStage::Report;
                },
                Err(m) => self.finish(Err(failed(m))),
            },
            (LinkStage::Rehearse, LinkEvent::Told(r)) => match r {
                Ok(_) => self.finish(Ok(Exit::Success)),
                Err(m) => self.finish(Err(failed(m))),
            },
            (LinkStage::Report, LinkEvent::Told(r)) => match r {
                Ok(_) => self.finish(Ok(Exit::Success)),
                Err(m) => self.finish(Err(failed(m))),
            },
            _ => {},
        }
    }
}

/// What is recorded of a shortcut in the log.
#[derive(Debug)]
pub struct LinkRecord {
    pub before: Option<String>,
    pub after: Option<String>,
    /// Nothing was written.
    pub simulated: bool,
    pub detail: Option<&'static str>,
}

/// What is recorded of a shortcut: the digests before and after, of which a
/// rehearsal has only the first.
pub fn link_record(before: &Option<String>, after: &Option<String>, dry_run: bool) -> (r: LinkRecord)
    ensures
        opt_text(r.before) == opt_text(*before),
        opt_text(r.after) == (if dry_run {
            None
        } else {
            opt_text(*after)
        }),
        r.simulated == dry_run,
        dry_run ==> r.detail is Some && r.detail->0@ == "dry-run"@,
        !dry_run ==> r.detail is None,
{
    if dry_run {
        LinkRecord { before: copy_opt(before), after: None, simulated: true, detail: Some("dry-run") }
    } else {
        LinkRecord { before: copy_opt(before), after: copy_opt(after), simulated: false, detail: None }
    }
}

// ---------------------------------------------------------------------------
// Laws
// ---------------------------------------------------------------------------

/// The change after a number of events.
pub open spec fn link_reached(g: LinkRunView, events: Seq<LinkEventView>) -> LinkRunView
    decreases events.len(),
{
    if events.len() == 0 {
        g
    } else {
        link_reached(g, events.drop_last()).after(events.last())
    }
}

/// Shortcuts are written only when the question, where it has to be asked, was
/// answered with yes and the log is open, and never in a rehearsal.
pub proof fn shortcuts_are_written_last(
    change: LinkChange,
    dry_run: bool,
    yes: bool,
    require_confirm: bool,
    events: Seq<LinkEventView>,
)
    ensures
        ({
            let g = link_reached(link_begun(change, dry_run, yes, require_confirm), events);
            let writes = g.stage == LinkStage::Write || g.stage == LinkStage::Report;
            &&& g.change == change
            &&& g.dry_run == dry_run
            &&& writes ==> !dry_run
            &&& writes || g.stage == LinkStage::Rehearse ==> events.contains(
                LinkEventView::Logged(None),
            )
            &&& writes || g.stage == LinkStage::Rehearse || g.stage == LinkStage::OpenLog ==> (asks(
                dry_run,
                yes,
                require_confirm,
            ) ==> events.contains(LinkEventView::Answered(true)))
        }),
    decreases events.len(),
{
    if events.len() > 0 {
        let front = events.drop_last();
        let e = events.last();
        shortcuts_are_written_last(change, dry_run, yes, require_confirm, front);
        assert forall|x: LinkEventView| front.contains(x) implies events.contains(x) by {
            let i = choose|i: int| 0 <= i < front.len() && front[i] == x;
            assert(events[i] == x);
        }
        assert(events[events.len() - 1] == e);
        assert(events.contains(e));
    }
}

/// What has ended stays as it ended: after a declined question or a failure
/// nothing is written.
pub proof fn ended_shortcut_changes_stay_ended(g: LinkRunView, events: Seq<LinkEventView>)
    requires
        g.stage == LinkStage::Done,
    ensures
        link_reached(g, events) == g,
    decreases events.len(),
{
    if events.len() > 0 {
        ended_shortcut_changes_stay_ended(g, events.drop_last());
    }
}

} // verus!
