//! Operations that are applied to several registry views as one.
use vstd::prelude::*;

use crate::apply::ApplyReport;
use crate::exit::Exit;

verus! {

/// What is to be done next.
#[derive(Clone, Copy, Debug, PartialEq, Eq, Structural)]
pub enum BatchStep {
    /// Apply an operation to a view.
    Apply { operation: usize, view: usize },
    /// Restore a view.
    Rollback { view: usize },
    Finish,
}

/// A batch that is being applied. The caller does what `next` asks for and
/// reports back.
#[derive(Debug)]
pub struct Batch {
    skipped: Vec<bool>,
    views: usize,
    dry_run: bool,
    operation: usize,
    view: usize,
    touched: Vec<bool>,
    failed_at: Option<usize>,
    undone: Vec<usize>,
    /// The views at this position and behind it need no more restoring.
    restore_below: usize,
    rollback_failed: bool,
}

/// What a `Batch` stands for.
pub struct BatchView {
    /// The operations that have nothing to apply.
    pub skipped: Seq<bool>,
    /// The number of views.
    pub views: nat,
    pub dry_run: bool,
    /// The operation, or a skipped one before it, and the view that come next.
    pub operation: int,
    pub view: int,
    /// The views in which something was changed.
    pub touched: Seq<bool>,
    /// The operation that failed.
    pub failed_at: Option<int>,
    /// The views that were restored so far.
    pub undone: Seq<int>,
    /// Restoring some view failed.
    pub rollback_failed: bool,
}

/// An optional position as a number.
pub open spec fn opt_int(i: Option<usize>) -> Option<int> {
    match i {
        Some(n) => Some(n as int),
        None => None,
    }
}

/// The first operation from `i` on that is not skipped, or the number of
/// operations.
pub open spec fn next_operation(skipped: Seq<bool>, i: int) -> int
    decreases skipped.len() - i,
{
    if i < skipped.len() && skipped[i] {
        next_operation(skipped, i + 1)
    } else {
        i
    }
}

/// The touched views before position `n`, the last first.
pub open spec fn touched_before(touched: Seq<bool>, n: int) -> Seq<int>
    decreases n,
{
    if n <= 0 {
        Seq::empty()
    } else if touched[n - 1] {
        seq![n - 1] + touched_before(touched, n - 1)
    } else {
        touched_before(touched, n - 1)
    }
}

impl BatchView {
    /// The views that have to be restored, in order: after a failure every
    /// touched one, the last first. A dry run changed nothing.
    pub open spec fn to_restore(self) -> Seq<int> {
        if self.failed_at is Some && !self.dry_run {
            touched_before(self.touched, self.views as int)
        } else {
            Seq::empty()
        }
    }

    /// What is to be done next: every operation that is not skipped in every
    /// view, in order, until one fails; then what has to be restored.
    pub open spec fn step(self) -> BatchStep {
        if self.failed_at is Some {
            if self.undone.len() < self.to_restore().len() {
                BatchStep::Rollback { view: self.to_restore()[self.undone.len() as int] as usize }
            } else {
                BatchStep::Finish
            }
        } else {
            let op = next_operation(self.skipped, self.operation);
            if op < self.skipped.len() {
                BatchStep::Apply { operation: op as usize, view: self.view as usize }
            } else {
                BatchStep::Finish
            }
        }
    }

    /// The batch after an operation in a view, in which it changed something or
    /// failed, or both.
    pub open spec fn after_apply(self, changed: bool, failed: bool) -> BatchView {
        let op = next_operation(self.skipped, self.operation);
        let noted = BatchView {
            operation: op,
            touched: self.touched.update(self.view, self.touched[self.view] || changed),
            ..self
        };
        if failed {
            BatchView { failed_at: Some(op), ..noted }
        } else if self.view + 1 < self.views {
            BatchView { view: self.view + 1, ..noted }
        } else {
            BatchView { operation: op + 1, view: 0, ..noted }
        }
    }

    /// The batch after the next view was restored, or could not be in full.
    pub open spec fn after_restore(self, failed: bool) -> BatchView {
        BatchView {
            undone: self.undone.push(self.to_restore()[self.undone.len() as int]),
            rollback_failed: self.rollback_failed || failed,
            ..self
        }
    }

    /// What was restored is the beginning of what has to be.
    pub open spec fn valid(self) -> bool {
        &&& 0 <= self.view < self.views
        &&& 0 <= self.operation <= self.skipped.len()
        &&& self.touched.len() == self.views
        &&& self.view > 0 ==> self.operation < self.skipped.len() && !self.skipped[self.operation]
        &&& self.failed_at matches Some(f) ==> f == self.operation && f < self.skipped.len()
            && !self.skipped[f]
        &&& self.undone.len() <= self.to_restore().len()
        &&& self.undone == self.to_restore().take(self.undone.len() as int)
        &&& self.undone.len() == 0 ==> !self.rollback_failed
    }
}

/// A batch at its beginning.
pub open spec fn batch_begun(skipped: Seq<bool>, views: nat, dry_run: bool) -> BatchView {
    BatchView {
        skipped,
        views,
        dry_run,
        operation: 0,
        view: 0,
        touched: Seq::new(views, |i: int| false),
        failed_at: None,
        undone: Seq::empty(),
        rollback_failed: false,
    }
}

impl View for Batch {
    type V = BatchView;

    closed spec fn view(&self) -> BatchView {
        BatchView {
            skipped: self.skipped@,
            views: self.views as nat,
            dry_run: self.dry_run,
            operation: self.operation as int,
            view: self.view as int,
            touched: self.touched@,
            failed_at: opt_int(self.failed_at),
            undone: self.undone@.map_values(|i: usize| i as int),
            rollback_failed: self.rollback_failed,
        }
    }
}

proof fn next_operation_bounds(skipped: Seq<bool>, i: int)
    requires
        0 <= i <= skipped.len(),
    ensures
        i <= next_operation(skipped, i) <= skipped.len(),
        next_operation(skipped, i) < skipped.len() ==> !skipped[next_operation(skipped, i)],
        forall|j: int| i <= j < next_operation(skipped, i) ==> skipped[j],
    decreases skipped.len() - i,
{
    if i < skipped.len() && skipped[i] {
        next_operation_bounds(skipped, i + 1);
    }
}

proof fn touched_before_is_below(touched: Seq<bool>, n: int)
    ensures
        forall|k: int|
            0 <= k < touched_before(touched, n).len() ==> 0 <= (#[trigger] touched_before(
                touched,
                n,
            )[k]) < n && touched[touched_before(touched, n)[k]],
    decreases n,
{
    if n > 0 {
        touched_before_is_below(touched, n - 1);
        let all = touched_before(touched, n);
        let rest = touched_before(touched, n - 1);
        assert forall|k: int| 0 <= k < all.len() implies 0 <= (#[trigger] all[k]) < n
            && touched[all[k]] by {
            if touched[n - 1] {
                if k > 0 {
                    assert(all[k] == rest[k - 1]);
                }
            } else {
                assert(all[k] == rest[k]);
            }
        }
    }
}

/// What has to be restored begins with its first view; the rest lies below.
proof fn restore_tail(touched: Seq<bool>, n: int, first: int)
    requires
        n >= 0,
        touched_before(touched, n).len() > 0,
        touched_before(touched, n)[0] == first,
    ensures
        touched_before(touched, n) == seq![first] + touched_before(touched, first),
    decreases n,
{
    if n > 0 {
        if touched[n - 1] {
            assert(touched_before(touched, n)[0] == n - 1);
        } else {
            restore_tail(touched, n - 1, first);
        }
    }
}

impl Batch {
    /// The views at and behind `restore_below` are settled.
    closed spec fn settled(&self) -> bool {
        self.failed_at is Some && !self.dry_run ==> self.restore_below <= self.views
            && self@.to_restore() == self@.undone + touched_before(
            self.touched@,
            self.restore_below as int,
        )
    }

    /// The state is one that a batch can be in.
    pub closed spec fn wf(&self) -> bool {
        self@.valid() && self.settled() && (self.failed_at is None ==> self.undone@.len() == 0)
    }

    /// A batch of operations on a number of views.
    pub fn start(skipped: Vec<bool>, views: usize, dry_run: bool) -> (r: Batch)
        requires
            views > 0,
        ensures
            r.wf(),
            r@.valid(),
            r@ == batch_begun(skipped@, views as nat, dry_run),
    {
        let mut touched: Vec<bool> = Vec::new();
        for i in 0..views
            invariant
                touched@ =~= Seq::new(i as nat, |j: int| false),
        {
            touched.push(false);
        }
        let r = Batch {
            skipped,
            views,
            dry_run,
            operation: 0,
            view: 0,
            touched,
            failed_at: None,
            undone: Vec::new(),
            restore_below: views,
            rollback_failed: false,
        };
        assert(r@.undone =~= Seq::<int>::empty());
        assert(r@.undone =~= r@.to_restore().take(0));
        r
    }

    /// What is to be done next.
    pub fn next(&self) -> (r: BatchStep)
        requires
            self.wf(),
        ensures
            r == self@.step(),
    {
        if self.failed_at.is_some() {
            if self.dry_run {
                return BatchStep::Finish;
            }
            let ghost done = self@.undone;
            let ghost all = self@.to_restore();
            let mut n: usize = self.restore_below;
            while n > 0
                invariant
                    self.wf(),
                    n <= self.views,
                    self.touched@.len() == self.views,
                    self.failed_at is Some,
                    !self.dry_run,
                    done == self@.undone,
                    all == self@.to_restore(),
                    all == done + touched_before(self.touched@, n as int),
                decreases n,
            {
                if self.touched[n - 1] {
                    proof {
                        let tail = touched_before(self.touched@, n as int);
                        assert(tail[0] == n - 1);
                        assert(all[done.len() as int] == tail[0]);
                    }
                    return BatchStep::Rollback { view: n - 1 };
                }
                n -= 1;
            }
            assert(all =~= done);
            return BatchStep::Finish;
        }
        let mut op: usize = self.operation;
        while op < self.skipped.len() && self.skipped[op]
            invariant
                op <= self.skipped@.len(),
                next_operation(self.skipped@, self.operation as int) == next_operation(
                    self.skipped@,
                    op as int,
                ),
            decreases self.skipped@.len() - op,
        {
            op += 1;
        }
        if op < self.skipped.len() {
            BatchStep::Apply { operation: op, view: self.view }
        } else {
            BatchStep::Finish
        }
    }

    /// Records what became of an operation in a view.
    pub fn applied(&mut self, report: &ApplyReport)
        requires
            old(self).wf(),
            old(self)@.step() is Apply,
        ensures
            final(self).wf(),
            final(self)@.valid(),
            final(self)@ == old(self)@.after_apply(report.changed(), report.failed()),
    {
        let ghost before = self@;
        proof {
            assert(self.skipped.len() <= usize::MAX);
            next_operation_bounds(self.skipped@, self.operation as int);
        }
        let step = self.next();
        assert(step is Apply ==> step->operation < self.skipped.len() && step->Apply_view == before.view);
        if let BatchStep::Apply { operation, view } = step {
            let changed = self.touched[view] || report.touched();
            self.touched.set(view, changed);
            self.operation = operation;
            self.restore_below = self.views;
            if report.has_failures() {
                self.failed_at = Some(operation);
            } else if view + 1 < self.views {
                self.view = view + 1;
            } else {
                self.view = 0;
                self.operation = operation + 1;
            }
            proof {
                assert(self.undone@.len() == 0);
                assert(self@.undone =~= Seq::<int>::empty());
                assert(self@.undone == before.undone);
                assert(self@.undone =~= self@.to_restore().take(0));
                assert(self@.undone + self@.to_restore() =~= self@.to_restore());
            }
        }
    }

    /// Records what became of restoring a view.
    pub fn restored(&mut self, report: &ApplyReport)
        requires
            old(self).wf(),
            old(self)@.step() is Rollback,
        ensures
            final(self).wf(),
            final(self)@.valid(),
            final(self)@ == old(self)@.after_restore(report.failed()),
    {
        let step = self.next();
        if let BatchStep::Rollback { view } = step {
            let ghost before = self@;
            let ghost all = before.to_restore();
            let ghost k = before.undone.len() as int;
            proof {
                touched_before_is_below(self.touched@, self.views as int);
                assert(all[k] == view as int);
                assert(touched_before(self.touched@, self.restore_below as int)[0] == view as int);
                restore_tail(self.touched@, self.restore_below as int, view as int);
            }
            self.undone.push(view);
            self.restore_below = view;
            self.rollback_failed = self.rollback_failed || report.has_failures();
            proof {
                assert(self@.undone =~= before.undone.push(view as int));
                assert(self@.to_restore() == all);
                assert(all.take(k + 1) =~= all.take(k).push(all[k]));
                assert(self@.undone + touched_before(self.touched@, view as int) =~= all);
            }
        }
    }

    /// How the batch stands: the operation that failed, and whether restoring
    /// some view failed.
    pub fn failure(&self) -> (r: (Option<usize>, bool))
        ensures
            opt_int(r.0) == self@.failed_at,
            r.1 == self@.rollback_failed,
    {
        (self.failed_at, self.rollback_failed)
    }
}

// ---------------------------------------------------------------------------
// Laws
// ---------------------------------------------------------------------------

/// After a failure no operation is applied any more.
pub proof fn nothing_is_applied_after_a_failure(b: BatchView)
    requires
        b.failed_at is Some,
    ensures
        !(b.step() is Apply),
{
}

/// A skipped operation is never applied.
pub proof fn skipped_operations_stay_out(b: BatchView)
    requires
        b.valid(),
        b.skipped.len() <= usize::MAX,
    ensures
        b.step() matches BatchStep::Apply { operation, view } ==> operation < b.skipped.len()
            && !b.skipped[operation as int],
{
    next_operation_bounds(b.skipped, b.operation);
}

proof fn listed_iff_touched(touched: Seq<bool>, n: int, v: int)
    requires
        0 <= v < n,
    ensures
        touched_before(touched, n).contains(v) <==> touched[v],
    decreases n,
{
    let all = touched_before(touched, n);
    let rest = touched_before(touched, n - 1);
    touched_before_is_below(touched, n - 1);
    if v == n - 1 {
        if touched[v] {
            assert(all[0] == v);
        } else {
            assert(!rest.contains(v));
        }
    } else {
        listed_iff_touched(touched, n - 1, v);
        if touched[n - 1] {
            if rest.contains(v) {
                let k = choose|k: int| 0 <= k < rest.len() && rest[k] == v;
                assert(all[k + 1] == v);
            }
            if all.contains(v) {
                let k = choose|k: int| 0 <= k < all.len() && all[k] == v;
                assert(rest[k - 1] == v);
            }
        }
    }
}

/// When a failed batch for real is finished, exactly the views in which
/// something was changed were restored.
pub proof fn finished_batches_are_restored(b: BatchView, v: int)
    requires
        b.valid(),
        b.failed_at is Some,
        !b.dry_run,
        b.step() is Finish,
        0 <= v < b.views,
    ensures
        b.undone.contains(v) <==> b.touched[v],
{
    assert(b.undone =~= b.to_restore());
    listed_iff_touched(b.touched, b.views as int, v);
}

proof fn touched_before_descends(touched: Seq<bool>, n: int, i: int, j: int)
    requires
        0 <= i < j < touched_before(touched, n).len(),
    ensures
        touched_before(touched, n)[i] > touched_before(touched, n)[j],
    decreases n,
{
    let all = touched_before(touched, n);
    let rest = touched_before(touched, n - 1);
    if n > 0 {
        if touched[n - 1] {
            touched_before_is_below(touched, n - 1);
            assert(all[j] == rest[j - 1]);
            if i > 0 {
                touched_before_descends(touched, n - 1, i - 1, j - 1);
                assert(all[i] == rest[i - 1]);
            }
        } else {
            touched_before_descends(touched, n - 1, i, j);
        }
    }
}

/// Views are restored once each, the last first.
pub proof fn views_are_restored_in_reverse(b: BatchView, i: int, j: int)
    requires
        b.valid(),
        0 <= i < j < b.undone.len(),
    ensures
        b.undone[i] > b.undone[j],
{
    let all = b.to_restore();
    assert(b.undone[i] == all[i] && b.undone[j] == all[j]);
    touched_before_descends(b.touched, b.views as int, i, j);
}

/// A view is only restored where something was changed in it, and never in a dry
/// run.
pub proof fn only_touched_views_are_restored(b: BatchView, k: int)
    requires
        b.valid(),
        0 <= k < b.undone.len(),
    ensures
        0 <= b.undone[k] < b.views,
        b.touched[b.undone[k]],
        !b.dry_run,
        b.failed_at is Some,
{
    touched_before_is_below(b.touched, b.views as int);
    assert(b.undone[k] == b.to_restore()[k]);
}

/// What came of a step of a batch.
pub enum BatchEvent {
    Applied { changed: bool, failed: bool },
    Restored { failed: bool },
}

/// The batch after an event. What does not belong to the step changes nothing.
pub open spec fn batch_after(b: BatchView, e: BatchEvent) -> BatchView {
    match (b.step(), e) {
        (BatchStep::Apply { .. }, BatchEvent::Applied { changed, failed }) => b.after_apply(
            changed,
            failed,
        ),
        (BatchStep::Rollback { .. }, BatchEvent::Restored { failed }) => b.after_restore(failed),
        _ => b,
    }
}

/// The batch after a number of events.
pub open spec fn batch_reached(b: BatchView, events: Seq<BatchEvent>) -> BatchView
    decreases events.len(),
{
    if events.len() == 0 {
        b
    } else {
        batch_after(batch_reached(b, events.drop_last()), events.last())
    }
}

proof fn events_keep_valid(b: BatchView, e: BatchEvent)
    requires
        b.valid(),
        b.failed_at is None ==> b.undone.len() == 0,
    ensures
        batch_after(b, e).valid(),
        batch_after(b, e).failed_at is None ==> batch_after(b, e).undone.len() == 0,
        batch_after(b, e).skipped == b.skipped,
        batch_after(b, e).views == b.views,
        batch_after(b, e).dry_run == b.dry_run,
        forall|v: int| 0 <= v < b.views && b.touched[v] ==> #[trigger] batch_after(b, e).touched[v],
{
    next_operation_bounds(b.skipped, b.operation);
    let c = batch_after(b, e);
    match (b.step(), e) {
        (BatchStep::Apply { .. }, BatchEvent::Applied { .. }) => {
            assert(c.undone =~= c.to_restore().take(0));
        },
        (BatchStep::Rollback { .. }, BatchEvent::Restored { .. }) => {
            let all = b.to_restore();
            let k = b.undone.len() as int;
            assert(all.take(k + 1) =~= all.take(k).push(all[k]));
        },
        _ => {},
    }
}

/// However a batch goes, from its beginning to wherever it has come: where it
/// failed for real and is finished, every view in which some operation changed
/// something was restored, once, the last first, and no other was.
pub proof fn failed_batches_leave_nothing_behind(
    skipped: Seq<bool>,
    views: nat,
    dry_run: bool,
    events: Seq<BatchEvent>,
)
    requires
        views > 0,
    ensures
        ({
            let b = batch_reached(batch_begun(skipped, views, dry_run), events);
            &&& b.valid()
            &&& b.views == views
            &&& b.dry_run == dry_run
            &&& b.failed_at is Some && !dry_run && b.step() is Finish ==> {
                &&& forall|v: int|
                    0 <= v < views ==> (#[trigger] b.undone.contains(v) <==> b.touched[v])
                &&& forall|i: int, j: int|
                    0 <= i < j < b.undone.len() ==> (#[trigger] b.undone[i]) > (
                    #[trigger] b.undone[j])
            }
        }),
{
    let b = batch_reached(batch_begun(skipped, views, dry_run), events);
    runs_stay_valid(skipped, views, dry_run, events);
    if b.failed_at is Some && !dry_run && b.step() is Finish {
        assert forall|v: int| 0 <= v < views implies (#[trigger] b.undone.contains(v)
            <==> b.touched[v]) by {
            finished_batches_are_restored(b, v);
        }
        assert forall|i: int, j: int| 0 <= i < j < b.undone.len() implies (#[trigger] b.undone[i])
            > (#[trigger] b.undone[j]) by {
            views_are_restored_in_reverse(b, i, j);
        }
    }
}

proof fn runs_stay_valid(
    skipped: Seq<bool>,
    views: nat,
    dry_run: bool,
    events: Seq<BatchEvent>,
)
    requires
        views > 0,
    ensures
        ({
            let b = batch_reached(batch_begun(skipped, views, dry_run), events);
            &&& b.valid()
            &&& b.failed_at is None ==> b.undone.len() == 0
            &&& b.skipped == skipped
            &&& b.views == views
            &&& b.dry_run == dry_run
        }),
    decreases events.len(),
{
    if events.len() == 0 {
        let b = batch_begun(skipped, views, dry_run);
        assert(b.undone =~= b.to_restore().take(0));
    } else {
        runs_stay_valid(skipped, views, dry_run, events.drop_last());
        events_keep_valid(
            batch_reached(batch_begun(skipped, views, dry_run), events.drop_last()),
            events.last(),
        );
    }
}

/// Once something was changed in a view, the batch knows it to the end.
pub proof fn changes_are_not_forgotten(
    skipped: Seq<bool>,
    views: nat,
    dry_run: bool,
    events: Seq<BatchEvent>,
    n: int,
)
    requires
        views > 0,
        0 <= n < events.len(),
    ensures
        ({
            let start = batch_begun(skipped, views, dry_run);
            let past = batch_reached(start, events.take(n));
            let now = batch_reached(start, events);
            past.step() is Apply && events[n] is Applied && events[n]->changed
                ==> now.touched[past.view]
        }),
    decreases events.len(),
{
    let start = batch_begun(skipped, views, dry_run);
    let past = batch_reached(start, events.take(n));
    let front = events.drop_last();
    runs_stay_valid(skipped, views, dry_run, events.take(n));
    if n == events.len() - 1 {
        assert(events.take(n) =~= front);
    } else {
        assert(front.take(n) =~= events.take(n));
        changes_are_not_forgotten(skipped, views, dry_run, front, n);
        runs_stay_valid(skipped, views, dry_run, front);
        let b = batch_reached(start, front);
        events_keep_valid(b, events.last());
        assert(batch_after(b, events.last()).touched[past.view] == batch_reached(
            start,
            events,
        ).touched[past.view]);
    }
}

// ---------------------------------------------------------------------------
// Reports
// ---------------------------------------------------------------------------

/// What became of one operation.
#[derive(Debug)]
pub struct BatchOperationReport {
    pub id: String,
    pub attempted: bool,
    pub skipped: bool,
    /// The reports of the views that it was applied to.
    pub views: Vec<ApplyReport>,
}

/// Some view failed.
pub open spec fn any_failed(views: Seq<ApplyReport>) -> bool {
    exists|i: int| 0 <= i < views.len() && (#[trigger] views[i]).failed()
}

/// The status of an operation.
pub open spec fn status_of(
    report: BatchOperationReport,
    index: int,
    failed_at: Option<usize>,
    rollback_failed: bool,
    dry_run: bool,
) -> Seq<char> {
    if report.skipped {
        "skipped"@
    } else if !report.attempted {
        "notAttempted"@
    } else if dry_run {
        if any_failed(report.views@) {
            "failed"@
        } else {
            "planned"@
        }
    } else {
        match failed_at {
            None => "applied"@,
            Some(f) => if index <= f {
                if rollback_failed {
                    "rollbackFailed"@
                } else {
                    "rolledBack"@
                }
            } else {
                "notAttempted"@
            },
        }
    }
}

fn has_failed(views: &Vec<ApplyReport>) -> (b: bool)
    ensures
        b == any_failed(views@),
{
    for i in 0..views.len()
        invariant
            forall|j: int| 0 <= j < i ==> !(#[trigger] views@[j]).failed(),
    {
        if views[i].has_failures() {
            return true;
        }
    }
    false
}

/// The status of an operation.
pub fn batch_operation_status(
    report: &BatchOperationReport,
    index: usize,
    failed_at: Option<usize>,
    rollback_failed: bool,
    dry_run: bool,
) -> (r: &'static str)
    ensures
        r@ == status_of(*report, index as int, failed_at, rollback_failed, dry_run),
{
    if report.skipped {
        return "skipped";
    }
    if !report.attempted {
        return "notAttempted";
    }
    if dry_run {
        return if has_failed(&report.views) {
            "failed"
        } else {
            "planned"
        };
    }
    match failed_at {
        None => "applied",
        Some(f) => if index <= f {
            if rollback_failed {
                "rollbackFailed"
            } else {
                "rolledBack"
            }
        } else {
            "notAttempted"
        },
    }
}

/// How a batch ends: redirection that left something out makes it partial.
pub open spec fn batch_end(
    rollback_failed: bool,
    failed: bool,
    redirect_skipped: nat,
    redirect_refused: nat,
) -> Exit {
    if rollback_failed {
        Exit::Partial
    } else if failed {
        Exit::AccessDenied
    } else if redirect_skipped > 0 || redirect_refused > 0 {
        Exit::Partial
    } else {
        Exit::Success
    }
}

/// How a batch ends.
pub fn batch_exit(
    rollback_failed: bool,
    failed: bool,
    redirect_skipped: usize,
    redirect_refused: usize,
) -> (r: Exit)
    ensures
        r == batch_end(
            rollback_failed,
            failed,
            redirect_skipped as nat,
            redirect_refused as nat,
        ),
{
    if rollback_failed {
        Exit::Partial
    } else if failed {
        Exit::AccessDenied
    } else if redirect_skipped > 0 || redirect_refused > 0 {
        Exit::Partial
    } else {
        Exit::Success
    }
}

/// How a batch ends that has nothing left to apply.
pub fn empty_batch_exit(redirect_skipped: usize, redirect_refused: usize) -> (r: Exit)
    ensures
        r == (if redirect_refused > 0 {
            Exit::RedirectRefused
        } else if redirect_skipped > 0 {
            Exit::Partial
        } else {
            Exit::Success
        }),
{
    if redirect_refused > 0 {
        Exit::RedirectRefused
    } else if redirect_skipped > 0 {
        Exit::Partial
    } else {
        Exit::Success
    }
}

} // verus!
