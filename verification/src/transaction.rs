//! Steps that are taken in order and taken back where one of them fails.
//!
//! The caller performs what `next` asks for and reports back with `ran` or
//! `undid`; the order of the steps and what is taken back is decided here.
use vstd::prelude::*;

verus! {

/// What is taken back after a failure.
#[derive(Clone, Copy, Debug, PartialEq, Eq, Structural)]
pub enum UndoRule {
    /// The failing step and those before it, as far as they changed anything.
    Touched,
    /// Every step before the failing one, which takes itself back.
    Earlier,
    /// Nothing: what was there before is not known.
    Nothing,
}

/// What became of a step.
#[derive(Clone, Copy, Debug, PartialEq, Eq, Structural)]
pub struct StepOutcome {
    pub failed: bool,
    pub touched: bool,
}

/// What is to be done next.
#[derive(Clone, Copy, Debug, PartialEq, Eq, Structural)]
pub enum NextStep {
    Run(usize),
    Undo(usize),
    Finish,
}

/// A run of steps.
#[derive(Debug)]
pub struct Transaction {
    count: usize,
    rehearsal: bool,
    rule: UndoRule,
    outcomes: Vec<StepOutcome>,
    undone: Vec<usize>,
    /// Steps at this position and behind it need no more taking back.
    undo_below: usize,
}

/// What a `Transaction` stands for.
pub struct TransactionView {
    /// The number of steps.
    pub count: nat,
    /// A dry run goes on after a failure and takes nothing back.
    pub rehearsal: bool,
    pub rule: UndoRule,
    /// What became of the steps so far.
    pub outcomes: Seq<StepOutcome>,
    /// The steps that were taken back so far.
    pub undone: Seq<int>,
}

/// The step at position `i` has to be taken back, `f` being the one that failed.
pub open spec fn must_undo(rule: UndoRule, outcomes: Seq<StepOutcome>, f: int, i: int) -> bool {
    match rule {
        UndoRule::Touched => i <= f && outcomes[i].touched,
        UndoRule::Earlier => i < f,
        UndoRule::Nothing => false,
    }
}

/// The steps before position `n` that have to be taken back, the last first.
pub open spec fn undo_before(rule: UndoRule, outcomes: Seq<StepOutcome>, f: int, n: int) -> Seq<
    int,
>
    decreases n,
{
    if n <= 0 {
        Seq::empty()
    } else if must_undo(rule, outcomes, f, n - 1) {
        seq![n - 1] + undo_before(rule, outcomes, f, n - 1)
    } else {
        undo_before(rule, outcomes, f, n - 1)
    }
}

impl TransactionView {
    /// The last step failed, and the run is for real.
    pub open spec fn stopped(self) -> bool {
        !self.rehearsal && self.outcomes.len() > 0 && self.outcomes.last().failed
    }

    /// The steps that have to be taken back, in order.
    pub open spec fn to_undo(self) -> Seq<int> {
        if self.stopped() {
            undo_before(
                self.rule,
                self.outcomes,
                self.outcomes.len() - 1,
                self.outcomes.len() as int,
            )
        } else {
            Seq::empty()
        }
    }

    /// What is to be done next: the steps in order until one fails, then those
    /// that have to be taken back.
    pub open spec fn next(self) -> NextStep {
        if self.stopped() {
            if self.undone.len() < self.to_undo().len() {
                NextStep::Undo(self.to_undo()[self.undone.len() as int] as usize)
            } else {
                NextStep::Finish
            }
        } else if self.outcomes.len() < self.count {
            NextStep::Run(self.outcomes.len() as usize)
        } else {
            NextStep::Finish
        }
    }

    /// Only the last step can have stopped the run, and what was taken back is
    /// the beginning of what has to be.
    pub open spec fn valid(self) -> bool {
        &&& self.outcomes.len() <= self.count
        &&& forall|i: int|
            0 <= i < self.outcomes.len() - 1 ==> self.rehearsal || !(
            #[trigger] self.outcomes[i]).failed
        &&& self.undone.len() <= self.to_undo().len()
        &&& self.undone == self.to_undo().take(self.undone.len() as int)
    }
}

impl View for Transaction {
    type V = TransactionView;

    closed spec fn view(&self) -> TransactionView {
        TransactionView {
            count: self.count as nat,
            rehearsal: self.rehearsal,
            rule: self.rule,
            outcomes: self.outcomes@,
            undone: self.undone@.map_values(|i: usize| i as int),
        }
    }
}

proof fn undo_before_is_below(rule: UndoRule, outcomes: Seq<StepOutcome>, f: int, n: int)
    ensures
        forall|k: int|
            0 <= k < undo_before(rule, outcomes, f, n).len() ==> 0 <= (#[trigger] undo_before(
                rule,
                outcomes,
                f,
                n,
            )[k]) < n,
    decreases n,
{
    if n > 0 {
        undo_before_is_below(rule, outcomes, f, n - 1);
        let rest = undo_before(rule, outcomes, f, n - 1);
        assert forall|k: int| 0 <= k < undo_before(rule, outcomes, f, n).len() implies 0 <= (
        #[trigger] undo_before(rule, outcomes, f, n)[k]) < n by {
            if must_undo(rule, outcomes, f, n - 1) {
                if k > 0 {
                    assert(undo_before(rule, outcomes, f, n)[k] == rest[k - 1]);
                }
            } else {
                assert(undo_before(rule, outcomes, f, n)[k] == rest[k]);
            }
        }
    }
}

impl Transaction {
    /// The steps at and behind `undo_below` are settled.
    closed spec fn settled(&self) -> bool {
        self@.stopped() ==> self.undo_below <= self.outcomes@.len() && self@.to_undo()
            == self@.undone + undo_before(
            self.rule,
            self.outcomes@,
            self.outcomes@.len() - 1,
            self.undo_below as int,
        )
    }

    /// The state is one that a run can be in.
    pub closed spec fn wf(&self) -> bool {
        self@.valid() && self.settled() && (!self@.stopped() ==> self.undone@.len() == 0)
    }

    /// A run of `count` steps.
    pub fn start(count: usize, rehearsal: bool, rule: UndoRule) -> (r: Transaction)
        ensures
            r.wf(),
            r@.valid(),
            r@ == (TransactionView {
                count: count as nat,
                rehearsal,
                rule,
                outcomes: Seq::empty(),
                undone: Seq::empty(),
            }),
    {
        let r = Transaction {
            count,
            rehearsal,
            rule,
            outcomes: Vec::new(),
            undone: Vec::new(),
            undo_below: 0,
        };
        assert(r@.undone =~= Seq::<int>::empty());
        assert(r@.outcomes =~= Seq::<StepOutcome>::empty());
        assert(r@.undone =~= r@.to_undo().take(0));
        r
    }

    /// What is to be done next.
    pub fn next(&self) -> (r: NextStep)
        requires
            self.wf(),
        ensures
            r == self@.next(),
    {
        let n = self.outcomes.len();
        if !self.rehearsal && n > 0 && self.outcomes[n - 1].failed {
            let mut i: usize = self.undo_below;
            let ghost f = n - 1;
            let ghost done = self@.undone;
            let ghost all = self@.to_undo();
            while i > 0
                invariant
                    n == self.outcomes@.len(),
                    0 < n,
                    f == n - 1,
                    i <= n,
                    self@.stopped(),
                    done == self@.undone,
                    all == self@.to_undo(),
                    self.outcomes@ == self@.outcomes,
                    all == done + undo_before(self.rule, self.outcomes@, f, i as int),
                decreases i,
            {
                let undo = match self.rule {
                    UndoRule::Touched => self.outcomes[i - 1].touched,
                    UndoRule::Earlier => i - 1 < n - 1,
                    UndoRule::Nothing => false,
                };
                if undo {
                    proof {
                        assert(must_undo(self.rule, self.outcomes@, f, i - 1));
                        let tail = undo_before(self.rule, self.outcomes@, f, i as int);
                        assert(tail[0] == i - 1);
                        assert(all[done.len() as int] == tail[0]);
                    }
                    return NextStep::Undo(i - 1);
                }
                i -= 1;
            }
            assert(all =~= done);
            NextStep::Finish
        } else if n < self.count {
            NextStep::Run(n)
        } else {
            NextStep::Finish
        }
    }

    /// Records what became of the step that `next` asked for.
    pub fn ran(&mut self, outcome: StepOutcome)
        requires
            old(self).wf(),
            old(self)@.next() is Run,
        ensures
            final(self).wf(),
            final(self)@.valid(),
            final(self)@ == (TransactionView {
                outcomes: old(self)@.outcomes.push(outcome),
                ..old(self)@
            }),
    {
        let ghost before = self@;
        self.outcomes.push(outcome);
        self.undo_below = self.outcomes.len();
        proof {
            assert(self.undone@.len() == 0);
            assert(self@.undone =~= Seq::<int>::empty());
            assert(before.undone =~= Seq::<int>::empty());
            assert(self@.undone =~= self@.to_undo().take(0));
            assert(self@.undone + self@.to_undo() =~= self@.to_undo());
            assert forall|i: int| 0 <= i < self@.outcomes.len() - 1 implies self@.rehearsal || !(
            #[trigger] self@.outcomes[i]).failed by {
                assert(self@.outcomes[i] == before.outcomes[i]);
                if i == before.outcomes.len() - 1 {
                    assert(before.outcomes.last() == before.outcomes[i]);
                }
            }
        }
    }

    /// Records that the step that `next` asked for was taken back.
    pub fn undid(&mut self)
        requires
            old(self).wf(),
            old(self)@.next() is Undo,
        ensures
            final(self).wf(),
            final(self)@.valid(),
            final(self)@ == (TransactionView {
                undone: old(self)@.undone.push(old(self)@.next()->Undo_0 as int),
                ..old(self)@
            }),
    {
        let step = self.next();
        if let NextStep::Undo(i) = step {
            let ghost before = self@;
            let ghost f = self.outcomes@.len() - 1;
            let ghost all = before.to_undo();
            let ghost k = before.undone.len() as int;
            proof {
                undo_before_is_below(self.rule, self.outcomes@, f, f + 1);
                undo_tail(
                    self.rule,
                    self.outcomes@,
                    f,
                    self.undo_below as int,
                    i as int,
                );
            }
            self.undone.push(i);
            self.undo_below = i;
            proof {
                assert(self@.undone =~= before.undone.push(i as int));
                assert(self@.to_undo() == all);
                assert(all[k] == i as int);
                assert(all.take(k + 1) =~= all.take(k).push(all[k]));
                assert(self@.undone + undo_before(self.rule, self.outcomes@, f, i as int) =~= all);
            }
        }
    }
}

/// What has to be taken back begins with its first step; the rest lies below.
proof fn undo_tail(rule: UndoRule, outcomes: Seq<StepOutcome>, f: int, n: int, first: int)
    requires
        n >= 0,
        undo_before(rule, outcomes, f, n).len() > 0,
        undo_before(rule, outcomes, f, n)[0] == first,
    ensures
        undo_before(rule, outcomes, f, n) == seq![first] + undo_before(rule, outcomes, f, first),
    decreases n,
{
    if n > 0 {
        if must_undo(rule, outcomes, f, n - 1) {
            assert(undo_before(rule, outcomes, f, n)[0] == n - 1);
        } else {
            undo_tail(rule, outcomes, f, n - 1, first);
        }
    }
}

// ---------------------------------------------------------------------------
// Laws
// ---------------------------------------------------------------------------

/// In a run for real no step is taken after one that failed.
pub proof fn nothing_runs_after_a_failure(t: TransactionView, i: int)
    requires
        t.valid(),
        !t.rehearsal,
        0 <= i < t.outcomes.len(),
        t.outcomes[i].failed,
    ensures
        i == t.outcomes.len() - 1,
        !(t.next() is Run),
{
}

proof fn listed_iff_due(rule: UndoRule, outcomes: Seq<StepOutcome>, f: int, n: int, i: int)
    requires
        0 <= i < n,
    ensures
        undo_before(rule, outcomes, f, n).contains(i) <==> must_undo(rule, outcomes, f, i),
    decreases n,
{
    let all = undo_before(rule, outcomes, f, n);
    let rest = undo_before(rule, outcomes, f, n - 1);
    undo_before_is_below(rule, outcomes, f, n - 1);
    if i == n - 1 {
        if must_undo(rule, outcomes, f, i) {
            assert(all[0] == i);
        } else {
            assert(!rest.contains(i));
        }
    } else {
        listed_iff_due(rule, outcomes, f, n - 1, i);
        if must_undo(rule, outcomes, f, n - 1) {
            assert(all =~= seq![n - 1] + rest);
            if rest.contains(i) {
                let k = choose|k: int| 0 <= k < rest.len() && rest[k] == i;
                assert(all[k + 1] == i);
            }
            if all.contains(i) {
                let k = choose|k: int| 0 <= k < all.len() && all[k] == i;
                assert(rest[k - 1] == i);
            }
        }
    }
}

/// When a failed run is finished, exactly the steps that are due were taken
/// back: under `Touched` every step that changed anything, under `Earlier` every
/// step before the failing one, and under `Nothing` none.
pub proof fn finished_runs_took_back_what_is_due(t: TransactionView, i: int)
    requires
        t.valid(),
        t.stopped(),
        t.next() is Finish,
        0 <= i < t.outcomes.len(),
    ensures
        t.undone.contains(i) <==> must_undo(t.rule, t.outcomes, t.outcomes.len() - 1, i),
{
    assert(t.undone =~= t.to_undo());
    listed_iff_due(t.rule, t.outcomes, t.outcomes.len() - 1, t.outcomes.len() as int, i);
}

proof fn undo_before_descends(
    rule: UndoRule,
    outcomes: Seq<StepOutcome>,
    f: int,
    n: int,
    a: int,
    b: int,
)
    requires
        0 <= a < b < undo_before(rule, outcomes, f, n).len(),
    ensures
        undo_before(rule, outcomes, f, n)[a] > undo_before(rule, outcomes, f, n)[b],
    decreases n,
{
    let all = undo_before(rule, outcomes, f, n);
    let rest = undo_before(rule, outcomes, f, n - 1);
    if n > 0 {
        if must_undo(rule, outcomes, f, n - 1) {
            undo_before_is_below(rule, outcomes, f, n - 1);
            assert(all[b] == rest[b - 1]);
            if a > 0 {
                undo_before_descends(rule, outcomes, f, n - 1, a - 1, b - 1);
                assert(all[a] == rest[a - 1]);
            }
        } else {
            undo_before_descends(rule, outcomes, f, n - 1, a, b);
        }
    }
}

/// Steps are taken back in the reverse of the order in which they were taken.
pub proof fn steps_are_taken_back_in_reverse(t: TransactionView, a: int, b: int)
    requires
        t.valid(),
        0 <= a < b < t.undone.len(),
    ensures
        t.undone[a] > t.undone[b],
{
    let all = t.to_undo();
    assert(t.undone[a] == all[a] && t.undone[b] == all[b]);
    undo_before_descends(
        t.rule,
        t.outcomes,
        t.outcomes.len() - 1,
        t.outcomes.len() as int,
        a,
        b,
    );
}

/// Under `Nothing` a failed run ends at once, and nothing is taken back.
pub proof fn nothing_is_taken_back_unasked(t: TransactionView)
    requires
        t.valid(),
        t.rule == UndoRule::Nothing,
    ensures
        t.undone.len() == 0,
        t.stopped() ==> t.next() is Finish,
{
    if t.stopped() {
        let n = t.outcomes.len() as int;
        if t.to_undo().len() > 0 {
            undo_before_is_due(t.rule, t.outcomes, n - 1, n);
        }
    }
}

proof fn undo_before_is_due(rule: UndoRule, outcomes: Seq<StepOutcome>, f: int, n: int)
    requires
        undo_before(rule, outcomes, f, n).len() > 0,
    ensures
        must_undo(rule, outcomes, f, undo_before(rule, outcomes, f, n)[0]),
    decreases n,
{
    if n > 0 && !must_undo(rule, outcomes, f, n - 1) {
        undo_before_is_due(rule, outcomes, f, n - 1);
    }
}

/// A dry run takes every step and takes nothing back.
pub proof fn rehearsals_take_every_step(t: TransactionView)
    requires
        t.valid(),
        t.rehearsal,
        t.next() is Finish,
    ensures
        t.outcomes.len() == t.count,
        t.undone.len() == 0,
{
}

} // verus!
