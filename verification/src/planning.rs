//! What a plan holds, why it is blocked, and how it is shown.
use vstd::prelude::*;

use crate::exit::{done_result, usage, usage_error, ErrorView, ExitError};
use crate::json::{jbool, json_bool, json_string, jstr};
use crate::model::{path_text, name_text, BlockView, KeyBlock, RegFile};
use crate::mutation::{empty_file, make_file, file_of};
use crate::number::{dec_of, push_dec};
use crate::parts::{json_spaced, json_spaced_strings};
use crate::policy::{denied_by, Policy, PolicyView};
use crate::report::{
    pairs_json, plan_changes_json, plan_data_text, plan_text, render_changes, render_pairs,
    view_plan, view_plan_json, PlanChange, PlanOp, ViewPlan,
};
use crate::diff::opt_data;
use crate::saved_plan::{digest_of_file, snapshot_digest, SavedView, Snapshot};
use crate::text::{
    chars_of, comes_before, concat3, join, joined, opt_text, same, text_less,
    text_less_irreflexive, text_less_total, text_less_transitive, views, views_push,
};

verus! {

// ---------------------------------------------------------------------------
// Denied keys
// ---------------------------------------------------------------------------

/// Pairs of texts as plain values.
pub open spec fn pair_views(pairs: Seq<(String, String)>) -> Seq<(Seq<char>, Seq<char>)> {
    pairs.map_values(|p: (String, String)| (p.0@, p.1@))
}

/// The keys that the policy denies and the rules that deny them, in order.
pub open spec fn denials(policy: PolicyView, keys: Seq<BlockView>) -> Seq<(Seq<char>, Seq<char>)>
    decreases keys.len(),
{
    if keys.len() == 0 {
        Seq::empty()
    } else {
        let before = denials(policy, keys.drop_last());
        match denied_by(policy.deny_keys, keys.last().path) {
            Some(rule) => before.push((path_text(keys.last().path), rule)),
            None => before,
        }
    }
}

/// The keys that the policy denies and the rules that deny them.
pub fn denied_keys(policy: &Policy, keys: &Vec<KeyBlock>) -> (out: Vec<(String, String)>)
    ensures
        pair_views(out@) == denials(policy@, views(keys@)),
{
    let ghost all = views(keys@);
    let mut out: Vec<(String, String)> = Vec::new();
    assert(pair_views(out@) =~= Seq::<(Seq<char>, Seq<char>)>::empty());
    assert(all.take(0) =~= Seq::<BlockView>::empty());
    for i in 0..keys.len()
        invariant
            all == views(keys@),
            pair_views(out@) == denials(policy@, all.take(i as int)),
    {
        assert(all.take(i + 1).drop_last() =~= all.take(i as int));
        assert(all.take(i + 1).last() == keys@[i as int]@);
        if let Some(rule) = policy.denies(&keys[i].path) {
            let ghost before = out@;
            let path = keys[i].path.to_string();
            let pair = (path, rule.to_owned());
            out.push(pair);
            assert(pair_views(out@) =~= pair_views(before).push((pair.0@, pair.1@)));
        }
    }
    assert(all.take(all.len() as int) =~= all);
    out
}

/// One pair comes before another.
pub open spec fn pair_less(a: (Seq<char>, Seq<char>), b: (Seq<char>, Seq<char>)) -> bool {
    text_less(a.0, b.0) || (a.0 == b.0 && text_less(a.1, b.1))
}

/// A pair put in its place in an ordered list; one that is there already is not
/// put there again.
pub open spec fn placed(
    s: Seq<(Seq<char>, Seq<char>)>,
    x: (Seq<char>, Seq<char>),
) -> Seq<(Seq<char>, Seq<char>)>
    decreases s.len(),
{
    if s.len() == 0 {
        seq![x]
    } else if pair_less(s.last(), x) {
        s.push(x)
    } else if s.last() == x {
        s
    } else {
        placed(s.drop_last(), x).push(s.last())
    }
}

/// Pairs in order, each once.
pub open spec fn tidied(all: Seq<(Seq<char>, Seq<char>)>) -> Seq<(Seq<char>, Seq<char>)>
    decreases all.len(),
{
    if all.len() == 0 {
        Seq::empty()
    } else {
        placed(tidied(all.drop_last()), all.last())
    }
}

/// Pairs stand in order, each once.
pub open spec fn in_order(s: Seq<(Seq<char>, Seq<char>)>) -> bool {
    forall|i: int, j: int| 0 <= i < j < s.len() ==> pair_less(#[trigger] s[i], #[trigger] s[j])
}

fn same_pair(a: &(String, String), b: &(String, String)) -> (r: bool)
    ensures
        r == ((a.0@, a.1@) == (b.0@, b.1@)),
{
    same(chars_of(a.0.as_str()).as_slice(), chars_of(b.0.as_str()).as_slice()) && same(
        chars_of(a.1.as_str()).as_slice(),
        chars_of(b.1.as_str()).as_slice(),
    )
}

fn pair_before(a: &(String, String), b: &(String, String)) -> (r: bool)
    ensures
        r == pair_less((a.0@, a.1@), (b.0@, b.1@)),
{
    let x = chars_of(a.0.as_str());
    let y = chars_of(b.0.as_str());
    comes_before(x.as_slice(), y.as_slice()) || (same(x.as_slice(), y.as_slice()) && comes_before(
        chars_of(a.1.as_str()).as_slice(),
        chars_of(b.1.as_str()).as_slice(),
    ))
}

fn place(sorted: &mut Vec<(String, String)>, pair: (String, String))
    ensures
        pair_views(final(sorted)@) == placed(pair_views(old(sorted)@), (pair.0@, pair.1@)),
{
    let ghost s = pair_views(sorted@);
    let ghost x = (pair.0@, pair.1@);
    let mut i: usize = sorted.len();
    assert(s.take(i as int) =~= s);
    assert(s.skip(i as int) =~= Seq::<(Seq<char>, Seq<char>)>::empty());
    assert(placed(s, x) + Seq::<(Seq<char>, Seq<char>)>::empty() =~= placed(s, x));
    while i > 0 && !pair_before(&sorted[i - 1], &pair)
        invariant
            sorted@ == old(sorted)@,
            s == pair_views(sorted@),
            x == (pair.0@, pair.1@),
            0 <= i <= sorted@.len(),
            placed(s, x) == placed(s.take(i as int), x) + s.skip(i as int),
        decreases i,
    {
        let ghost front = s.take(i as int);
        assert(front.last() == s[i - 1]);
        assert(s[i - 1] == (sorted@[i - 1].0@, sorted@[i - 1].1@));
        if same_pair(&sorted[i - 1], &pair) {
            assert(front + s.skip(i as int) =~= s);
            return ;
        }
        assert(front.drop_last() =~= s.take(i - 1));
        assert(placed(front, x) == placed(s.take(i - 1), x).push(s[i - 1]));
        assert(placed(s.take(i - 1), x).push(s[i - 1]) + s.skip(i as int) =~= placed(
            s.take(i - 1),
            x,
        ) + s.skip(i - 1));
        i -= 1;
    }
    proof {
        if i == 0 {
            assert(s.take(0) =~= Seq::<(Seq<char>, Seq<char>)>::empty());
            assert(placed(s.take(0), x) == seq![x]);
            assert(s.take(0).push(x) =~= seq![x]);
        } else {
            assert(s.take(i as int).last() == (sorted@[i - 1].0@, sorted@[i - 1].1@));
        }
        assert(placed(s, x) == s.take(i as int).push(x) + s.skip(i as int));
    }
    sorted.insert(i, pair);
    assert(pair_views(sorted@) =~= s.take(i as int).push(x) + s.skip(i as int));
}

/// Pairs in order, each once.
pub fn tidy(pairs: Vec<(String, String)>) -> (out: Vec<(String, String)>)
    ensures
        pair_views(out@) == tidied(pair_views(pairs@)),
{
    let ghost all = pair_views(pairs@);
    let mut out: Vec<(String, String)> = Vec::new();
    assert(pair_views(out@) =~= Seq::<(Seq<char>, Seq<char>)>::empty());
    assert(all.take(0) =~= Seq::<(Seq<char>, Seq<char>)>::empty());
    for i in 0..pairs.len()
        invariant
            all == pair_views(pairs@),
            pair_views(out@) == tidied(all.take(i as int)),
    {
        assert(all.take(i + 1).drop_last() =~= all.take(i as int));
        assert(all.take(i + 1).last() == all[i as int]);
        place(&mut out, (pairs[i].0.clone(), pairs[i].1.clone()));
    }
    assert(all.take(all.len() as int) =~= all);
    out
}

// ---------------------------------------------------------------------------
// One view's plan
// ---------------------------------------------------------------------------

/// What would be done in one view.
#[derive(Debug)]
pub struct Planned {
    /// The denied keys and their rules.
    pub denied: Vec<(String, String)>,
    pub keys: Vec<KeyBlock>,
    /// Why what has to be deleted could not be found out.
    pub failure: Option<String>,
}

/// What a `Planned` stands for.
pub struct PlannedView {
    pub denied: Seq<(Seq<char>, Seq<char>)>,
    pub keys: Seq<BlockView>,
    pub failure: Option<Seq<char>>,
}

impl View for Planned {
    type V = PlannedView;

    open spec fn view(&self) -> PlannedView {
        PlannedView {
            denied: pair_views(self.denied@),
            keys: views(self.keys@),
            failure: opt_text(self.failure),
        }
    }
}

/// Keys with their deletions, or why those could not be found out.
pub open spec fn found_deletions(r: Result<Vec<KeyBlock>, String>) -> Result<
    Seq<BlockView>,
    Seq<char>,
> {
    match r {
        Ok(keys) => Ok(views(keys@)),
        Err(e) => Err(e@),
    }
}

impl PlannedView {
    /// The plan at its beginning.
    pub open spec fn begun(policy: PolicyView, keys: Seq<BlockView>) -> PlannedView {
        PlannedView { denied: denials(policy, keys), keys, failure: None }
    }

    /// The plan after the deletions were looked for. Nothing is looked for in a
    /// plan that is denied, nor after a failure.
    pub open spec fn reconciled(self, r: Result<Seq<BlockView>, Seq<char>>) -> PlannedView {
        if self.denied.len() != 0 || self.failure is Some {
            self
        } else {
            match r {
                Ok(keys) => PlannedView { keys, ..self },
                Err(e) => PlannedView { failure: Some(e), ..self },
            }
        }
    }

    /// The plan held against the policy once more.
    pub open spec fn rechecked(self, policy: PolicyView) -> PlannedView {
        PlannedView { denied: tidied(self.denied + denials(policy, self.keys)), ..self }
    }

    /// Nothing of it would be done.
    pub open spec fn blocked(self) -> bool {
        self.denied.len() != 0 || self.failure is Some
    }

    /// Whether the plan is held against the policy once more. In one view it is
    /// where keys were looked for that have to be deleted; where it was denied
    /// at first, nothing was. In both views it is where anything is pruned.
    pub open spec fn recheck_due(self, prune: bool, prune_keys: bool, both: bool) -> bool {
        if both {
            prune || prune_keys
        } else {
            self.denied.len() == 0 && prune_keys
        }
    }

    /// The plan with all that was looked for.
    pub open spec fn finished(
        self,
        policy: PolicyView,
        prune: bool,
        prune_keys: bool,
        both: bool,
    ) -> PlannedView {
        if self.recheck_due(prune, prune_keys, both) {
            self.rechecked(policy)
        } else {
            self
        }
    }

    /// What failed, with the failure to find out what has to be deleted behind
    /// what planning the changes met.
    pub open spec fn all_failures(self, failures: Seq<(Seq<char>, Seq<char>)>) -> Seq<
        (Seq<char>, Seq<char>),
    > {
        match self.failure {
            Some(e) => failures.push(("subkey reconciliation"@, e)),
            None => failures,
        }
    }

    /// The keys that would be changed.
    pub open spec fn effective(self) -> Seq<BlockView> {
        if self.blocked() {
            Seq::empty()
        } else {
            self.keys
        }
    }
}

impl Planned {
    /// Begins the plan of a view.
    pub fn begin(policy: &Policy, keys: Vec<KeyBlock>) -> (r: Planned)
        ensures
            r@ == PlannedView::begun(policy@, views(keys@)),
    {
        let denied = denied_keys(policy, &keys);
        Planned { denied, keys, failure: None }
    }

    /// Whether nothing of it would be done.
    pub fn is_blocked(&self) -> (b: bool)
        ensures
            b == self@.blocked(),
    {
        !self.may_reconcile()
    }

    /// Whether deletions have to be looked for, still.
    pub fn may_reconcile(&self) -> (b: bool)
        ensures
            b == !self@.blocked(),
    {
        assert(pair_views(self.denied@).len() == self.denied@.len());
        self.denied.len() == 0 && self.failure.is_none()
    }

    /// Records the deletions that were found.
    pub fn reconcile(&mut self, r: Result<Vec<KeyBlock>, String>)
        ensures
            final(self)@ == old(self)@.reconciled(found_deletions(r)),
    {
        if self.may_reconcile() {
            match r {
                Ok(keys) => {
                    self.keys = keys;
                },
                Err(e) => {
                    self.failure = Some(e);
                },
            }
        }
    }

    /// Holds the plan against the policy once more.
    pub fn recheck(&mut self, policy: &Policy)
        ensures
            final(self)@ == old(self)@.rechecked(policy@),
    {
        let mut more = denied_keys(policy, &self.keys);
        let mut all: Vec<(String, String)> = Vec::new();
        all.append(&mut self.denied);
        all.append(&mut more);
        assert(pair_views(all@) =~= old(self)@.denied + denials(policy@, old(self)@.keys));
        self.denied = tidy(all);
    }

    /// Ends the search for deletions: holds the plan against the policy once
    /// more where that is due.
    pub fn finish(&mut self, policy: &Policy, prune: bool, prune_keys: bool, both: bool)
        ensures
            final(self)@ == old(self)@.finished(policy@, prune, prune_keys, both),
    {
        assert(pair_views(self.denied@).len() == self.denied@.len());
        let due = if both {
            prune || prune_keys
        } else {
            self.denied.len() == 0 && prune_keys
        };
        if due {
            self.recheck(policy);
        }
    }

    /// What failed in all, from what planning the changes met.
    pub fn failures(&self, met: Vec<(String, String)>) -> (out: Vec<(String, String)>)
        ensures
            pair_views(out@) == self@.all_failures(pair_views(met@)),
    {
        let mut out = met;
        if let Some(e) = &self.failure {
            let pair = ("subkey reconciliation".to_owned(), e.clone());
            out.push(pair);
            assert(pair_views(out@) =~= pair_views(met@).push((pair.0@, pair.1@)));
        }
        out
    }

    /// What would be changed: nothing where the plan is blocked, for an import is
    /// made as a whole or not at all.
    pub fn effective_file(&self) -> (r: RegFile)
        ensures
            r@ == file_of(self@.effective()),
    {
        if self.may_reconcile() {
            make_file(crate::model::copy_blocks(self.keys.as_slice()))
        } else {
            empty_file()
        }
    }
}

// ---------------------------------------------------------------------------
// Saved plans
// ---------------------------------------------------------------------------

/// A plan of input that cannot be read again is not saved. `streams` tells of
/// each input whether it is a stream.
pub fn check_plan_inputs(saves: bool, streams: &Vec<bool>) -> (r: Result<(), ExitError>)
    ensures
        done_result(r) == (if saves && streams@.contains(true) {
            Err::<(), ErrorView>(
                usage_error(
                    "a saved plan requires named source files; stream input cannot be re-verified"@,
                ),
            )
        } else {
            Ok(())
        }),
{
    if !saves {
        return Ok(());
    }
    for i in 0..streams.len()
        invariant
            saves,
            forall|j: int| 0 <= j < i ==> !streams@[j],
    {
        if streams[i] {
            assert(streams@.contains(true));
            return Err(
                usage(
                    "a saved plan requires named source files; stream input cannot be re-verified".to_owned(),
                ),
            );
        }
    }
    Ok(())
}

/// The words for a view that changed since the plan was made.
pub open spec fn stale_text(label: Seq<char>, expected: Seq<char>, found: Seq<char>) -> Seq<char> {
    "refusing stale saved plan: view "@ + label + " current state changed (expected "@ + expected
        + ", found "@ + found + ")"@
}

/// Why a view of a saved plan cannot be applied to what is there now.
#[derive(Debug)]
pub enum StaleView {
    Unreadable,
    Changed(String),
}

/// A view of a saved plan is applied only to the state it was planned for, read
/// in full.
pub fn check_saved_view(planned: &SavedView, snapshot: &Snapshot) -> (r: Result<(), StaleView>)
    ensures
        match r {
            Ok(_) => snapshot.unreadable@.len() == 0 && digest_of_file(snapshot.file@)
                == planned.current_digest@,
            Err(StaleView::Unreadable) => snapshot.unreadable@.len() != 0,
            Err(StaleView::Changed(m)) => snapshot.unreadable@.len() == 0 && digest_of_file(
                snapshot.file@,
            ) != planned.current_digest@ && m@ == stale_text(
                planned.label@,
                planned.current_digest@,
                digest_of_file(snapshot.file@),
            ),
        },
{
    if !snapshot.is_complete() {
        return Err(StaleView::Unreadable);
    }
    let actual = snapshot_digest(snapshot);
    if !crate::text::same_str(actual.as_str(), planned.current_digest.as_str()) {
        let mut m = concat3(
            "refusing stale saved plan: view ",
            planned.label.as_str(),
            " current state changed (expected ",
        );
        m.append(planned.current_digest.as_str());
        m.append(", found ");
        m.append(actual.as_str());
        m.append(")");
        return Err(StaleView::Changed(m));
    }
    Ok(())
}

// ---------------------------------------------------------------------------
// Documents
// ---------------------------------------------------------------------------

/// A saved plan: where, how long and with which digest; `null` where none was
/// saved.
pub open spec fn saved_json(saved: Option<(String, u64, String)>) -> Seq<char> {
    match saved {
        Some((path, bytes, digest)) => "\"savedPlan\": "@ + json_string(path@)
            + ",\n  \"savedPlanBytes\": "@ + dec_of(bytes as nat) + ",\n  \"savedPlanSha256\": "@
            + json_string(digest@),
        None =>
            "\"savedPlan\": null,\n  \"savedPlanBytes\": null,\n  \"savedPlanSha256\": null"@,
    }
}

fn saved_members(saved: &Option<(String, u64, String)>) -> (out: String)
    ensures
        out@ == saved_json(*saved),
{
    match saved {
        Some((path, bytes, digest)) => {
            let mut out = "\"savedPlan\": ".to_owned();
            out.append(jstr(path.as_str()).as_str());
            out.append(",\n  \"savedPlanBytes\": ");
            push_dec(&mut out, *bytes);
            out.append(",\n  \"savedPlanSha256\": ");
            out.append(jstr(digest.as_str()).as_str());
            out
        },
        None =>
            "\"savedPlan\": null,\n  \"savedPlanBytes\": null,\n  \"savedPlanSha256\": null".to_owned(),
    }
}

/// The plans of several views as JSON.
pub open spec fn view_plan_items(plans: Seq<ViewPlan>, redact: bool) -> Seq<char> {
    joined(plans.map_values(|p: ViewPlan| view_plan(p, redact)), ",\n"@)
}

fn view_plan_list(plans: &Vec<ViewPlan>, redact: bool) -> (out: String)
    ensures
        out@ == view_plan_items(plans@, redact),
{
    broadcast use views_push;

    let mut parts: Vec<String> = Vec::new();
    for i in 0..plans.len()
        invariant
            views(parts@) =~= plans@.take(i as int).map_values(|p: ViewPlan| view_plan(p, redact)),
    {
        let one = view_plan_json(&plans[i], redact);
        let ghost before = parts@;
        parts.push(one);
        assert(views(parts@) == views(before).push(one@));
    }
    assert(plans@.take(plans@.len() as int) =~= plans@);
    join(parts.as_slice(), ",\n")
}

/// A plan for one view.
#[derive(Debug)]
pub struct PlanReport {
    pub files: Vec<String>,
    pub prune: bool,
    pub redacted: bool,
    /// Where the plan was saved, how long and with which digest.
    pub saved: Option<(String, u64, String)>,
    pub skipped: usize,
    pub refused: usize,
    pub configured: bool,
    pub decisions: Vec<String>,
    /// A key is denied, or what has to be deleted could not be found out.
    pub blocked: bool,
    pub plan: ViewPlan,
}

/// A plan for one view, as JSON.
pub open spec fn plan_report_json(d: PlanReport) -> Seq<char> {
    "{\n  \"files\": ["@ + json_spaced(views(d.files@)) + "],\n  \"prune\": "@
        + json_bool(d.prune) + ",\n  \"redacted\": "@ + json_bool(d.redacted)
        + ",\n  \"blocked\": "@
        + json_bool(d.blocked) + ",\n  "@ + saved_json(d.saved) + ",\n  \"redirect\": {\"skipped\": "@ + dec_of(d.skipped as nat)
        + ", \"refused\": "@ + dec_of(d.refused as nat) + "},\n  \"policy\": {\"configured\": "@
        + json_bool(d.configured) + ", \"decisions\": ["@ + json_spaced(views(d.decisions@))
        + "], \"denied\": [\n"@
        + joined(pairs_json("    "@, "path"@, "rule"@, d.plan.denied@), ",\n"@)
        + "\n  ]},\n  \"rollback\": {\"path\": "@ + json_string(d.plan.rollback_path@)
        + ", \"complete\": "@ + json_bool(d.plan.rollback.unreadable@.len() == 0)
        + ", \"restoredValues\": "@ + dec_of(d.plan.rollback.restored_values as nat)
        + ", \"newKeys\": "@ + dec_of(d.plan.rollback.new_keys@.len()) + ", \"unreadable\": "@
        + dec_of(d.plan.rollback.unreadable@.len()) + "},\n  \"changes\": [\n"@
        + joined(plan_changes_json("    "@, d.plan.changes@, d.redacted), ",\n"@)
        + "\n  ],\n  \"failures\": [\n"@
        + joined(pairs_json("    "@, "target"@, "problem"@, d.plan.failures@), ",\n"@)
        + "\n  ]\n}"@
}

impl PlanReport {
    /// A plan for one view, as JSON.
    pub fn to_json(&self) -> (out: String)
        ensures
            out@ == plan_report_json(*self),
    {
        let mut out = "{\n  \"files\": [".to_owned();
        out.append(json_spaced_strings(self.files.as_slice()).as_str());
        out.append("],\n  \"prune\": ");
        out.append(jbool(self.prune));
        out.append(",\n  \"redacted\": ");
        out.append(jbool(self.redacted));
        out.append(",\n  \"blocked\": ");
        out.append(jbool(self.blocked));
        out.append(",\n  ");
        out.append(saved_members(&self.saved).as_str());
        out.append(",\n  \"redirect\": {\"skipped\": ");
        push_dec(&mut out, self.skipped as u64);
        out.append(", \"refused\": ");
        push_dec(&mut out, self.refused as u64);
        out.append("},\n  \"policy\": {\"configured\": ");
        out.append(jbool(self.configured));
        out.append(", \"decisions\": [");
        out.append(json_spaced_strings(self.decisions.as_slice()).as_str());
        out.append("], \"denied\": [\n");
        out.append(
            join(render_pairs("    ", "path", "rule", &self.plan.denied).as_slice(), ",\n").as_str(),
        );
        out.append("\n  ]},\n  \"rollback\": {\"path\": ");
        out.append(jstr(self.plan.rollback_path.as_str()).as_str());
        out.append(", \"complete\": ");
        out.append(jbool(self.plan.rollback.is_complete()));
        out.append(", \"restoredValues\": ");
        push_dec(&mut out, self.plan.rollback.restored_values as u64);
        out.append(", \"newKeys\": ");
        push_dec(&mut out, self.plan.rollback.new_keys.len() as u64);
        out.append(", \"unreadable\": ");
        push_dec(&mut out, self.plan.rollback.unreadable.len() as u64);
        out.append("},\n  \"changes\": [\n");
        out.append(
            join(render_changes("    ", &self.plan.changes, self.redacted).as_slice(), ",\n").as_str(),
        );
        out.append("\n  ],\n  \"failures\": [\n");
        out.append(
            join(render_pairs("    ", "target", "problem", &self.plan.failures).as_slice(), ",\n").as_str(),
        );
        out.append("\n  ]\n}");
        out
    }
}

/// A plan for both views.
#[derive(Debug)]
pub struct PlanViews {
    pub files: Vec<String>,
    pub prune: bool,
    pub redacted: bool,
    /// Where the plan was saved, how long and with which digest.
    pub saved: Option<(String, u64, String)>,
    pub skipped: usize,
    pub refused: usize,
    pub configured: bool,
    pub decisions: Vec<String>,
    pub views: Vec<ViewPlan>,
}

/// A plan for both views, as JSON.
pub open spec fn plan_views_json(d: PlanViews) -> Seq<char> {
    "{\n  \"files\": ["@ + json_spaced(views(d.files@)) + "],\n  \"prune\": "@
        + json_bool(d.prune) + ",\n  \"redacted\": "@ + json_bool(d.redacted) + ",\n  "@
        + saved_json(d.saved) + ",\n  \"redirect\": {\"skipped\": "@ + dec_of(d.skipped as nat)
        + ", \"refused\": "@ + dec_of(d.refused as nat) + "},\n  \"policy\": {\"configured\": "@
        + json_bool(d.configured) + ", \"decisions\": ["@ + json_spaced(views(d.decisions@))
        + "]},\n  \"views\": [\n"@ + view_plan_items(d.views@, d.redacted) + "\n  ]\n}"@
}

impl PlanViews {
    /// A plan for both views, as JSON.
    pub fn to_json(&self) -> (out: String)
        ensures
            out@ == plan_views_json(*self),
    {
        let mut out = "{\n  \"files\": [".to_owned();
        out.append(json_spaced_strings(self.files.as_slice()).as_str());
        out.append("],\n  \"prune\": ");
        out.append(jbool(self.prune));
        out.append(",\n  \"redacted\": ");
        out.append(jbool(self.redacted));
        out.append(",\n  ");
        out.append(saved_members(&self.saved).as_str());
        out.append(",\n  \"redirect\": {\"skipped\": ");
        push_dec(&mut out, self.skipped as u64);
        out.append(", \"refused\": ");
        push_dec(&mut out, self.refused as u64);
        out.append("},\n  \"policy\": {\"configured\": ");
        out.append(jbool(self.configured));
        out.append(", \"decisions\": [");
        out.append(json_spaced_strings(self.decisions.as_slice()).as_str());
        out.append("]},\n  \"views\": [\n");
        out.append(view_plan_list(&self.views, self.redacted).as_str());
        out.append("\n  ]\n}");
        out
    }
}

/// How a planned change is named in text.
pub open spec fn op_label(op: PlanOp) -> Seq<char> {
    match op {
        PlanOp::KeyCreate => "CREATE KEY"@,
        PlanOp::KeyDelete => "DELETE KEY"@,
        PlanOp::ValueSet => "SET       "@,
        PlanOp::ValueDelete => "DELETE    "@,
    }
}

/// A planned change as a line.
pub open spec fn change_line(c: PlanChange, redact: bool) -> Seq<char> {
    match c.name {
        Some(name) => "  "@ + op_label(c.op) + " "@ + path_text(c.path@) + "\\"@ + name_text(name@)
            + "  "@ + plan_text(opt_data(c.before), redact) + " -> "@ + plan_text(
            opt_data(c.after),
            redact,
        ),
        None => "  "@ + op_label(c.op) + " "@ + path_text(c.path@),
    }
}

/// A plan line by line.
pub open spec fn plan_lines(
    changes: Seq<PlanChange>,
    failures: Seq<(String, String)>,
    redact: bool,
) -> Seq<Seq<char>> {
    changes.map_values(|c: PlanChange| change_line(c, redact)) + failures.map_values(
        |f: (String, String)| "  FAILED    "@ + f.0@ + ": "@ + f.1@,
    ) + seq!["  "@ + dec_of(changes.len()) + " mutation(s); nothing written"@]
}

fn render_change_line(c: &PlanChange, redact: bool) -> (out: String)
    ensures
        out@ == change_line(*c, redact),
{
    let mut out = concat3(
        "  ",
        match c.op {
            PlanOp::KeyCreate => "CREATE KEY",
            PlanOp::KeyDelete => "DELETE KEY",
            PlanOp::ValueSet => "SET       ",
            PlanOp::ValueDelete => "DELETE    ",
        },
        " ",
    );
    out.append(c.path.to_string().as_str());
    if let Some(name) = &c.name {
        out.append("\\");
        out.append(name.to_string().as_str());
        out.append("  ");
        out.append(plan_data_text(&c.before, redact).as_str());
        out.append(" -> ");
        out.append(plan_data_text(&c.after, redact).as_str());
    }
    out
}

/// A plan line by line.
pub fn plan_text_lines(
    changes: &Vec<PlanChange>,
    failures: &Vec<(String, String)>,
    redact: bool,
) -> (out: Vec<String>)
    ensures
        views(out@) == plan_lines(changes@, failures@, redact),
{
    broadcast use views_push;

    let mut out: Vec<String> = Vec::new();
    for i in 0..changes.len()
        invariant
            views(out@) =~= changes@.take(i as int).map_values(
                |c: PlanChange| change_line(c, redact),
            ),
    {
        let one = render_change_line(&changes[i], redact);
        let ghost before = out@;
        out.push(one);
        assert(views(out@) == views(before).push(one@));
    }
    assert(changes@.take(changes@.len() as int) =~= changes@);
    let ghost head = views(out@);
    for i in 0..failures.len()
        invariant
            views(out@) =~= head + failures@.take(i as int).map_values(
                |f: (String, String)| "  FAILED    "@ + f.0@ + ": "@ + f.1@,
            ),
    {
        let mut one = concat3("  FAILED    ", failures[i].0.as_str(), ": ");
        one.append(failures[i].1.as_str());
        let ghost before = out@;
        out.push(one);
        assert(views(out@) == views(before).push(one@));
    }
    assert(failures@.take(failures@.len() as int) =~= failures@);
    let mut last = "  ".to_owned();
    push_dec(&mut last, changes.len() as u64);
    last.append(" mutation(s); nothing written");
    let ghost before = out@;
    out.push(last);
    assert(views(out@) == views(before).push(last@));
    assert(views(out@) =~= plan_lines(changes@, failures@, redact));
    out
}

// ---------------------------------------------------------------------------
// Laws
// ---------------------------------------------------------------------------

proof fn pair_less_transitive(
    a: (Seq<char>, Seq<char>),
    b: (Seq<char>, Seq<char>),
    c: (Seq<char>, Seq<char>),
)
    requires
        pair_less(a, b),
        pair_less(b, c),
    ensures
        pair_less(a, c),
{
    text_less_irreflexive(a.0);
    if text_less(a.0, b.0) && text_less(b.0, c.0) {
        text_less_transitive(a.0, b.0, c.0);
    }
    if a.0 == b.0 && b.0 == c.0 {
        text_less_transitive(a.1, b.1, c.1);
    }
}

proof fn pair_less_total(a: (Seq<char>, Seq<char>), b: (Seq<char>, Seq<char>))
    ensures
        pair_less(a, b) || pair_less(b, a) || a == b,
{
    text_less_total(a.0, b.0);
    text_less_total(a.1, b.1);
}

proof fn placing_keeps_order(s: Seq<(Seq<char>, Seq<char>)>, x: (Seq<char>, Seq<char>))
    requires
        in_order(s),
    ensures
        in_order(placed(s, x)),
        forall|y: (Seq<char>, Seq<char>)|
            #[trigger] placed(s, x).contains(y) <==> (s.contains(y) || y == x),
    decreases s.len(),
{
    let r = placed(s, x);
    if s.len() == 0 {
        assert(r[0] == x);
        assert forall|y: (Seq<char>, Seq<char>)| r.contains(y) <==> (s.contains(y) || y == x) by {
            if y == x {
                assert(r[0] == y);
            }
        }
    } else if !pair_less(s.last(), x) && s.last() == x {
        assert(s[s.len() - 1] == x);
    } else if pair_less(s.last(), x) {
        assert forall|i: int, j: int| 0 <= i < j < r.len() implies pair_less(
            #[trigger] r[i],
            #[trigger] r[j],
        ) by {
            if j == s.len() && i < s.len() - 1 {
                pair_less_transitive(s[i], s.last(), x);
            }
        }
        assert forall|y: (Seq<char>, Seq<char>)| r.contains(y) <==> (s.contains(y) || y == x) by {
            if s.contains(y) {
                let i = choose|i: int| 0 <= i < s.len() && s[i] == y;
                assert(r[i] == y);
            }
            if y == x {
                assert(r[s.len() as int] == y);
            }
        }
    } else {
        let front = s.drop_last();
        let p = placed(front, x);
        placing_keeps_order(front, x);
        pair_less_total(s.last(), x);
        assert(r == p.push(s.last()));
        assert forall|i: int, j: int| 0 <= i < j < r.len() implies pair_less(
            #[trigger] r[i],
            #[trigger] r[j],
        ) by {
            if j == p.len() {
                assert(p.contains(p[i]));
                if p[i] != x {
                    assert(front.contains(p[i]));
                    let k = choose|k: int| 0 <= k < front.len() && front[k] == p[i];
                    assert(s[k] == p[i]);
                    assert(pair_less(s[k], s[s.len() - 1]));
                }
            } else {
                assert(r[i] == p[i] && r[j] == p[j]);
            }
        }
        assert forall|y: (Seq<char>, Seq<char>)| r.contains(y) <==> (s.contains(y) || y == x) by {
            if r.contains(y) {
                let i = choose|i: int| 0 <= i < r.len() && r[i] == y;
                if i < p.len() {
                    assert(p[i] == y);
                    assert(p.contains(y));
                    if front.contains(y) {
                        let k = choose|k: int| 0 <= k < front.len() && front[k] == y;
                        assert(s[k] == y);
                    }
                } else {
                    assert(s[s.len() - 1] == y);
                }
            }
            if s.contains(y) || y == x {
                if s.contains(y) {
                    let k = choose|k: int| 0 <= k < s.len() && s[k] == y;
                    if k < front.len() {
                        assert(front[k] == y);
                        assert(front.contains(y));
                        assert(p.contains(y));
                    } else {
                        assert(r[p.len() as int] == y);
                    }
                } else {
                    assert(p.contains(x));
                }
                if p.contains(y) {
                    let i = choose|i: int| 0 <= i < p.len() && p[i] == y;
                    assert(r[i] == y);
                }
            }
        }
    }
}

/// A tidied list stands in order, holds nothing twice, and holds exactly what
/// was listed.
pub proof fn tidied_lists_are_ordered(all: Seq<(Seq<char>, Seq<char>)>)
    ensures
        in_order(tidied(all)),
        forall|y: (Seq<char>, Seq<char>)|
            #[trigger] tidied(all).contains(y) <==> all.contains(y),
    decreases all.len(),
{
    if all.len() > 0 {
        let front = all.drop_last();
        tidied_lists_are_ordered(front);
        placing_keeps_order(tidied(front), all.last());
        assert forall|y: (Seq<char>, Seq<char>)| tidied(all).contains(y) <==> all.contains(y) by {
            if all.contains(y) {
                let k = choose|k: int| 0 <= k < all.len() && all[k] == y;
                if k < front.len() {
                    assert(front[k] == y);
                    assert(front.contains(y));
                }
            }
            if front.contains(y) {
                let k = choose|k: int| 0 <= k < front.len() && front[k] == y;
                assert(all[k] == y);
            }
            assert(all[all.len() - 1] == all.last());
        }
    }
}

proof fn no_denials(policy: PolicyView, keys: Seq<BlockView>, k: int)
    requires
        denials(policy, keys).len() == 0,
        0 <= k < keys.len(),
    ensures
        denied_by(policy.deny_keys, keys[k].path) is None,
    decreases keys.len(),
{
    if k < keys.len() - 1 {
        no_denials(policy, keys.drop_last(), k);
    }
}

/// A plan that was held against the policy after its deletions were found shows
/// no denied key as a change: every key it would change is allowed.
pub proof fn plans_change_no_denied_key(p: PlannedView, policy: PolicyView, k: int)
    requires
        0 <= k < p.rechecked(policy).effective().len(),
    ensures
        denied_by(policy.deny_keys, p.rechecked(policy).effective()[k].path) is None,
{
    let all = p.denied + denials(policy, p.keys);
    tidied_lists_are_ordered(all);
    if denials(policy, p.keys).len() > 0 {
        let y = all[p.denied.len() as int];
        assert(all.contains(y));
        assert(tidied(all).contains(y));
    }
    no_denials(policy, p.keys, k);
}

/// A blocked plan shows no change at all.
pub proof fn blocked_plans_change_nothing(p: PlannedView)
    requires
        p.blocked(),
    ensures
        p.effective().len() == 0,
{
}

} // verus!
