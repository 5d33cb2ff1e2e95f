//! The apply procedure: every write of the desired look, one after the other,
//! whatever became of the ones before.
use vstd::prelude::*;
use crate::command::{Invocation, InvocationView, outcome_view, update_outcome, update_outcome_spec};
use crate::desired::{Update, UpdateView, apply_plan, plan_spec};
use crate::machine::{Event, EventView};

verus! {

/// The apply procedure, at the write it will ask for next.
pub struct Applier {
    pub updates: Vec<Update>,
    pub next: usize,
    pub silent: bool,
}

pub ghost struct ApplierView {
    pub updates: Seq<UpdateView>,
    pub next: nat,
    pub silent: bool,
}

impl View for Applier {
    type V = ApplierView;

    open spec fn view(&self) -> ApplierView {
        ApplierView {
            updates: self.updates@.map_values(|u: Update| u@),
            next: self.next as nat,
            silent: self.silent,
        }
    }
}

/// One move of the apply procedure: the outcome of the last write, for a user
/// who listens, and the command to run next, if any is left.
pub struct ApplyStep {
    pub report: Option<Result<String, String>>,
    pub run: Option<Invocation>,
}

pub ghost struct ApplyStepView {
    pub report: Option<Result<Seq<char>, Seq<char>>>,
    pub run: Option<InvocationView>,
}

impl View for ApplyStep {
    type V = ApplyStepView;

    open spec fn view(&self) -> ApplyStepView {
        ApplyStepView {
            report: match self.report {
                Some(o) => Some(outcome_view(o)),
                None => None,
            },
            run: match self.run {
                Some(i) => Some(i@),
                None => None,
            },
        }
    }
}

/// The apply procedure for a wallpaper, a theme and an icon theme, before its
/// first write.
pub open spec fn applier_init(wallpaper: Seq<char>, theme: Seq<char>, icons: Seq<char>, silent: bool) -> ApplierView {
    ApplierView { updates: plan_spec(wallpaper, theme, icons), next: 0, silent }
}

/// What is said of the last write when `e` reports its exit.
pub open spec fn apply_report(m: ApplierView, e: EventView) -> Option<Result<Seq<char>, Seq<char>>> {
    match e {
        EventView::Ran { success, output: _ } => if !m.silent && 0 < m.next <= m.updates.len() {
            Some(update_outcome_spec(success, m.updates[m.next - 1].label))
        } else {
            None
        },
        _ => None,
    }
}

/// One move of the apply procedure: whatever the event says, the next write
/// is asked for while one is left.
pub open spec fn apply_next(m: ApplierView, e: EventView) -> (ApplierView, ApplyStepView) {
    if m.next < m.updates.len() {
        (
            ApplierView { next: m.next + 1, ..m },
            ApplyStepView { report: apply_report(m, e), run: Some(m.updates[m.next as int].invocation) },
        )
    } else {
        (m, ApplyStepView { report: apply_report(m, e), run: None })
    }
}

/// The commands that the apply procedure asks for when the writes it asks
/// for exit with the given statuses, one after the other.
pub open spec fn run_apply(m: ApplierView, e: EventView, statuses: Seq<bool>) -> Seq<InvocationView>
    decreases statuses.len(),
{
    let (m2, s) = apply_next(m, e);
    match s.run {
        None => Seq::empty(),
        Some(inv) => if statuses.len() == 0 {
            seq![inv]
        } else {
            seq![inv] + run_apply(
                m2,
                EventView::Ran { success: statuses[0], output: Seq::empty() },
                statuses.drop_first(),
            )
        },
    }
}

pub open spec fn invocations(updates: Seq<UpdateView>) -> Seq<InvocationView> {
    updates.map_values(|u: UpdateView| u.invocation)
}

/// From any point, the apply procedure asks for every remaining write, in
/// order, whatever the statuses of the writes.
pub proof fn lemma_apply_runs_remaining(m: ApplierView, e: EventView, statuses: Seq<bool>)
    requires
        m.next <= m.updates.len(),
        statuses.len() + m.next >= m.updates.len(),
    ensures
        run_apply(m, e, statuses) == invocations(m.updates.subrange(m.next as int, m.updates.len() as int)),
    decreases statuses.len(),
{
    let rest = m.updates.subrange(m.next as int, m.updates.len() as int);
    if m.next == m.updates.len() {
        assert(invocations(rest) =~= Seq::empty());
    } else {
        let (m2, s) = apply_next(m, e);
        let tail = m.updates.subrange(m2.next as int, m.updates.len() as int);
        if statuses.len() == 0 {
            assert(invocations(rest) =~= seq![m.updates[m.next as int].invocation]);
        } else {
            lemma_apply_runs_remaining(
                m2,
                EventView::Ran { success: statuses[0], output: Seq::empty() },
                statuses.drop_first(),
            );
            assert(invocations(rest) =~= seq![m.updates[m.next as int].invocation] + invocations(tail));
        }
    }
}

/// Applying a look asks for every write of the plan, in order, whatever the
/// status of each: a failed write stops none of the later ones.
pub proof fn lemma_apply_runs_every_write(
    wallpaper: Seq<char>,
    theme: Seq<char>,
    icons: Seq<char>,
    silent: bool,
    statuses: Seq<bool>,
)
    requires
        statuses.len() >= plan_spec(wallpaper, theme, icons).len(),
    ensures
        run_apply(applier_init(wallpaper, theme, icons, silent), EventView::Begin, statuses)
            == invocations(plan_spec(wallpaper, theme, icons)),
{
    let m = applier_init(wallpaper, theme, icons, silent);
    lemma_apply_runs_remaining(m, EventView::Begin, statuses);
    assert(m.updates.subrange(0, m.updates.len() as int) =~= m.updates);
}

impl Applier {
    /// The apply procedure for `wallpaper`, `theme` and `icons`; `silent`
    /// keeps every report back without changing any write.
    pub fn new(wallpaper: &str, theme: &str, icons: &str, silent: bool) -> (r: Applier)
        ensures
            r@ == applier_init(wallpaper@, theme@, icons@, silent),
    {
        Applier { updates: apply_plan(wallpaper, theme, icons), next: 0, silent }
    }

    /// Takes the outcome of the last write and says what to run next.
    pub fn step(&mut self, event: Event) -> (r: ApplyStep)
        ensures
            (final(self)@, r@) == apply_next(old(self)@, event@),
    {
        let ghost m = self@;
        let report = match event {
            Event::Ran { success, output: _ } => if !self.silent && 0 < self.next && self.next <= self.updates.len() {
                let last = &self.updates[self.next - 1];
                assert(m.updates[self.next - 1] == last@);
                Some(update_outcome(success, last.label.as_str()))
            } else {
                None
            },
            _ => None,
        };
        if self.next < self.updates.len() {
            let run = self.updates[self.next].invocation.duplicate();
            assert(m.updates[self.next as int] == self.updates@[self.next as int]@);
            self.next = self.next + 1;
            ApplyStep { report, run: Some(run) }
        } else {
            ApplyStep { report, run: None }
        }
    }
}

} // verus!
