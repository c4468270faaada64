//! Launching the whole list, one item after the other.
//!
//! A `BatchRun` walks the list in its stored order. For the item it stands
//! at, it hands out the plan; the caller waits and starts the process as the
//! plan says, and reports back. Whatever is reported, the run moves on to the
//! next item: an item that fails never keeps a later one from being tried.

use vstd::prelude::*;
use crate::error::message_text;
use crate::item::{item_views, StartupItem, StartupItemView};
use crate::launch::{
    conclude_launch, concluded, plan_item, plan_of, settled_of, ItemOutcome, ItemOutcomeView,
    ItemPlan, ItemPlanView,
};
use crate::settings::AppSettings;
use crate::text::joined;

verus! {

/// What the process does once a pass over the list, or a request to start
/// again with administrator rights, has been carried out.
#[derive(Clone, Copy, Debug, PartialEq, Eq, Structural)]
pub enum Continuation {
    /// The operation returns to its caller.
    Return,
    /// The process waits `grace_millis` milliseconds and then ends. Nothing
    /// that follows the operation is run.
    Terminate { grace_millis: u64 },
}

/// The milliseconds left to the started processes before the launcher ends.
pub const EXIT_GRACE_MILLIS: u64 = 1000;

/// What the caller reports for the current item: `None` if it started
/// nothing, else whether the operating system created the process or what it
/// said when it did not.
pub open spec fn report_view(started: Option<Result<(), String>>) -> Option<Result<(), Seq<char>>> {
    match started {
        None => None,
        Some(Ok(_)) => Some(Ok(())),
        Some(Err(detail)) => Some(Err(detail@)),
    }
}

/// How an item with the given plan ends on the given report, or `None` where
/// the plan starts a process and the caller has not tried to start it.
pub open spec fn outcome_of(plan: ItemPlanView, started: Option<Result<(), Seq<char>>>) -> Option<
    ItemOutcomeView,
> {
    match plan {
        ItemPlanView::Launch { delay_seconds, request } => match started {
            Some(result) => Some(concluded(request, result)),
            None => None,
        },
        _ => settled_of(plan),
    }
}

/// The line written to the diagnostic log for an item that failed; `None`
/// for an item that did not fail.
pub open spec fn failure_line(name: Seq<char>, outcome: ItemOutcomeView) -> Option<Seq<char>> {
    match outcome {
        ItemOutcomeView::Failed(error) => Some(
            "执行启动项 '"@ + name + "' 失败: "@ + message_text(error),
        ),
        _ => None,
    }
}

/// The state of a pass: its items, and the outcomes of those dealt with.
pub struct RunState {
    pub items: Seq<StartupItemView>,
    pub outcomes: Seq<ItemOutcomeView>,
}

impl RunState {
    /// The index of the item that the pass stands at.
    pub open spec fn position(self) -> int {
        self.outcomes.len() as int
    }

    /// Every item has been dealt with.
    pub open spec fn finished(self) -> bool {
        self.position() >= self.items.len()
    }

    /// The plan for the item that the pass stands at.
    pub open spec fn current_plan(self) -> ItemPlanView
        recommends
            !self.finished(),
    {
        plan_of(self.items[self.position()])
    }

    /// The outcome that a report gives the current item, if it gives one.
    pub open spec fn current_outcome(self, started: Option<Result<(), Seq<char>>>) -> Option<
        ItemOutcomeView,
    > {
        if self.finished() {
            None
        } else {
            outcome_of(self.current_plan(), started)
        }
    }

    /// The state after a report: the current item's outcome is noted and the
    /// pass stands at the next item. The state is unchanged where the report
    /// gives the current item no outcome.
    pub open spec fn recorded(self, started: Option<Result<(), Seq<char>>>) -> RunState {
        match self.current_outcome(started) {
            Some(outcome) => RunState { items: self.items, outcomes: self.outcomes.push(outcome) },
            None => self,
        }
    }

    /// The state after a sequence of reports, taken one after the other.
    pub open spec fn recorded_all(self, reports: Seq<Option<Result<(), Seq<char>>>>) -> RunState
        decreases reports.len(),
    {
        if reports.len() == 0 {
            self
        } else {
            self.recorded_all(reports.drop_last()).recorded(reports.last())
        }
    }
}

/// The state of a pass over `items` before anything was reported.
pub open spec fn fresh(items: Seq<StartupItemView>) -> RunState {
    RunState { items, outcomes: Seq::empty() }
}

/// The report answers the plan: the caller has tried to start the process if
/// the plan asks for one.
pub open spec fn answers(plan: ItemPlanView, started: Option<Result<(), Seq<char>>>) -> bool {
    plan is Launch ==> started is Some
}

/// Every item of a pass is reached, and ends as its own plan and its own
/// report say.
///
/// Take any list of items and, for each of the first few of them, a report
/// that answers the item's plan. After these reports the pass stands behind
/// the last of these items, and the outcome noted for each is the one that
/// its plan gives on its report. No outcome depends on another item or on
/// another report, so a failure changes nothing for the items after it.
pub proof fn lemma_every_item_is_reached(
    items: Seq<StartupItemView>,
    reports: Seq<Option<Result<(), Seq<char>>>>,
)
    requires
        reports.len() <= items.len(),
        forall|i: int| 0 <= i < reports.len() ==> answers(plan_of(items[i]), #[trigger] reports[i]),
    ensures
        fresh(items).recorded_all(reports).items == items,
        fresh(items).recorded_all(reports).position() == reports.len(),
        forall|i: int|
            0 <= i < reports.len() ==> outcome_of(plan_of(items[i]), reports[i]) == Some(
                #[trigger] fresh(items).recorded_all(reports).outcomes[i],
            ),
    decreases reports.len(),
{
    if reports.len() > 0 {
        let earlier = reports.drop_last();
        assert forall|i: int| 0 <= i < earlier.len() implies answers(
            plan_of(items[i]),
            #[trigger] earlier[i],
        ) by {
            assert(earlier[i] == reports[i]);
        }
        lemma_every_item_is_reached(items, earlier);
        let before = fresh(items).recorded_all(earlier);
        let last = reports.len() - 1;
        assert(answers(plan_of(items[last]), reports[last]));
        assert(before.current_outcome(reports.last()) is Some);
        let after = before.recorded(reports.last());
        assert(after == fresh(items).recorded_all(reports));
        assert forall|i: int| 0 <= i < reports.len() implies outcome_of(
            plan_of(items[i]),
            reports[i],
        ) == Some(#[trigger] after.outcomes[i]) by {
            if i < last {
                assert(earlier[i] == reports[i]);
                assert(after.outcomes[i] == before.outcomes[i]);
            }
        }
    }
}

/// A pass over a list of items.
pub struct BatchRun {
    items: Vec<StartupItem>,
    outcomes: Vec<ItemOutcome>,
}

/// The outcomes of a list, each by its view.
pub open spec fn outcome_views(outcomes: Seq<ItemOutcome>) -> Seq<ItemOutcomeView> {
    outcomes.map_values(|outcome: ItemOutcome| outcome@)
}

impl View for BatchRun {
    type V = RunState;

    closed spec fn view(&self) -> RunState {
        RunState { items: item_views(self.items@), outcomes: outcome_views(self.outcomes@) }
    }
}

impl BatchRun {
    /// Starts a pass over `items`, at the first of them.
    pub fn new(items: Vec<StartupItem>) -> (run: BatchRun)
        ensures
            run@ == fresh(item_views(items@)),
    {
        let run = BatchRun { items, outcomes: Vec::new() };
        assert(run@.outcomes =~= Seq::<ItemOutcomeView>::empty());
        run
    }

    /// Tells whether every item has been dealt with.
    pub fn is_finished(&self) -> (done: bool)
        ensures
            done == self@.finished(),
    {
        self.outcomes.len() >= self.items.len()
    }

    /// Returns the plan for the item that the pass stands at, and `None` once
    /// every item has been dealt with. The plan is that of the item alone:
    /// what happened to earlier items has no part in it.
    pub fn next_plan(&self) -> (plan: Option<ItemPlan>)
        ensures
            match plan {
                Some(p) => !self@.finished() && p@ == self@.current_plan(),
                None => self@.finished(),
            },
    {
        let at = self.outcomes.len();
        if at < self.items.len() {
            Some(plan_item(&self.items[at]))
        } else {
            None
        }
    }

    /// Takes the caller's report for the current item, notes how the item
    /// ended and moves on to the next one, whether the item failed or not.
    /// Returns the line for the diagnostic log if the item failed.
    ///
    /// Nothing changes, and nothing is returned, once every item has been
    /// dealt with, or where the plan starts a process and `started` is
    /// `None`: the caller has then not done what the plan asks for.
    pub fn record(&mut self, started: Option<Result<(), String>>) -> (log: Option<String>)
        ensures
            final(self)@ == old(self)@.recorded(report_view(started)),
            match log {
                Some(line) => {
                    &&& old(self)@.current_outcome(report_view(started)) matches Some(outcome)
                    &&& failure_line(old(self)@.items[old(self)@.position()].name, outcome)
                        == Some(line@)
                },
                None => old(self)@.current_outcome(report_view(started)) matches Some(outcome)
                    ==> failure_line(old(self)@.items[old(self)@.position()].name, outcome)
                    is None,
            },
    {
        let at = self.outcomes.len();
        if at >= self.items.len() {
            return None;
        }
        let plan = plan_item(&self.items[at]);
        let outcome = match &plan {
            ItemPlan::Launch { request, .. } => match started {
                Some(result) => conclude_launch(request, result),
                None => {
                    return None;
                },
            },
            _ => match plan.settled() {
                Some(outcome) => outcome,
                None => {
                    return None;
                },
            },
        };
        let log = match &outcome {
            ItemOutcome::Failed(error) => {
                let message = error.message();
                let a = joined("执行启动项 '", self.items[at].name.as_str());
                let b = joined(a.as_str(), "' 失败: ");
                Some(joined(b.as_str(), message.as_str()))
            },
            _ => None,
        };
        let ghost before = self.outcomes@;
        self.outcomes.push(outcome);
        assert(outcome_views(self.outcomes@) =~= outcome_views(before).push(outcome@));
        log
    }

    /// Returns the outcomes of the items dealt with so far, in list order.
    pub fn into_outcomes(self) -> (outcomes: Vec<ItemOutcome>)
        ensures
            outcome_views(outcomes@) == self@.outcomes,
    {
        self.outcomes
    }
}

/// Says what the process does after a pass over the list: it ends, after a
/// grace of one second that lets the started processes settle, if the
/// settings ask for that; otherwise the operation returns.
pub fn after_batch(settings: &AppSettings) -> (next: Continuation)
    ensures
        next == if settings.exit_after_startup {
            Continuation::Terminate { grace_millis: EXIT_GRACE_MILLIS }
        } else {
            Continuation::Return
        },
{
    if settings.exit_after_startup {
        Continuation::Terminate { grace_millis: EXIT_GRACE_MILLIS }
    } else {
        Continuation::Return
    }
}

} // verus!
