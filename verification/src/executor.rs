//! The run of a plan: one request after the other, each made once, and
//! nothing more after the first failure.

use crate::action::ActionView;
use crate::bootstrap::entry;
use crate::plan::{lemma_setup_grows, setup};
use crate::request::{accepts, request_views, Outcome, Request, RequestView};
use vstd::prelude::*;

verus! {

/// The state of a run as a mathematical value: the plan, how many of its
/// requests have been carried out, and whether a failure has ended the run.
pub struct ExecutorView {
    pub plan: Seq<RequestView>,
    pub done: nat,
    pub aborted: bool,
}

impl ExecutorView {
    /// The state before the first request.
    pub open spec fn start(plan: Seq<RequestView>) -> ExecutorView {
        ExecutorView { plan, done: 0, aborted: false }
    }

    /// The request to perform now. There is none once the run was aborted or
    /// the plan is carried out.
    pub open spec fn pending(self) -> Option<RequestView> {
        if !self.aborted && self.done < self.plan.len() {
            Some(self.plan[self.done as int])
        } else {
            None
        }
    }

    /// Whether every request of the plan has been carried out.
    pub open spec fn finished(self) -> bool {
        !self.aborted && self.done >= self.plan.len()
    }

    /// The state after the pending request ended with `outcome`: one request
    /// further if the run goes on, aborted if not. With no request pending
    /// the state stays as it is.
    pub open spec fn report(self, outcome: Outcome) -> ExecutorView {
        match self.pending() {
            None => self,
            Some(request) => if accepts(request, outcome) {
                ExecutorView { done: self.done + 1, ..self }
            } else {
                ExecutorView { aborted: true, ..self }
            },
        }
    }

    /// The state after the outcomes of as many requests were reported, one
    /// after the other.
    pub open spec fn run(self, outcomes: Seq<Outcome>) -> ExecutorView
        decreases outcomes.len(),
    {
        if outcomes.len() == 0 {
            self
        } else {
            self.report(outcomes[0]).run(outcomes.drop_first())
        }
    }

    /// The requests that were attempted while `outcomes` were reported: each
    /// request that was pending when an outcome came in.
    pub open spec fn attempts(self, outcomes: Seq<Outcome>) -> Seq<RequestView>
        decreases outcomes.len(),
    {
        if outcomes.len() == 0 {
            Seq::empty()
        } else {
            match self.pending() {
                None => Seq::empty(),
                Some(request) => seq![request] + self.report(outcomes[0]).attempts(
                    outcomes.drop_first(),
                ),
            }
        }
    }
}

/// A run in progress. It owns the plan and hands out one request at a time.
#[derive(Debug)]
pub struct Executor {
    plan: Vec<Request>,
    done: usize,
    aborted: bool,
}

impl View for Executor {
    type V = ExecutorView;

    closed spec fn view(&self) -> ExecutorView {
        ExecutorView {
            plan: request_views(self.plan@),
            done: self.done as nat,
            aborted: self.aborted,
        }
    }
}

impl Executor {
    /// A run of `plan` of which nothing has been done yet.
    pub fn new(plan: Vec<Request>) -> (executor: Executor)
        ensures
            executor@ == ExecutorView::start(request_views(plan@)),
    {
        Executor { plan, done: 0, aborted: false }
    }

    /// The request to perform now, if there is one.
    pub fn pending(&self) -> (request: Option<&Request>)
        ensures
            match request {
                Some(request) => self@.pending() == Some(request@),
                None => self@.pending() is None,
            },
    {
        if !self.aborted && self.done < self.plan.len() {
            Some(&self.plan[self.done])
        } else {
            None
        }
    }

    /// Takes note of how the pending request ended.
    pub fn report(&mut self, outcome: Outcome)
        ensures
            final(self)@ == old(self)@.report(outcome),
    {
        if !self.aborted && self.done < self.plan.len() {
            if self.plan[self.done].tolerates(outcome) {
                self.done = self.done + 1;
            } else {
                self.aborted = true;
            }
        }
    }

    /// Whether a failure has ended the run.
    pub fn is_aborted(&self) -> (aborted: bool)
        ensures
            aborted == self@.aborted,
    {
        self.aborted
    }

    /// Whether every request of the plan has been carried out.
    pub fn is_finished(&self) -> (finished: bool)
        ensures
            finished == self@.finished(),
    {
        !self.aborted && self.done >= self.plan.len()
    }
}

/// Once aborted, a run stays as it is, whatever is reported: no request is
/// pending and none is attempted.
pub proof fn lemma_abort_is_final(state: ExecutorView, outcomes: Seq<Outcome>)
    requires
        state.aborted,
    ensures
        state.run(outcomes) == state,
        state.run(outcomes).pending() is None,
        state.attempts(outcomes) == Seq::<RequestView>::empty(),
    decreases outcomes.len(),
{
    if outcomes.len() > 0 {
        lemma_abort_is_final(state, outcomes.drop_first());
    }
}

/// While every outcome lets the run go on, the run moves along the plan one
/// request for each outcome, and the requests attempted are those of the
/// plan, in its order, each once.
pub proof fn lemma_run_goes_on(state: ExecutorView, outcomes: Seq<Outcome>, count: nat)
    requires
        !state.aborted,
        count <= outcomes.len(),
        state.done + count <= state.plan.len(),
        forall|i: int|
            0 <= i < count ==> accepts(#[trigger] state.plan[state.done + i], outcomes[i]),
    ensures
        state.run(outcomes) == (ExecutorView { done: state.done + count, ..state }).run(
            outcomes.subrange(count as int, outcomes.len() as int),
        ),
        state.attempts(outcomes) == state.plan.subrange(
            state.done as int,
            (state.done + count) as int,
        ) + (ExecutorView { done: state.done + count, ..state }).attempts(
            outcomes.subrange(count as int, outcomes.len() as int),
        ),
    decreases count,
{
    let left = outcomes.subrange(count as int, outcomes.len() as int);
    if count == 0 {
        assert(left =~= outcomes);
    } else {
        let next = ExecutorView { done: state.done + 1, ..state };
        let tail = outcomes.drop_first();
        assert(accepts(state.plan[(state.done + 0) as int], outcomes[0]));
        assert forall|i: int| 0 <= i < count - 1 implies accepts(
            #[trigger] next.plan[next.done + i],
            tail[i],
        ) by {
            assert(accepts(state.plan[state.done + (i + 1)], outcomes[i + 1]));
        }
        lemma_run_goes_on(next, tail, (count - 1) as nat);
        assert(tail.subrange(count - 1, tail.len() as int) =~= left);
    }
}

/// A run in which nothing fails attempts the requests of the plan in order,
/// each once, and is finished when the last one is done.
pub proof fn lemma_run_in_order(plan: Seq<RequestView>, outcomes: Seq<Outcome>)
    requires
        outcomes.len() <= plan.len(),
        forall|i: int| 0 <= i < outcomes.len() ==> accepts(#[trigger] plan[i], outcomes[i]),
    ensures
        ExecutorView::start(plan).run(outcomes) == (ExecutorView {
            plan,
            done: outcomes.len(),
            aborted: false,
        }),
        ExecutorView::start(plan).attempts(outcomes) == plan.subrange(0, outcomes.len() as int),
        ExecutorView::start(plan).run(outcomes).finished() <==> outcomes.len() == plan.len(),
{
    let start = ExecutorView::start(plan);
    assert forall|i: int| 0 <= i < outcomes.len() implies accepts(
        #[trigger] start.plan[start.done + i],
        outcomes[i],
    ) by {}
    lemma_run_goes_on(start, outcomes, outcomes.len());
}

/// The first failure ends the run: the request that failed is the last one
/// attempted, none of those behind it in the plan ever is, and no request is
/// pending any more, however many outcomes are reported after it.
pub proof fn lemma_stops_at_first_failure(
    plan: Seq<RequestView>,
    outcomes: Seq<Outcome>,
    failed: nat,
)
    requires
        failed < outcomes.len(),
        failed < plan.len(),
        forall|i: int| 0 <= i < failed ==> accepts(#[trigger] plan[i], outcomes[i]),
        !accepts(plan[failed as int], outcomes[failed as int]),
    ensures
        ExecutorView::start(plan).run(outcomes) == (ExecutorView {
            plan,
            done: failed,
            aborted: true,
        }),
        ExecutorView::start(plan).run(outcomes).pending() is None,
        ExecutorView::start(plan).attempts(outcomes) == plan.subrange(0, (failed + 1) as int),
{
    let start = ExecutorView::start(plan);
    let stopped = ExecutorView { plan, done: failed, aborted: true };
    let left = outcomes.subrange(failed as int, outcomes.len() as int);
    assert forall|i: int| 0 <= i < failed implies accepts(
        #[trigger] start.plan[start.done + i],
        outcomes[i],
    ) by {}
    lemma_run_goes_on(start, outcomes, failed);
    lemma_abort_is_final(stopped, left.drop_first());
}

/// A failure spares what comes later: where the request that fails belongs
/// to the entry or to one of the first `count` actions, every request that is
/// attempted belongs to them too. Nothing of a later action is attempted,
/// and the program is not started.
pub proof fn lemma_failure_spares_the_rest(
    config: ActionView,
    uid: nat,
    gid: nat,
    outcomes: Seq<Outcome>,
    failed: nat,
    count: nat,
)
    requires
        count <= config.actions.len(),
        failed < outcomes.len(),
        failed < (entry(uid, gid) + setup(config.actions, count)).len(),
        forall|i: int|
            0 <= i < failed ==> accepts(#[trigger] config.plan(uid, gid)[i], outcomes[i]),
        !accepts(config.plan(uid, gid)[failed as int], outcomes[failed as int]),
    ensures
        ExecutorView::start(config.plan(uid, gid)).attempts(outcomes) == (entry(uid, gid) + setup(
            config.actions,
            count,
        )).subrange(0, (failed + 1) as int),
        ExecutorView::start(config.plan(uid, gid)).run(outcomes).aborted,
{
    let plan = config.plan(uid, gid);
    lemma_setup_grows(config.actions, count, config.actions.len());
    lemma_stops_at_first_failure(plan, outcomes, failed);
}

} // verus!
