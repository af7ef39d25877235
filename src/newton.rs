//! The control of the implied-volatility solver.
//!
//! The solver runs Newton's method on the volatility: at most `max_iteration`
//! times it prices the option at the current volatility, stops if the price
//! is within the tolerance of the market price, and otherwise evaluates the
//! vega and takes the step `sigma += (market - price) / vega`. If the cap is
//! reached first it stops with the last volatility. The arithmetic on reals
//! is the host's; this module decides what comes next from what the host
//! reports, and proves that the run ends.

use vstd::prelude::*;

verus! {

/// How a run of the solver ended.
#[derive(Clone, Copy, Debug, PartialEq, Eq, Structural)]
pub enum Outcome {
    /// A price came within the tolerance of the market price.
    Converged,
    /// The iteration cap was reached first; the last volatility stands.
    CapReached,
}

/// What the host is to do next.
#[derive(Clone, Copy, Debug, PartialEq, Eq, Structural)]
pub enum Action {
    /// Price the option at the current volatility and compare the price with
    /// the market price; report the comparison with `on_price`.
    EvaluatePrice,
    /// Evaluate the vega at the current volatility and take the Newton step;
    /// report it with `on_step`.
    EvaluateVegaAndStep,
    /// Stop: the current volatility is the result.
    Finish(Outcome),
}

/// The abstract state of a run.
pub struct NewtonState {
    /// Newton steps taken so far.
    pub completed: nat,
    /// The iteration cap.
    pub max_iteration: nat,
    /// A price was found outside the tolerance and its step is still due.
    pub awaiting_step: bool,
    /// A price was found within the tolerance.
    pub converged: bool,
}

impl NewtonState {
    pub open spec fn wf(self) -> bool {
        &&& self.completed <= self.max_iteration
        &&& self.awaiting_step ==> self.completed < self.max_iteration
        &&& !(self.awaiting_step && self.converged)
    }

    /// What the host is to do in this state.
    pub open spec fn action(self) -> Action {
        if self.converged {
            Action::Finish(Outcome::Converged)
        } else if self.awaiting_step {
            Action::EvaluateVegaAndStep
        } else if self.completed < self.max_iteration {
            Action::EvaluatePrice
        } else {
            Action::Finish(Outcome::CapReached)
        }
    }

    /// The state after a price was reported.
    pub open spec fn after_price(self, within_tolerance: bool) -> NewtonState {
        NewtonState { converged: within_tolerance, awaiting_step: !within_tolerance, ..self }
    }

    /// The state after a Newton step was reported.
    pub open spec fn after_step(self) -> NewtonState {
        NewtonState { completed: self.completed + 1, awaiting_step: false, ..self }
    }

    /// The state that a run reaches from this one when the host reports, in
    /// order, whether each price it evaluates lies within the tolerance.
    pub open spec fn run(self, reports: Seq<bool>) -> NewtonState
        decreases reports.len(),
    {
        if reports.len() == 0 || !(self.action() is EvaluatePrice) {
            self
        } else {
            let priced = self.after_price(reports[0]);
            let next = if priced.converged {
                priced
            } else {
                priced.after_step()
            };
            next.run(reports.drop_first())
        }
    }

    /// An upper bound on the number of actions left before the run finishes.
    pub open spec fn remaining(self) -> nat {
        if self.converged {
            0
        } else if self.awaiting_step {
            (2 * (self.max_iteration - self.completed) - 1) as nat
        } else {
            (2 * (self.max_iteration - self.completed)) as nat
        }
    }
}

/// The control of one run of the solver.
pub struct NewtonControl {
    completed: usize,
    max_iteration: usize,
    awaiting_step: bool,
    converged: bool,
}

impl View for NewtonControl {
    type V = NewtonState;

    closed spec fn view(&self) -> NewtonState {
        NewtonState {
            completed: self.completed as nat,
            max_iteration: self.max_iteration as nat,
            awaiting_step: self.awaiting_step,
            converged: self.converged,
        }
    }
}

impl NewtonControl {
    /// A run with the given iteration cap that has not started.
    pub fn new(max_iteration: usize) -> (c: Self)
        ensures
            c@.wf(),
            c@.completed == 0,
            c@.max_iteration == max_iteration,
            !c@.awaiting_step,
            !c@.converged,
            c@.remaining() == 2 * max_iteration,
    {
        NewtonControl { completed: 0, max_iteration, awaiting_step: false, converged: false }
    }

    /// Newton steps taken so far.
    pub fn completed(&self) -> (n: usize)
        ensures
            n == self@.completed,
    {
        self.completed
    }

    /// What the host is to do next.
    pub fn next_action(&self) -> (a: Action)
        requires
            self@.wf(),
        ensures
            a == self@.action(),
    {
        if self.converged {
            Action::Finish(Outcome::Converged)
        } else if self.awaiting_step {
            Action::EvaluateVegaAndStep
        } else if self.completed < self.max_iteration {
            Action::EvaluatePrice
        } else {
            Action::Finish(Outcome::CapReached)
        }
    }

    /// Reports the price at the current volatility: whether it lies within
    /// the tolerance of the market price.
    pub fn on_price(&mut self, within_tolerance: bool)
        requires
            old(self)@.wf(),
            old(self)@.action() == Action::EvaluatePrice,
        ensures
            final(self)@.wf(),
            final(self)@ == old(self)@.after_price(within_tolerance),
            final(self)@.remaining() < old(self)@.remaining(),
    {
        if within_tolerance {
            self.converged = true;
        } else {
            self.awaiting_step = true;
        }
    }

    /// Reports that the Newton step at the current volatility was taken.
    pub fn on_step(&mut self)
        requires
            old(self)@.wf(),
            old(self)@.action() == Action::EvaluateVegaAndStep,
        ensures
            final(self)@.wf(),
            final(self)@ == old(self)@.after_step(),
            final(self)@.remaining() < old(self)@.remaining(),
    {
        self.completed = self.completed + 1;
        self.awaiting_step = false;
    }
}

/// A run is finished exactly when no action is left: a well-formed state asks
/// for work while, and only while, its bound on the remaining actions is
/// positive.
pub proof fn lemma_finish_iff_nothing_remains(s: NewtonState)
    requires
        s.wf(),
    ensures
        (s.action() is Finish) <==> s.remaining() == 0,
{
}

/// A run from a state between iterations, with a report for every iteration
/// that the cap still allows, finishes. It stops at the first price within
/// the tolerance, having taken one step for each price before it; if there is
/// none before the cap, it stops at the cap.
pub proof fn lemma_run_from(s: NewtonState, reports: Seq<bool>)
    requires
        s.wf(),
        !s.awaiting_step,
        !s.converged,
        reports.len() >= s.max_iteration - s.completed,
    ensures
        ({
            let r = s.run(reports);
            &&& r.wf()
            &&& r.action() is Finish
            &&& r.max_iteration == s.max_iteration
            &&& s.completed <= r.completed <= s.max_iteration
            &&& forall|j: int| 0 <= j < r.completed - s.completed ==> !reports[j]
            &&& r.converged ==> r.completed < s.max_iteration && reports[r.completed
                - s.completed]
            &&& !r.converged ==> r.completed == s.max_iteration
        }),
    decreases s.max_iteration - s.completed,
{
    if s.completed < s.max_iteration {
        let rest = reports.drop_first();
        let priced = s.after_price(reports[0]);
        if !reports[0] {
            let next = priced.after_step();
            lemma_run_from(next, rest);
            let r = next.run(rest);
            assert(s.run(reports) == r);
            assert forall|j: int| 0 <= j < r.completed - s.completed implies !reports[j] by {
                if j > 0 {
                    assert(reports[j] == rest[j - 1]);
                }
            }
        } else {
            assert(priced.run(rest) == priced);
        }
    }
}

/// The whole solver: a run with cap `max_iteration`, given a report for each
/// iteration, converges exactly when one of the first `max_iteration` prices
/// lies within the tolerance. It then stops at the first such price, after
/// one Newton step for each price before it; otherwise it stops at the cap
/// after `max_iteration` steps.
pub proof fn lemma_solver_run(max_iteration: nat, reports: Seq<bool>)
    requires
        reports.len() >= max_iteration,
    ensures
        ({
            let s = NewtonState {
                completed: 0,
                max_iteration,
                awaiting_step: false,
                converged: false,
            };
            let r = s.run(reports);
            &&& r.action() is Finish
            &&& r.converged <==> exists|i: int| 0 <= i < max_iteration && reports[i]
            &&& forall|j: int| 0 <= j < r.completed ==> !reports[j]
            &&& r.converged ==> r.completed < max_iteration && reports[r.completed as int]
            &&& !r.converged ==> r.completed == max_iteration
        }),
{
    let s = NewtonState { completed: 0, max_iteration, awaiting_step: false, converged: false };
    lemma_run_from(s, reports);
    let r = s.run(reports);
    if !r.converged {
        assert forall|i: int| 0 <= i < max_iteration implies !reports[i] by {
            assert(!reports[i]);
        }
    }
}

} // verus!
