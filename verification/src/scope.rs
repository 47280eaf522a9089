//! What a decision does to the code around the guard: to what follows it, to the
//! loops around it, and to the function around those.

use crate::guard::{Diversion, Flow, Label, Target};
use crate::normalize::TryAsOption;
use vstd::prelude::*;

verus! {

/// How a loop takes the end of one pass through its body.
#[derive(Debug, PartialEq, Eq)]
pub enum Step<R> {
    /// The loop goes on with its next iteration, if it has one left.
    Next,
    /// The loop ends, and evaluation goes on after it.
    Stop,
    /// The loop ends, and the diversion goes on to what encloses the loop.
    Leave(Diversion<R>),
}

/// A loop that has run.
#[derive(Debug, PartialEq, Eq)]
pub struct LoopRun<R> {
    /// The number of iterations that began.
    pub iterations: usize,
    /// `Proceed` where evaluation goes on after the loop, else the diversion that
    /// left the loop and is still to be taken.
    pub exit: Flow<(), R>,
}

impl Target {
    /// Whether a jump with this target is meant for a loop that carries `label`, as
    /// seen from inside that loop and outside any loop nested in it.
    pub open spec fn names(self, label: Option<Label>) -> bool {
        match self {
            Target::Innermost => true,
            Target::Labeled(wanted) => label == Some(wanted),
        }
    }

    /// Tells whether a jump with this target is meant for a loop that carries `label`.
    pub fn aims_at(self, label: Option<Label>) -> (hit: bool)
        ensures
            hit == self.names(label),
    {
        match self {
            Target::Innermost => true,
            Target::Labeled(wanted) => match label {
                Some(own) => own == wanted,
                None => false,
            },
        }
    }
}

impl<T, R> Flow<T, R> {
    /// Whether `flow` can be the decision that stands after `self` and then `rest`, the
    /// code that follows a guard and takes its payload: `rest` decides where there is a
    /// payload, and a diversion stays what it is whatever `rest` may be.
    pub open spec fn followed_by<U, F: FnOnce(T) -> Flow<U, R>>(
        self,
        rest: F,
        flow: Flow<U, R>,
    ) -> bool {
        match self {
            Flow::Proceed(payload) => call_ensures(rest, (payload,), flow),
            Flow::Divert(diversion) => flow == Flow::<U, R>::Divert(diversion),
        }
    }

    /// Evaluates `rest`, the code that follows a guard, on the payload. After a
    /// diversion `rest` is not evaluated, and need not be callable.
    pub fn and_then<U, F: FnOnce(T) -> Flow<U, R>>(self, rest: F) -> (flow: Flow<U, R>)
        requires
            self matches Flow::Proceed(payload) ==> call_requires(rest, (payload,)),
        ensures
            self.followed_by(rest, flow),
    {
        match self {
            Flow::Proceed(payload) => rest(payload),
            Flow::Divert(diversion) => Flow::Divert(diversion),
        }
    }
}

impl<R> Flow<R, R> {
    /// Whether a function may end on this decision: it holds the function's result,
    /// or a return. A jump that no loop took has no meaning at the end of a function.
    pub open spec fn ends_function(self) -> bool {
        self is Proceed || self matches Flow::Divert(Diversion::Return(_))
    }

    /// What a function returns that ends on this decision.
    pub open spec fn returned(self) -> R
        recommends
            self.ends_function(),
    {
        match self {
            Flow::Proceed(result) => result,
            Flow::Divert(Diversion::Return(fallback)) => fallback,
            Flow::Divert(_) => arbitrary(),
        }
    }

    /// Ends the enclosing function: hands out the result that its body came to, or the
    /// one that a return carries.
    pub fn finish(self) -> (result: R)
        requires
            self.ends_function(),
        ensures
            result == self.returned(),
    {
        match self {
            Flow::Proceed(result) => result,
            Flow::Divert(Diversion::Return(fallback)) => fallback,
            Flow::Divert(_) => vstd::pervasive::unreached(),
        }
    }
}

impl<R> Flow<(), R> {
    /// How a loop that carries `label` takes a pass through its body that ended on this
    /// decision.
    pub open spec fn step_of(self, label: Option<Label>) -> Step<R> {
        match self {
            Flow::Proceed(_) => Step::Next,
            Flow::Divert(Diversion::Continue(target)) => if target.names(label) {
                Step::Next
            } else {
                Step::Leave(Diversion::Continue(target))
            },
            Flow::Divert(Diversion::Break(target)) => if target.names(label) {
                Step::Stop
            } else {
                Step::Leave(Diversion::Break(target))
            },
            Flow::Divert(Diversion::Return(fallback)) => Step::Leave(Diversion::Return(fallback)),
        }
    }

    /// Decides how a loop that carries `label` takes a pass through its body that ended
    /// on this decision.
    pub fn step(self, label: Option<Label>) -> (step: Step<R>)
        ensures
            step == self.step_of(label),
    {
        match self {
            Flow::Proceed(_) => Step::Next,
            Flow::Divert(Diversion::Continue(target)) => if target.aims_at(label) {
                Step::Next
            } else {
                Step::Leave(Diversion::Continue(target))
            },
            Flow::Divert(Diversion::Break(target)) => if target.aims_at(label) {
                Step::Stop
            } else {
                Step::Leave(Diversion::Break(target))
            },
            Flow::Divert(Diversion::Return(fallback)) => Step::Leave(Diversion::Return(fallback)),
        }
    }
}

impl<R> Step<R> {
    /// What a loop comes to whose last pass was taken in this way.
    pub open spec fn exit(self) -> Flow<(), R> {
        match self {
            Step::Next => Flow::Proceed(()),
            Step::Stop => Flow::Proceed(()),
            Step::Leave(diversion) => Flow::Divert(diversion),
        }
    }
}

/// Whether `run` is what comes of a loop that carries `label`, has `count` iterations
/// ahead of it and runs `body` in each, where `trace` holds the decisions on which the
/// passes through `body` ended, in their order.
///
/// Every pass but the last was one after which the loop goes on. The loop ran all
/// `count` iterations unless its last pass ended or left it.
pub open spec fn is_loop_run<R, B: Fn(usize) -> Flow<(), R>>(
    body: B,
    label: Option<Label>,
    count: usize,
    trace: Seq<Flow<(), R>>,
    run: LoopRun<R>,
) -> bool {
    &&& trace.len() == run.iterations
    &&& run.iterations <= count
    &&& forall|i: usize| i < run.iterations ==> call_ensures(body, (i,), #[trigger] trace[i as int])
    &&& forall|i: int| 0 <= i < trace.len() - 1 ==> (#[trigger] trace[i]).step_of(label) is Next
    &&& run.iterations < count ==> trace.len() > 0 && !(trace.last().step_of(label) is Next)
    &&& run.exit == if trace.len() == 0 {
        Flow::Proceed(())
    } else {
        trace.last().step_of(label).exit()
    }
}

/// Runs a loop of `count` iterations that carries `label`. Each pass calls `body` with
/// the number of the iteration, counted from 0, and `body` returns the decision on
/// which the pass ended: a diversion where a guard in it found nothing, `Proceed`
/// where it came to its end.
pub fn run_loop<R, B: Fn(usize) -> Flow<(), R>>(
    label: Option<Label>,
    count: usize,
    body: B,
) -> (run: LoopRun<R>)
    requires
        forall|i: usize| i < count ==> call_requires(body, (i,)),
    ensures
        exists|trace: Seq<Flow<(), R>>| is_loop_run(body, label, count, trace, run),
{
    let ghost mut trace: Seq<Flow<(), R>> = Seq::empty();
    let mut i: usize = 0;
    while i < count
        invariant
            i <= count,
            forall|k: usize| k < count ==> call_requires(body, (k,)),
            trace.len() == i,
            forall|k: usize| k < i ==> call_ensures(body, (k,), #[trigger] trace[k as int]),
            forall|k: int| 0 <= k < trace.len() ==> (#[trigger] trace[k]).step_of(label) is Next,
        decreases count - i,
    {
        let outcome = body(i);
        proof {
            trace = trace.push(outcome);
        }
        match outcome.step(label) {
            Step::Next => {
                i += 1;
            },
            Step::Stop => {
                let run = LoopRun { iterations: i + 1, exit: Flow::Proceed(()) };
                assert(is_loop_run(body, label, count, trace, run));
                return run;
            },
            Step::Leave(diversion) => {
                let run = LoopRun { iterations: i + 1, exit: Flow::Divert(diversion) };
                assert(is_loop_run(body, label, count, trace, run));
                return run;
            },
        }
    }
    let run = LoopRun { iterations: i, exit: Flow::Proceed(()) };
    assert(is_loop_run(body, label, count, trace, run));
    run
}

/// Where a guarded value is present, the code that follows the guard is evaluated, on
/// the payload, and decides.
pub proof fn present_value_reaches_rest<S: TryAsOption, U, R, F: FnOnce(S::Output) -> Flow<U, R>>(
    value: S,
    payload: S::Output,
    diversion: Diversion<R>,
    rest: F,
    flow: Flow<U, R>,
)
    requires
        value.as_option() == Some(payload),
        crate::guard::divert_if_absent(value.as_option(), diversion).followed_by(rest, flow),
    ensures
        call_ensures(rest, (payload,), flow),
{
}

/// Where a value guarded with a return is absent, the enclosing function returns the
/// fallback, whatever code follows the guard.
pub proof fn absent_value_returns_fallback<S: TryAsOption, R, F: FnOnce(S::Output) -> Flow<R, R>>(
    value: S,
    fallback: R,
    rest: F,
    flow: Flow<R, R>,
)
    requires
        value.as_option() is None,
        crate::guard::divert_if_absent(value.as_option(), Diversion::Return(fallback)).followed_by(
            rest,
            flow,
        ),
    ensures
        flow.ends_function(),
        flow.returned() == fallback,
{
}

/// Where a value guarded with a jump is absent, the pass through the loop's body ends
/// on that jump, whatever code follows the guard.
pub proof fn absent_value_skips_rest<S: TryAsOption, U, R, F: FnOnce(S::Output) -> Flow<U, R>>(
    value: S,
    diversion: Diversion<R>,
    rest: F,
    flow: Flow<U, R>,
)
    requires
        value.as_option() is None,
        crate::guard::divert_if_absent(value.as_option(), diversion).followed_by(rest, flow),
    ensures
        flow == Flow::<U, R>::Divert(diversion),
{
}

/// A loop in which every pass comes to its end, or ends on a `Continue` that is meant
/// for this loop, runs each of its iterations, and evaluation goes on after it.
pub proof fn continue_keeps_every_iteration<R, B: Fn(usize) -> Flow<(), R>>(
    body: B,
    label: Option<Label>,
    count: usize,
    trace: Seq<Flow<(), R>>,
    run: LoopRun<R>,
)
    requires
        is_loop_run(body, label, count, trace, run),
        forall|i: int|
            0 <= i < trace.len() ==> {
                ||| (#[trigger] trace[i]) is Proceed
                ||| {
                    &&& trace[i] matches Flow::Divert(Diversion::Continue(target))
                    &&& target.names(label)
                }
            },
    ensures
        run.iterations == count,
        run.exit == Flow::<(), R>::Proceed(()),
{
}

/// A `Break` that is meant for this loop ends it: the pass in which it is raised is
/// the last, and evaluation goes on after the loop.
pub proof fn break_ends_loop<R, B: Fn(usize) -> Flow<(), R>>(
    body: B,
    label: Option<Label>,
    count: usize,
    trace: Seq<Flow<(), R>>,
    run: LoopRun<R>,
    at: int,
    target: Target,
)
    requires
        is_loop_run(body, label, count, trace, run),
        0 <= at < trace.len(),
        trace[at] == Flow::<(), R>::Divert(Diversion::Break(target)),
        target.names(label),
    ensures
        run.iterations == at + 1,
        run.exit == Flow::<(), R>::Proceed(()),
{
}

/// A `Continue` with the label of an outer loop ends the inner loop in the pass in
/// which it is raised, however many iterations the inner loop had ahead of it, and the
/// outer loop takes it by going on with its next iteration.
pub proof fn labeled_continue_advances_outer_loop<R, B: Fn(usize) -> Flow<(), R>>(
    body: B,
    inner: Option<Label>,
    outer: Label,
    count: usize,
    trace: Seq<Flow<(), R>>,
    run: LoopRun<R>,
    at: int,
)
    requires
        is_loop_run(body, inner, count, trace, run),
        inner != Some(outer),
        0 <= at < trace.len(),
        trace[at] == Flow::<(), R>::Divert(Diversion::Continue(Target::Labeled(outer))),
    ensures
        run.iterations == at + 1,
        run.exit == trace[at],
        run.exit.step_of(Some(outer)) is Next,
{
}

/// A `Break` with the label of an outer loop ends the inner loop in the pass in which
/// it is raised, however many iterations the inner loop had ahead of it, and ends the
/// outer loop too.
pub proof fn labeled_break_ends_outer_loop<R, B: Fn(usize) -> Flow<(), R>>(
    body: B,
    inner: Option<Label>,
    outer: Label,
    count: usize,
    trace: Seq<Flow<(), R>>,
    run: LoopRun<R>,
    at: int,
)
    requires
        is_loop_run(body, inner, count, trace, run),
        inner != Some(outer),
        0 <= at < trace.len(),
        trace[at] == Flow::<(), R>::Divert(Diversion::Break(Target::Labeled(outer))),
    ensures
        run.iterations == at + 1,
        run.exit == trace[at],
        run.exit.step_of(Some(outer)) is Stop,
{
}

} // verus!
