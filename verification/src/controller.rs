//! Stateful controllers, with and without a notion of elapsed time.

use std::time::Duration;
use vstd::prelude::*;

verus! {

/// A stateful controller: each step consumes an input, may change the
/// controller's state, and produces an output.
pub trait Controller<Input, Output> {
    /// Whether a step taken in state `self` on `input` may end in state
    /// `post` and produce `output`. A controller that does not say
    /// otherwise promises nothing: any outcome may be.
    open spec fn step_outcome(&self, input: Input, post: &Self, output: Output) -> bool {
        true
    }

    /// Calculate the next state.
    fn next(&mut self, input: Input) -> (output: Output)
        ensures
            old(self).step_outcome(input, final(self), output),
    ;
}

/// A stateful controller whose steps depend on the time elapsed since the
/// previous step.
pub trait TimeStepController<Input, Output> {
    /// Whether a step taken in state `self` on `input`, `delta_t` after the
    /// previous one, may end in state `post` and produce `output`. A
    /// controller that does not say otherwise promises nothing: any outcome
    /// may be.
    open spec fn timed_step_outcome(
        &self,
        input: Input,
        delta_t: Duration,
        post: &Self,
        output: Output,
    ) -> bool {
        true
    }

    /// Calculate the next state.
    fn next(&mut self, input: Input, delta_t: &Duration) -> (output: Output)
        ensures
            old(self).timed_step_outcome(input, *delta_t, final(self), output),
    ;
}

impl<I, O, C> TimeStepController<I, O> for C where for <'a>C: Controller<(I, &'a Duration), O> {
    open spec fn timed_step_outcome(&self, input: I, delta_t: Duration, post: &Self, output: O) -> bool {
        self.step_outcome((input, &delta_t), post, output)
    }

    fn next(&mut self, input: I, delta_t: &Duration) -> (output: O) {
        Controller::next(self, (input, delta_t))
    }
}

/// A controller that steps on pairs of an input and an elapsed time is a
/// time-step controller, and stepping it through that interface is stepping
/// it on the pair: the same change of state, the same output.
pub proof fn lemma_time_step_is_step_on_pair<I, O, C>(
    pre: C,
    input: I,
    delta_t: Duration,
    post: C,
    output: O,
) where for <'a>C: Controller<(I, &'a Duration), O>
    ensures
        TimeStepController::<I, O>::timed_step_outcome(&pre, input, delta_t, &post, output)
            <==> Controller::<(I, &Duration), O>::step_outcome(
            &pre,
            (input, &delta_t),
            &post,
            output,
        ),
{
}

/// Controller type: the controller of a loop is one of the two kinds, a PID
/// controller of type `P` or a bang-bang controller of type `B`.
#[derive(Debug)]
pub enum ControllerType<P, B> {
    Pid(P),
    BangBang(B),
}

/// Controller configuration: the configuration of a PID controller, of type
/// `P`, or that of a bang-bang controller, of type `B`.
#[derive(Debug, Clone)]
pub enum ControllerConfig<P, B> {
    Pid(P),
    BangBang(B),
}

} // verus!
