//! The driver side of the trampoline.
//!
//! The driver owns one instance for the length of a run. It alternates steps
//! of guest code, which the host executes where blocking is allowed, with
//! awaits of the futures that hostcalls yield. What is executed and awaited is
//! the host's business; which of the two comes next, with which value, and
//! when the run ends is decided here.

use vstd::prelude::*;
use crate::envelope::{Payload, ResumeVal, YieldedFuture};
use crate::instance::{Error, Instance, State};

verus! {

/// How one step of an instance ended.
#[derive(Debug, PartialEq, Eq)]
pub enum RunResult<T> {
    /// The entrypoint returned this value.
    Returned(u64),
    /// The guest suspended itself with this value on the yield channel.
    Yielded(Payload<T>),
}

/// The step that the host is to execute, in the asynchronous context.
#[derive(Debug, PartialEq, Eq)]
pub enum Step<T> {
    /// Resolve the entrypoint and call it.
    Start,
    /// Resume the suspended guest with this value.
    Resume(ResumeVal<T>),
}

/// What the driver does after a step.
#[derive(Clone, Copy, Debug, PartialEq, Eq)]
pub enum Next {
    /// Await this future, then report its outcome.
    Await(YieldedFuture),
    /// The run is over, with the entrypoint's value or an error.
    Return(Result<u64, Error>),
}

/// Where the driver stands in its loop.
#[derive(Clone, Copy, Debug, PartialEq, Eq, Structural)]
pub enum Phase {
    /// Between steps: the next step can begin.
    Idle,
    /// A step is being executed.
    Stepping,
    /// The future of a suspended hostcall is being awaited.
    Awaiting(YieldedFuture),
    /// The run is over.
    Done,
}

/// The driver and its instance as one mathematical value.
pub ghost struct Machine<T> {
    /// The state of the instance.
    pub state: State,
    /// The value that the next step resumes the guest with.
    pub resume_val: Option<ResumeVal<T>>,
    /// The driver's place in its loop.
    pub phase: Phase,
    /// How many pending futures the guest has yielded.
    pub block_ons: nat,
    /// How many awaits have completed.
    pub awaits: nat,
    /// How many steps have begun.
    pub steps: nat,
}

/// A count as far as sixty-four bits show it: itself up to `u64::MAX`, and
/// `u64::MAX` beyond.
pub open spec fn capped(n: nat) -> nat {
    if n < u64::MAX {
        n
    } else {
        u64::MAX as nat
    }
}

impl<T> Machine<T> {
    /// The discipline of the loop. Between steps the instance is suspended
    /// exactly if a resume value is waiting for it; during an await it is
    /// suspended and no value is there yet; every future that was yielded
    /// has been awaited, but for the one that is being awaited; and one step
    /// has begun for the start and one after each await.
    pub open spec fn wf(self) -> bool {
        &&& match self.phase {
            Phase::Idle => (self.state == State::Yielded) == self.resume_val.is_some(),
            Phase::Stepping => self.resume_val.is_none() && self.state != State::Yielded,
            Phase::Awaiting(_) => self.resume_val.is_none() && self.state == State::Yielded,
            Phase::Done => self.resume_val.is_none(),
        }
        &&& self.block_ons == self.awaits + (if self.phase is Awaiting {
            1nat
        } else {
            0nat
        })
        &&& self.steps == self.awaits + (if self.phase is Idle {
            0nat
        } else {
            1nat
        })
    }

    /// The machine at the start of a run on an instance in `state`.
    pub open spec fn fresh(state: State) -> Machine<T> {
        Machine { state, resume_val: None, phase: Phase::Idle, block_ons: 0, awaits: 0, steps: 0 }
    }

    /// The step that begins from a machine between steps.
    pub open spec fn step(self) -> Step<T> {
        if self.state == State::Yielded && self.resume_val.is_some() {
            Step::Resume(self.resume_val.unwrap())
        } else {
            Step::Start
        }
    }

    /// The machine once that step has begun: the resume value is spent, and a
    /// resumed guest is running. A guest that is started runs only once its
    /// entrypoint is found, which the step's outcome tells.
    pub open spec fn begin_step(self) -> Machine<T> {
        Machine {
            state: if self.state == State::Yielded {
                State::Running { async_context: true }
            } else {
                self.state
            },
            resume_val: None,
            phase: Phase::Stepping,
            steps: self.steps + 1,
            ..self
        }
    }

    /// What follows a step that ended in `outcome`.
    pub open spec fn next(outcome: Result<RunResult<T>, Error>) -> Next {
        match outcome {
            Ok(RunResult::Returned(value)) => Next::Return(Ok(value)),
            Ok(RunResult::Yielded(Payload::Future(future))) => Next::Await(future),
            Ok(RunResult::Yielded(_)) => Next::Return(Err(Error::UnsupportedYield)),
            Err(error) => Next::Return(Err(error)),
        }
    }

    /// The machine after a step that ended in `outcome`.
    pub open spec fn on_step(self, outcome: Result<RunResult<T>, Error>) -> Machine<T> {
        match outcome {
            Ok(RunResult::Returned(_)) => Machine {
                state: State::Finished,
                phase: Phase::Done,
                ..self
            },
            Ok(RunResult::Yielded(Payload::Future(future))) => Machine {
                state: State::Yielded,
                phase: Phase::Awaiting(future),
                block_ons: self.block_ons + 1,
                ..self
            },
            Ok(RunResult::Yielded(_)) => Machine {
                state: State::Yielded,
                phase: Phase::Done,
                ..self
            },
            Err(error) => Machine {
                state: if error == Error::EntrypointMissing && !(self.state is Running) {
                    self.state
                } else {
                    State::Finished
                },
                phase: Phase::Done,
                ..self
            },
        }
    }

    /// The machine after the awaited future has completed with `value`.
    pub open spec fn on_resolved(self, value: T) -> Machine<T>
        recommends
            self.phase is Awaiting,
    {
        Machine {
            resume_val: Some(self.phase->Awaiting_0.resolved(value)),
            phase: Phase::Idle,
            awaits: self.awaits + 1,
            ..self
        }
    }
}

/// A count of events: exact as a number, and shown in sixty-four bits.
struct Count {
    shown: u64,
    exact: Ghost<nat>,
}

impl Count {
    #[verifier::type_invariant]
    spec fn shows_exact(self) -> bool {
        self.shown as nat == capped(self.exact@)
    }

    /// The count.
    closed spec fn exact(&self) -> nat {
        self.exact@
    }

    /// Nothing counted.
    fn zero() -> (r: Count)
        ensures
            r.exact() == 0,
    {
        Count { shown: 0, exact: Ghost(0) }
    }

    /// Counts one more.
    fn increment(&mut self)
        ensures
            final(self).exact() == old(self).exact() + 1,
    {
        proof {
            use_type_invariant(&*self);
        }
        let shown: u64 = if self.shown < u64::MAX {
            self.shown + 1
        } else {
            self.shown
        };
        *self = Count { shown, exact: Ghost(self.exact@ + 1) };
    }

    /// The count as far as sixty-four bits show it.
    fn shown(&self) -> (r: u64)
        ensures
            r == capped(self.exact()),
    {
        proof {
            use_type_invariant(self);
        }
        self.shown
    }
}

/// The driver's own state during a run.
pub struct Driver<T> {
    resume_val: Option<ResumeVal<T>>,
    phase: Phase,
    block_ons: Count,
    awaits: Count,
    steps: Count,
}

impl<T> Driver<T> {
    /// The value that the next step resumes the guest with.
    pub closed spec fn resume_val(&self) -> Option<ResumeVal<T>> {
        self.resume_val
    }

    /// The driver's place in its loop.
    pub closed spec fn spec_phase(&self) -> Phase {
        self.phase
    }

    /// How many pending futures the guest has yielded.
    pub closed spec fn spec_block_ons(&self) -> nat {
        self.block_ons.exact()
    }

    /// How many awaits have completed.
    pub closed spec fn spec_awaits(&self) -> nat {
        self.awaits.exact()
    }

    /// How many steps have begun.
    pub closed spec fn spec_steps(&self) -> nat {
        self.steps.exact()
    }

    /// The driver together with the instance that it runs.
    pub open spec fn machine(&self, instance: &Instance) -> Machine<T> {
        Machine {
            state: instance.state,
            resume_val: self.resume_val(),
            phase: self.spec_phase(),
            block_ons: self.spec_block_ons(),
            awaits: self.spec_awaits(),
            steps: self.spec_steps(),
        }
    }

    /// The driver's place in its loop.
    pub fn phase(&self) -> (r: Phase)
        ensures
            r == self.spec_phase(),
    {
        self.phase
    }

    /// How many pending futures the guest has yielded during the run, as far
    /// as sixty-four bits show it.
    pub fn block_ons(&self) -> (r: u64)
        ensures
            r == capped(self.spec_block_ons()),
    {
        self.block_ons.shown()
    }

    /// How many awaits have completed during the run, as far as sixty-four
    /// bits show it.
    pub fn awaits(&self) -> (r: u64)
        ensures
            r == capped(self.spec_awaits()),
    {
        self.awaits.shown()
    }

    /// How many steps have begun during the run, as far as sixty-four bits
    /// show it.
    pub fn steps(&self) -> (r: u64)
        ensures
            r == capped(self.spec_steps()),
    {
        self.steps.shown()
    }

    /// Begins the next step: says what the host is to execute, and hands over
    /// the resume value where the guest is suspended.
    pub fn begin_step(&mut self, instance: &mut Instance) -> (r: Step<T>)
        requires
            old(self).machine(old(instance)).wf(),
            old(self).machine(old(instance)).phase == Phase::Idle,
        ensures
            r == old(self).machine(old(instance)).step(),
            final(self).machine(final(instance)) == old(self).machine(old(instance)).begin_step(),
            final(self).machine(final(instance)).wf(),
            (r is Resume) == (old(instance).state == State::Yielded),
    {
        self.phase = Phase::Stepping;
        self.steps.increment();
        let taken = self.resume_val.take();
        if instance.is_yielded() {
            instance.state = State::Running { async_context: true };
            match taken {
                Some(val) => Step::Resume(val),
                None => vstd::pervasive::unreached(),
            }
        } else {
            Step::Start
        }
    }

    /// Takes the outcome of the step that was begun, and says what follows: an
    /// await where the guest yielded a pending future, the end of the run
    /// otherwise.
    pub fn on_step(&mut self, instance: &mut Instance, outcome: Result<RunResult<T>, Error>) -> (r:
        Next)
        requires
            old(self).machine(old(instance)).wf(),
            old(self).machine(old(instance)).phase == Phase::Stepping,
        ensures
            r == Machine::<T>::next(outcome),
            final(self).machine(final(instance)) == old(self).machine(old(instance)).on_step(
                outcome,
            ),
            final(self).machine(final(instance)).wf(),
    {
        match outcome {
            Ok(RunResult::Returned(value)) => {
                instance.state = State::Finished;
                self.phase = Phase::Done;
                Next::Return(Ok(value))
            },
            Ok(RunResult::Yielded(payload)) => {
                instance.state = State::Yielded;
                match payload.downcast_future() {
                    Ok(future) => {
                        self.phase = Phase::Awaiting(future);
                        self.block_ons.increment();
                        Next::Await(future)
                    },
                    Err(_) => {
                        self.phase = Phase::Done;
                        Next::Return(Err(Error::UnsupportedYield))
                    },
                }
            },
            Err(error) => {
                let never_ran: bool = match (error, instance.state) {
                    (Error::EntrypointMissing, State::Running { .. }) => false,
                    (Error::EntrypointMissing, _) => true,
                    _ => false,
                };
                if !never_ran {
                    instance.state = State::Finished;
                }
                self.phase = Phase::Done;
                Next::Return(Err(error))
            },
        }
    }

    /// Takes the outcome of the future that was awaited: it is boxed under the
    /// future's output type and kept for the next step.
    pub fn on_resolved(&mut self, instance: &Instance, value: T)
        requires
            old(self).machine(instance).wf(),
            old(self).machine(instance).phase is Awaiting,
        ensures
            final(self).machine(instance) == old(self).machine(instance).on_resolved(value),
            final(self).machine(instance).wf(),
    {
        match self.phase {
            Phase::Awaiting(future) => {
                self.resume_val = Some(future.resolve(value));
                self.phase = Phase::Idle;
                self.awaits.increment();
            },
            _ => {},
        }
    }
}

impl Instance {
    /// Starts a run of the instance under the asynchronous driver.
    ///
    /// A suspended instance is refused and left as it is. Otherwise the driver
    /// comes back between steps, with nothing executed yet.
    pub fn run_async<T>(&mut self) -> (r: Result<Driver<T>, Error>)
        ensures
            *final(self) == *old(self),
            old(self).state == State::Yielded ==> r is Err && r->Err_0 == Error::CannotRunYielded,
            old(self).state != State::Yielded ==> r is Ok && r->Ok_0.machine(final(self))
                == Machine::<T>::fresh(old(self).state) && r->Ok_0.machine(final(self)).wf(),
    {
        if self.is_yielded() {
            Err(Error::CannotRunYielded)
        } else {
            Ok(
                Driver {
                    resume_val: None,
                    phase: Phase::Idle,
                    block_ons: Count::zero(),
                    awaits: Count::zero(),
                    steps: Count::zero(),
                },
            )
        }
    }
}

} // verus!
