//! The states of a guest instance, as the host observes them.

use vstd::prelude::*;

verus! {

/// Where an instance stands in its life.
#[derive(Clone, Copy, Debug, PartialEq, Eq, Structural)]
pub enum State {
    /// Not started.
    Ready,
    /// Executing guest code; the flag records whether the asynchronous driver
    /// started or resumed it.
    Running { async_context: bool },
    /// Suspended, with a value handed to the host through the yield channel.
    Yielded,
    /// The entrypoint has returned, or the instance was terminated.
    Finished,
}

/// Why an instance was terminated from within a hostcall.
#[derive(Clone, Copy, Debug, PartialEq, Eq, Structural)]
pub enum TerminationDetails {
    /// A hostcall tried to await although no asynchronous driver runs the instance.
    AwaitNeedsAsync,
}

/// The errors that driving an instance can end in.
#[derive(Clone, Copy, Debug, PartialEq, Eq, Structural)]
pub enum Error {
    /// The driver was asked to run an instance that is suspended.
    CannotRunYielded,
    /// The module exports no function under the entrypoint's name.
    EntrypointMissing,
    /// The guest yielded a value that is no pending future.
    UnsupportedYield,
    /// The instance was terminated during a step.
    Terminated(TerminationDetails),
}

/// The host's record of one instance.
#[derive(Clone, Copy, Debug, PartialEq, Eq, Structural)]
pub struct Instance {
    pub state: State,
}

impl Instance {
    /// A fresh instance, not started.
    pub fn new() -> (r: Instance)
        ensures
            r.state == State::Ready,
    {
        Instance { state: State::Ready }
    }

    /// Whether the instance is suspended on a yielded value.
    pub fn is_yielded(&self) -> (r: bool)
        ensures
            r == (self.state == State::Yielded),
    {
        match self.state {
            State::Yielded => true,
            _ => false,
        }
    }

    /// Whether guest code is executing, and in which context.
    pub fn is_running(&self) -> (r: Option<bool>)
        ensures
            r == (match self.state {
                State::Running { async_context } => Some(async_context),
                _ => None,
            }),
    {
        match self.state {
            State::Running { async_context } => Some(async_context),
            _ => None,
        }
    }
}

} // verus!
