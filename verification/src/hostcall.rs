//! The hostcall side of the trampoline.

use vstd::prelude::*;
use crate::envelope::{ResumeVal, TypeTag, YieldedFuture};
use crate::instance::{State, TerminationDetails};

verus! {

/// What a hostcall sees of the instance that called it.
#[derive(Clone, Copy, Debug, PartialEq, Eq, Structural)]
pub struct Vmctx {
    state: State,
}

impl Vmctx {
    /// The state of the calling instance.
    pub closed spec fn state(&self) -> State {
        self.state
    }

    /// The context of a hostcall in an instance that runs guest code. A
    /// hostcall is only ever entered from running guest code, so there is no
    /// context for another state.
    pub fn new(async_context: bool) -> (r: Vmctx)
        ensures
            r.state() == (State::Running { async_context }),
    {
        Vmctx { state: State::Running { async_context } }
    }

    /// Suspends the hostcall on a computation whose output type is `output`.
    ///
    /// In an instance that the asynchronous driver runs, the computation is
    /// wrapped for the yield channel, to be yielded by the caller. In any other
    /// running instance there is nobody to await it, and the instance has to
    /// be terminated with the details returned.
    pub fn block_on(&self, output: TypeTag) -> (r: Result<YieldedFuture, TerminationDetails>)
        requires
            self.state() is Running,
        ensures
            self.state() == (State::Running { async_context: true }) ==> r == Ok::<
                YieldedFuture,
                TerminationDetails,
            >(YieldedFuture::pending(output)) && r->Ok_0.output() == output,
            self.state() == (State::Running { async_context: false }) ==> r == Err::<
                YieldedFuture,
                TerminationDetails,
            >(TerminationDetails::AwaitNeedsAsync),
    {
        match self.state {
            State::Running { async_context: true } => Ok(YieldedFuture::wrap(output)),
            _ => Err(TerminationDetails::AwaitNeedsAsync),
        }
    }

    /// Ends the suspension: unboxes the value that the driver resumed the
    /// hostcall with, as a value of the output type that `block_on` was called
    /// for.
    pub fn resumed<T>(&self, output: TypeTag, val: ResumeVal<T>) -> (r: T)
        requires
            val.tag() == output,
        ensures
            r == val.value(),
    {
        match val.downcast(output) {
            Ok(value) => value,
            Err(_) => vstd::pervasive::unreached(),
        }
    }
}

} // verus!
