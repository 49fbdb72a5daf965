//! What holds of the trampoline as a whole.

use vstd::prelude::*;
use crate::driver::{Machine, Next, Phase, RunResult, Step};
use crate::envelope::{Payload, TypeTag, YieldedFuture};
use crate::instance::{Error, State};

verus! {

/// Between two steps the instance is suspended if and only if a resume value
/// is waiting in the driver's slot.
pub proof fn law_slot_matches_suspension<T>(m: Machine<T>)
    requires
        m.wf(),
        m.phase == Phase::Idle,
    ensures
        (m.state == State::Yielded) == m.resume_val.is_some(),
{
}

/// The discipline of the loop holds when a run starts on an instance that is
/// not suspended, and every move of the driver keeps it.
pub proof fn law_discipline_is_kept<T>(
    m: Machine<T>,
    state: State,
    outcome: Result<RunResult<T>, Error>,
    value: T,
)
    ensures
        state != State::Yielded ==> Machine::<T>::fresh(state).wf(),
        m.wf() && m.phase == Phase::Idle ==> m.begin_step().wf(),
        m.wf() && m.phase == Phase::Stepping ==> m.on_step(outcome).wf(),
        m.wf() && m.phase is Awaiting ==> m.on_resolved(value).wf(),
{
}

/// The value that a hostcall is resumed with is boxed under the very output
/// type that its `block_on` asked for, so that unboxing it cannot fail; and it
/// is the value that the future completed with, unchanged.
pub proof fn law_envelope_round_trip<T>(output: TypeTag, value: T)
    ensures
        YieldedFuture::pending(output).resolved(value).tag() == output,
        YieldedFuture::pending(output).resolved(value).value() == value,
{
    YieldedFuture::lemma_pending(output);
    YieldedFuture::pending(output).lemma_resolved(value);
}

/// The step after an await resumes the guest, in the asynchronous context,
/// with the outcome of the future that was awaited, boxed under that future's
/// output type.
pub proof fn law_resume_carries_awaited_value<T>(m: Machine<T>, value: T)
    requires
        m.wf(),
        m.phase is Awaiting,
    ensures
        m.on_resolved(value).step() == Step::Resume(m.phase->Awaiting_0.resolved(value)),
        m.on_resolved(value).step()->Resume_0.tag() == m.phase->Awaiting_0.output(),
        m.on_resolved(value).step()->Resume_0.value() == value,
        m.on_resolved(value).begin_step().state == (State::Running { async_context: true }),
{
    m.phase->Awaiting_0.lemma_resolved(value);
}

/// Whenever no await is under way, as many awaits have completed as the guest
/// has yielded pending futures; during an await, one fewer.
pub proof fn law_awaits_match_block_ons<T>(m: Machine<T>)
    requires
        m.wf(),
    ensures
        !(m.phase is Awaiting) ==> m.awaits == m.block_ons,
        m.phase is Awaiting ==> m.awaits + 1 == m.block_ons,
{
}

/// A driver that is given up during an await leaves the instance suspended
/// and never resumed with the future's outcome: no resume value exists.
pub proof fn law_abandoned_await_leaves_instance_suspended<T>(m: Machine<T>)
    requires
        m.wf(),
        m.phase is Awaiting,
    ensures
        m.state == State::Yielded,
        m.resume_val.is_none(),
{
}

/// A yielded value that is no pending future ends the run with
/// `UnsupportedYield` and leaves the instance suspended.
pub proof fn law_foreign_yield_is_refused<T>(m: Machine<T>, payload: Payload<T>)
    requires
        !payload.is_future(),
    ensures
        Machine::<T>::next(Ok(RunResult::Yielded(payload))) == Next::Return(
            Err(Error::UnsupportedYield),
        ),
        m.on_step(Ok(RunResult::Yielded(payload))).state == State::Yielded,
        m.on_step(Ok(RunResult::Yielded(payload))).phase == Phase::Done,
{
}

/// The machine after the guest has, one after the other, yielded each of
/// `futures` and been resumed with the value of `values` at the same place.
pub open spec fn after_awaits<T>(m: Machine<T>, futures: Seq<YieldedFuture>, values: Seq<T>) -> Machine<T>
    recommends
        futures.len() == values.len(),
    decreases futures.len(),
{
    if futures.len() == 0 {
        m
    } else {
        after_awaits(m, futures.drop_last(), values.drop_last()).begin_step().on_step(
            Ok(RunResult::Yielded(Payload::Future(futures.last()))),
        ).on_resolved(values.last())
    }
}

/// A run whose guest suspends on one future after the other stays within the
/// discipline, has completed one step and one await for each, and stands
/// between steps.
pub proof fn lemma_after_awaits<T>(state: State, futures: Seq<YieldedFuture>, values: Seq<T>)
    requires
        state != State::Yielded,
        futures.len() == values.len(),
    ensures
        after_awaits(Machine::<T>::fresh(state), futures, values).wf(),
        after_awaits(Machine::<T>::fresh(state), futures, values).phase == Phase::Idle,
        after_awaits(Machine::<T>::fresh(state), futures, values).awaits == futures.len(),
        after_awaits(Machine::<T>::fresh(state), futures, values).block_ons == futures.len(),
        after_awaits(Machine::<T>::fresh(state), futures, values).steps == futures.len(),
    decreases futures.len(),
{
    if futures.len() > 0 {
        lemma_after_awaits(state, futures.drop_last(), values.drop_last());
    }
}

/// A run on a fresh instance whose entrypoint suspends on N futures in turn
/// and then returns completes exactly N awaits in N + 1 steps and ends with
/// the entrypoint's value, the instance finished.
pub proof fn law_sequential_awaits<T>(futures: Seq<YieldedFuture>, values: Seq<T>, ret: u64)
    requires
        futures.len() == values.len(),
    ensures
        ({
            let last = after_awaits(Machine::<T>::fresh(State::Ready), futures, values).begin_step();
            let outcome = Ok::<RunResult<T>, Error>(RunResult::Returned(ret));
            &&& Machine::<T>::next(outcome) == Next::Return(Ok(ret))
            &&& last.on_step(outcome).awaits == futures.len()
            &&& last.on_step(outcome).block_ons == futures.len()
            &&& last.on_step(outcome).steps == futures.len() + 1
            &&& last.on_step(outcome).state == State::Finished
            &&& last.on_step(outcome).phase == Phase::Done
        }),
{
    lemma_after_awaits(State::Ready, futures, values);
}

} // verus!
