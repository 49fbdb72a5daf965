use async_trampoline::driver::{Driver, Next, Phase, RunResult, Step};
use async_trampoline::envelope::{Payload, TypeTag, YieldedFuture};
use async_trampoline::hostcall::Vmctx;
use async_trampoline::instance::{Error, Instance, State, TerminationDetails};

const STRING: TypeTag = TypeTag(1);
const INTEGER: TypeTag = TypeTag(2);

fn start<T>(instance: &mut Instance) -> Driver<T> {
    match instance.run_async::<T>() {
        Ok(driver) => driver,
        Err(error) => panic!("the run was refused: {:?}", error),
    }
}

fn pending(output: TypeTag) -> YieldedFuture {
    match Vmctx::new(true).block_on(output) {
        Ok(future) => future,
        Err(details) => panic!("the hostcall was terminated: {:?}", details),
    }
}

#[test]
fn pure_return() {
    let mut instance = Instance::new();
    let mut driver = start::<u64>(&mut instance);
    assert_eq!(driver.phase(), Phase::Idle);
    assert_eq!(driver.begin_step(&mut instance), Step::Start);
    assert_eq!(instance.state, State::Ready);
    let next = driver.on_step(&mut instance, Ok(RunResult::Returned(42)));
    assert_eq!(next, Next::Return(Ok(42)));
    assert_eq!(instance.state, State::Finished);
    assert_eq!(driver.phase(), Phase::Done);
    assert_eq!(driver.awaits(), 0);
    assert_eq!(driver.block_ons(), 0);
    assert_eq!(driver.steps(), 1);
}

#[test]
fn single_await() {
    let mut instance = Instance::new();
    let mut driver = start::<String>(&mut instance);
    assert_eq!(driver.begin_step(&mut instance), Step::Start);

    let ctx = Vmctx::new(true);
    let future = ctx.block_on(STRING).unwrap();
    assert_eq!(future.output_tag(), STRING);
    let next = driver.on_step(&mut instance, Ok(RunResult::Yielded(Payload::Future(future))));
    assert_eq!(next, Next::Await(future));
    assert_eq!(instance.state, State::Yielded);
    assert_eq!(driver.phase(), Phase::Awaiting(future));
    assert_eq!(driver.awaits(), 0);
    assert_eq!(driver.block_ons(), 1);

    driver.on_resolved(&instance, String::from("hello"));
    assert_eq!(driver.phase(), Phase::Idle);
    assert_eq!(driver.awaits(), 1);

    let val = match driver.begin_step(&mut instance) {
        Step::Resume(val) => val,
        Step::Start => panic!("a suspended guest is resumed"),
    };
    assert_eq!(instance.state, State::Running { async_context: true });
    let text = ctx.resumed(STRING, val);
    assert_eq!(text, "hello");
    let length = text.len() as u64;

    let next = driver.on_step(&mut instance, Ok(RunResult::Returned(length)));
    assert_eq!(next, Next::Return(Ok(5)));
    assert_eq!(instance.state, State::Finished);
    assert_eq!(driver.awaits(), 1);
    assert_eq!(driver.block_ons(), 1);
}

#[test]
fn multiple_awaits() {
    let mut instance = Instance::new();
    let mut driver = start::<u64>(&mut instance);
    let ctx = Vmctx::new(true);
    let mut sum: u64 = 0;
    let mut toggles = 0;
    assert_eq!(driver.begin_step(&mut instance), Step::Start);
    for value in [1u64, 2, 3] {
        let future = ctx.block_on(INTEGER).unwrap();
        let next = driver.on_step(&mut instance, Ok(RunResult::Yielded(Payload::Future(future))));
        assert_eq!(next, Next::Await(future));
        assert!(instance.is_yielded());
        driver.on_resolved(&instance, value);
        match driver.begin_step(&mut instance) {
            Step::Resume(val) => sum += ctx.resumed(INTEGER, val),
            Step::Start => panic!("a suspended guest is resumed"),
        }
        assert_eq!(instance.is_running(), Some(true));
        toggles += 1;
    }
    let next = driver.on_step(&mut instance, Ok(RunResult::Returned(sum)));
    assert_eq!(next, Next::Return(Ok(6)));
    assert_eq!(toggles, 3);
    assert_eq!(driver.steps(), 4);
    assert_eq!(driver.awaits(), 3);
    assert_eq!(driver.block_ons(), 3);
    assert_eq!(instance.state, State::Finished);
}

#[test]
fn block_on_outside_async_context_terminates() {
    let ctx = Vmctx::new(false);
    assert_eq!(ctx.block_on(INTEGER), Err(TerminationDetails::AwaitNeedsAsync));
}

#[test]
fn termination_reaches_the_caller_of_the_run() {
    let mut instance = Instance::new();
    let mut driver = start::<u64>(&mut instance);
    driver.begin_step(&mut instance);
    let details = Vmctx::new(false).block_on(INTEGER).unwrap_err();
    let next = driver.on_step(&mut instance, Err(Error::Terminated(details)));
    assert_eq!(
        next,
        Next::Return(Err(Error::Terminated(TerminationDetails::AwaitNeedsAsync)))
    );
    assert_eq!(instance.state, State::Finished);
    assert_eq!(driver.phase(), Phase::Done);
}

#[test]
fn reentering_a_yielded_instance_is_refused() {
    let mut instance = Instance::new();
    let mut driver = start::<u64>(&mut instance);
    driver.begin_step(&mut instance);
    let future = pending(INTEGER);
    driver.on_step(&mut instance, Ok(RunResult::Yielded(Payload::Future(future))));
    driver.on_resolved(&instance, 1);
    assert_eq!(instance.state, State::Yielded);

    let before = instance;
    let second = instance.run_async::<u64>();
    assert!(matches!(second, Err(Error::CannotRunYielded)));
    assert_eq!(instance, before);
    assert_eq!(driver.awaits(), 1);
    assert_eq!(driver.phase(), Phase::Idle);
}

#[test]
fn cancelled_await_leaves_instance_yielded() {
    let mut instance = Instance::new();
    let mut driver = start::<u64>(&mut instance);
    driver.begin_step(&mut instance);
    let future = pending(INTEGER);
    let next = driver.on_step(&mut instance, Ok(RunResult::Yielded(Payload::Future(future))));
    assert_eq!(next, Next::Await(future));
    drop(driver);
    assert_eq!(instance.state, State::Yielded);
    assert!(matches!(instance.run_async::<u64>(), Err(Error::CannotRunYielded)));
    assert_eq!(instance.state, State::Yielded);
}

#[test]
fn foreign_yield_is_unsupported() {
    let mut instance = Instance::new();
    let mut driver = start::<u64>(&mut instance);
    driver.begin_step(&mut instance);
    let next = driver.on_step(&mut instance, Ok(RunResult::Yielded(Payload::Other(TypeTag(99)))));
    assert_eq!(next, Next::Return(Err(Error::UnsupportedYield)));
    assert_eq!(instance.state, State::Yielded);
    assert_eq!(driver.phase(), Phase::Done);
    assert_eq!(driver.block_ons(), 0);
}

#[test]
fn yielded_resume_value_is_unsupported() {
    let mut instance = Instance::new();
    let mut driver = start::<u64>(&mut instance);
    driver.begin_step(&mut instance);
    let stray = pending(INTEGER).resolve(7u64);
    let next = driver.on_step(&mut instance, Ok(RunResult::Yielded(Payload::Resume(stray))));
    assert_eq!(next, Next::Return(Err(Error::UnsupportedYield)));
    assert!(instance.is_yielded());
}

#[test]
fn missing_entrypoint_leaves_instance_ready() {
    let mut instance = Instance::new();
    let mut driver = start::<u64>(&mut instance);
    assert_eq!(driver.begin_step(&mut instance), Step::Start);
    let next = driver.on_step(&mut instance, Err(Error::EntrypointMissing));
    assert_eq!(next, Next::Return(Err(Error::EntrypointMissing)));
    assert_eq!(instance.state, State::Ready);
    assert_eq!(driver.phase(), Phase::Done);
}

#[test]
fn finished_instance_can_be_run_again() {
    let mut instance = Instance { state: State::Finished };
    let mut driver = start::<u64>(&mut instance);
    assert_eq!(driver.begin_step(&mut instance), Step::Start);
    assert_eq!(instance.state, State::Finished);
}

#[test]
fn envelope_keeps_value_and_type() {
    let val = pending(STRING).resolve(String::from("unchanged"));
    assert!(val.is(STRING));
    assert!(!val.is(INTEGER));
    let val = match val.downcast(INTEGER) {
        Ok(_) => panic!("the value is no integer"),
        Err(val) => val,
    };
    assert_eq!(val.downcast(STRING), Ok(String::from("unchanged")));
}

#[test]
fn immediately_ready_future_round_trips() {
    let ctx = Vmctx::new(true);
    let future = ctx.block_on(INTEGER).unwrap();
    let val = future.resolve(0xDEAD_BEEFu64);
    assert_eq!(ctx.resumed(INTEGER, val), 0xDEAD_BEEF);
}

#[test]
fn payload_downcast_tells_futures_apart() {
    let future = pending(INTEGER);
    assert_eq!(Payload::<u64>::Future(future).downcast_future(), Ok(future));
    assert_eq!(
        Payload::<u64>::Other(TypeTag(3)).downcast_future(),
        Err(Payload::Other(TypeTag(3)))
    );
}

#[test]
fn fresh_instance_is_ready() {
    let instance = Instance::new();
    assert_eq!(instance.state, State::Ready);
    assert!(!instance.is_yielded());
    assert_eq!(instance.is_running(), None);
    assert_eq!(Instance { state: State::Running { async_context: false } }.is_running(), Some(false));
}

#[test]
fn slot_is_filled_exactly_while_suspended_between_steps() {
    let mut instance = Instance::new();
    let mut driver = start::<u64>(&mut instance);
    // Not suspended, nothing to resume with: the step starts the guest.
    assert!(!instance.is_yielded());
    assert_eq!(driver.begin_step(&mut instance), Step::Start);
    driver.on_step(&mut instance, Ok(RunResult::Yielded(Payload::Future(pending(INTEGER)))));
    driver.on_resolved(&instance, 11);
    // Suspended, and the value is there.
    assert!(instance.is_yielded());
    assert!(matches!(driver.begin_step(&mut instance), Step::Resume(_)));
}
