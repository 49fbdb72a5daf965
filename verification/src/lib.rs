//! A trampoline between synchronous guest execution and an asynchronous host.
//!
//! A guest instance runs on its own stack and calls into the host through
//! synchronous hostcalls. A hostcall that has to wait for an asynchronous
//! computation hands that computation through the instance's yield channel to
//! the driver, which awaits it and resumes the guest with the outcome. This
//! crate holds the rules of that exchange: the instance's observable states,
//! the two envelopes that may cross the yield channel, the hostcall side
//! (`Vmctx::block_on`) and the driver side (`Instance::run_async`, `Driver`).
//! The `report` module lays out benchmark results for text, CSV and JSON
//! output.

pub mod driver;
pub mod envelope;
pub mod hostcall;
pub mod instance;
pub mod laws;
pub mod render;
pub mod report;
