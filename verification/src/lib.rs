//! Typed planning and execution of discrete Fourier transforms over a
//! native transform engine.
//!
//! The library covers the plan lifecycle: a configurable planner derives
//! dimension descriptors and engine flags, plan construction is attempted
//! against caller-owned aligned buffers, and a successful construction
//! yields a finalized plan bound to those buffers, which can be executed
//! repeatedly and finally dissolved to reclaim the storage.  Construction
//! failure hands the configuration and its buffers back untouched, so the
//! caller can retry with different settings.

pub mod builder;
pub mod engine;
pub mod plan;
