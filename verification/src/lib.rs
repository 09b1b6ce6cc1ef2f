//! Interrupt-driven task substrate for a single-core Cortex-M style core.
//!
//! The crate models the pieces of hardware state that the substrate reads
//! and writes as plain values, and verifies the logic that drives them:
//! bringing the memory-protection unit to its disabled baseline, configuring
//! core exception behaviour and issuing the one-shot fleet of thread-identity
//! tokens, building the interrupt vector table from declarative bindings,
//! driving an asynchronous computation to completion with a low-power wait
//! between polls, and framing atomic writes to the trace stimulus ports.

pub mod bits;
pub mod future;
pub mod stk;
pub mod swo;
pub mod thr;
pub mod vtable;
