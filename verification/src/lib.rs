//! Incremental verification of a light-client header chain.
//!
//! Each step of the chain consumes the previous step's committed public
//! values together with one new header transition, checks the continuity
//! invariants, and produces the public values committed by this step.
//! The crate provides the positional byte codec that carries the committed
//! values between steps, the header/transition model, and the step state
//! machine itself.

pub mod bytes;
pub mod codec;
pub mod header;
pub mod keys;
pub mod step;
pub mod values;
