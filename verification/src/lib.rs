//! Reading and writing raw memory of another running process.
//!
//! The library is built around the [`operator::ProcessOperator`] contract:
//! acquire an access token for a target process by PID, then move bytes
//! between caller-owned buffers and addresses inside that process. Every
//! OS-reported failure is turned into a typed
//! [`errors::ProcessOperatorError`]; nothing is silently discarded, and a
//! short transfer is an error, never a success.

pub mod errors;
pub mod linux;
pub mod mock;
pub mod model;
pub mod operator;
pub mod types;
pub mod windows;
