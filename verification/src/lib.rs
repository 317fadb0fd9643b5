//! An inference-session engine: a registry of loaded models and of execution
//! contexts, the protocol that leads a context from its inputs to its outputs,
//! and the codec between byte buffers and 32-bit float tensors.
//!
//! Numbers never appear as floats here: a 32-bit float is carried as its bit
//! pattern, a `u32`, so that every value, NaN payloads included, is kept exactly.

pub mod bytes;
pub mod ctx;
pub mod engine;
pub mod logging;
pub mod session;
pub mod state;
pub mod wasi_nn;
