//! A verified model of a Pegasus-style transformer encoder stack.
//!
//! The library captures the part of an encoder that decides model
//! correctness: the exact composition of each pre-norm transformer block
//! (normalization placement, residual wiring, masking, dropout sites),
//! the sinusoidal positional encoding, the expansion of a padding mask
//! into an additive attention bias, and the stack-level orchestration
//! with its optional collectors for per-layer hidden states and
//! attention weights.
//!
//! Tensor contents are floating-point values produced by an external
//! numeric engine and are out of scope here; every tensor in this crate
//! carries its shape together with a symbolic value that records, node
//! by node, which parameterized operation produced it. The contracts pin
//! that value exactly, so shape preservation, collector lengths and
//! ordering, determinism of the composition, and the residual wiring are
//! all proved.

pub mod config;
pub mod encoder;
pub mod error;
pub mod mask;
pub mod positional;
pub mod tensor;
