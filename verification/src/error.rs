use vstd::prelude::*;

verus! {

/// Failure taxonomy of the encoder core.
///
/// Every failure is surfaced immediately to the caller; there are no
/// retries and no partial results anywhere in the encoder.
#[derive(Clone, Copy, Debug, PartialEq, Eq, Structural)]
pub enum EncoderError {
    /// Invalid structural configuration, detected at construction time
    /// (for example a zero layer count, or a model width that the head
    /// count does not divide).
    Config,
    /// Mismatched tensor dimensions at a computation step (for example a
    /// mask whose shape does not match the token-id batch, or a ragged
    /// batch of token rows).
    Shape,
    /// Requested sequence length or offset exceeds the positional
    /// encoding capacity.
    Range,
    /// Internal contract violation: attention-weight collection is
    /// enabled but a layer produced no weights. The stack proves this
    /// branch unreachable; the variant exists so the composition can
    /// signal it without panicking.
    Invariant,
}

} // verus!
