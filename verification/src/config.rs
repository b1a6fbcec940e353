use vstd::prelude::*;

verus! {

/// Probabilities are stored in millionths, so `1_000_000` is probability one.
/// Floating point stays outside the verified core; an integer in millionths
/// carries a dropout probability exactly.
pub const MILLION: u32 = 1_000_000;

/// Closed set of activation functions the feed-forward sub-block can apply.
/// The numeric kernels live in the external tensor engine; the core only
/// selects which one each layer uses.
#[derive(Clone, Copy, Debug, PartialEq, Eq, Structural)]
pub enum Activation {
    Gelu,
    GeluNew,
    Relu,
    Swish,
    Tanh,
}

/// Immutable structural parameters of the encoder stack.
///
/// Optional fields mirror a checkpoint configuration where a missing entry
/// means the default: GELU activation, no collector output, no embedding
/// scaling.
#[derive(Clone, Debug)]
pub struct PegasusConfig {
    /// Feature dimensionality of every hidden-state vector in the stack.
    pub d_model: usize,
    /// Number of self-attention heads per layer; must divide `d_model`.
    pub encoder_attention_heads: usize,
    /// Number of encoder layers; must be at least one.
    pub encoder_layers: usize,
    /// Width of the feed-forward sub-block (`d_model` -> this -> `d_model`).
    pub encoder_ffn_dim: usize,
    /// Capacity of the positional encoding table.
    pub max_position_embeddings: usize,
    /// General dropout probability, in millionths.
    pub dropout_millionths: u32,
    /// Dropout probability inside the attention kernel, in millionths.
    pub attention_dropout_millionths: u32,
    /// Dropout probability after the activation, in millionths.
    pub activation_dropout_millionths: u32,
    /// Activation selector; `None` means GELU.
    pub activation_function: Option<Activation>,
    /// Whether each forward call returns per-layer attention weights.
    pub output_attentions: Option<bool>,
    /// Whether each forward call returns per-layer hidden states.
    pub output_hidden_states: Option<bool>,
    /// Whether embeddings are multiplied by `sqrt(d_model)`.
    pub scale_embedding: Option<bool>,
}

impl PegasusConfig {
    /// Structural validity: all dimensions positive, the head count divides
    /// the model width, and every probability is at most one.
    pub open spec fn valid(self) -> bool {
        &&& self.d_model >= 1
        &&& self.encoder_attention_heads >= 1
        &&& self.encoder_layers >= 1
        &&& self.encoder_ffn_dim >= 1
        &&& self.max_position_embeddings >= 1
        &&& self.d_model % self.encoder_attention_heads == 0
        &&& self.dropout_millionths <= MILLION
        &&& self.attention_dropout_millionths <= MILLION
        &&& self.activation_dropout_millionths <= MILLION
    }

    /// Decides `valid` executably.
    pub fn check(&self) -> (ok: bool)
        ensures
            ok == self.valid(),
    {
        self.d_model >= 1 && self.encoder_attention_heads >= 1 && self.encoder_layers >= 1
            && self.encoder_ffn_dim >= 1 && self.max_position_embeddings >= 1
            && self.d_model % self.encoder_attention_heads == 0
            && self.dropout_millionths <= MILLION && self.attention_dropout_millionths <= MILLION
            && self.activation_dropout_millionths <= MILLION
    }

    /// The activation each layer applies: the configured one, or GELU.
    pub open spec fn spec_activation(self) -> Activation {
        match self.activation_function {
            Some(a) => a,
            None => Activation::Gelu,
        }
    }

    /// Executable counterpart of `spec_activation`.
    pub fn activation(&self) -> (a: Activation)
        ensures
            a == self.spec_activation(),
    {
        match self.activation_function {
            Some(a) => a,
            None => Activation::Gelu,
        }
    }

    /// Whether forward calls collect per-layer attention weights.
    pub open spec fn spec_wants_attentions(self) -> bool {
        match self.output_attentions {
            Some(b) => b,
            None => false,
        }
    }

    /// Executable counterpart of `spec_wants_attentions`.
    pub fn wants_attentions(&self) -> (b: bool)
        ensures
            b == self.spec_wants_attentions(),
    {
        match self.output_attentions {
            Some(b) => b,
            None => false,
        }
    }

    /// Whether forward calls collect per-layer hidden states.
    pub open spec fn spec_wants_hidden_states(self) -> bool {
        match self.output_hidden_states {
            Some(b) => b,
            None => false,
        }
    }

    /// Executable counterpart of `spec_wants_hidden_states`.
    pub fn wants_hidden_states(&self) -> (b: bool)
        ensures
            b == self.spec_wants_hidden_states(),
    {
        match self.output_hidden_states {
            Some(b) => b,
            None => false,
        }
    }

    /// Whether embeddings are scaled by `sqrt(d_model)` before the
    /// positional signal is added.
    pub open spec fn spec_scales_embedding(self) -> bool {
        match self.scale_embedding {
            Some(b) => b,
            None => false,
        }
    }

    /// Executable counterpart of `spec_scales_embedding`.
    pub fn scales_embedding(&self) -> (b: bool)
        ensures
            b == self.spec_scales_embedding(),
    {
        match self.scale_embedding {
            Some(b) => b,
            None => false,
        }
    }
}

} // verus!
