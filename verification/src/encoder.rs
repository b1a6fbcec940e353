use vstd::prelude::*;
use crate::config::{Activation, PegasusConfig};
use crate::error::EncoderError;
use crate::mask::{expand_mask, rectangular, AttnBias};
use crate::positional::PositionalEncoder;
use crate::tensor::{apply_dropout, drop_if, mentions_dropout, AttnWeights, Expr, FfnStage, HiddenState, NormSite};

verus! {

/// One pre-norm transformer block: self-attention behind a normalization,
/// then a two-layer feed-forward sub-block behind a second normalization,
/// each wrapped in a residual connection.
///
/// The learned parameters (attention projections, the two linear maps,
/// the two normalization scale/bias pairs) live in the external engine
/// under the hierarchical name of this layer; `index` identifies them.
#[derive(Debug)]
pub struct EncoderLayer {
    /// Position of this layer in the stack; names its parameter scope.
    pub index: usize,
    /// Width of every hidden-state vector this layer consumes and produces.
    pub d_model: usize,
    /// Inner width of the feed-forward sub-block.
    pub ffn_dim: usize,
    /// Number of self-attention heads.
    pub heads: usize,
    /// Activation applied between the two feed-forward projections.
    pub activation: Activation,
    /// Train-mode dropout probability after attention and after the
    /// second projection, in millionths.
    pub dropout_millionths: u32,
    /// Dropout probability the attention kernel applies internally to its
    /// weights in train mode, in millionths.
    pub attention_dropout_millionths: u32,
    /// Train-mode dropout probability after the activation, in millionths.
    pub activation_dropout_millionths: u32,
    /// Whether a forward call reports this layer's attention weights.
    pub output_attentions: bool,
}

impl EncoderLayer {
    /// The layer a valid configuration puts at `index`.
    pub open spec fn from_config(config: PegasusConfig, index: usize) -> EncoderLayer {
        EncoderLayer {
            index,
            d_model: config.d_model,
            ffn_dim: config.encoder_ffn_dim,
            heads: config.encoder_attention_heads,
            activation: config.spec_activation(),
            dropout_millionths: config.dropout_millionths,
            attention_dropout_millionths: config.attention_dropout_millionths,
            activation_dropout_millionths: config.activation_dropout_millionths,
            output_attentions: config.spec_wants_attentions(),
        }
    }

    /// Structural validity of the layer parameters.
    pub open spec fn wf(self) -> bool {
        &&& self.d_model >= 1
        &&& self.ffn_dim >= 1
        &&& self.heads >= 1
        &&& self.d_model % self.heads == 0
    }

    /// Builds the layer at `index` of a stack with the given configuration.
    pub fn new(index: usize, config: &PegasusConfig) -> (r: EncoderLayer)
        requires
            config.valid(),
        ensures
            r == EncoderLayer::from_config(*config, index),
            r.wf(),
    {
        EncoderLayer {
            index,
            d_model: config.d_model,
            ffn_dim: config.encoder_ffn_dim,
            heads: config.encoder_attention_heads,
            activation: config.activation(),
            dropout_millionths: config.dropout_millionths,
            attention_dropout_millionths: config.attention_dropout_millionths,
            activation_dropout_millionths: config.activation_dropout_millionths,
            output_attentions: config.wants_attentions(),
        }
    }

    /// What self-attention scores: the input behind this layer's
    /// pre-attention normalization.
    pub open spec fn attn_input(self, x: Expr) -> Expr {
        Expr::Normed { site: NormSite::SelfAttn { layer: self.index }, inner: Box::new(x) }
    }

    /// The attention context: this layer's multi-head self-attention over
    /// the normalized input, with the padding bias applied when present.
    pub open spec fn attn_context(self, x: Expr, masked: bool) -> Expr {
        Expr::Attended { layer: self.index, masked, inner: Box::new(self.attn_input(x)) }
    }

    /// The residual base: the (train-mode dropped-out) attention context
    /// plus the original, pre-normalization input.
    pub open spec fn residual_base(self, x: Expr, masked: bool, train: bool) -> Expr {
        Expr::Added {
            left: Box::new(drop_if(train, self.dropout_millionths, self.attn_context(x, masked))),
            right: Box::new(x),
        }
    }

    /// The feed-forward sub-block over the residual base: second
    /// normalization, first projection, activation, activation dropout,
    /// second projection, dropout.
    pub open spec fn ffn_output(self, base: Expr, train: bool) -> Expr {
        let normed = Expr::Normed {
            site: NormSite::LayerFinal { layer: self.index },
            inner: Box::new(base),
        };
        let first = Expr::Projected {
            layer: self.index,
            stage: FfnStage::First,
            inner: Box::new(normed),
        };
        let activated = Expr::Activated { kind: self.activation, inner: Box::new(first) };
        let inner_dropped = drop_if(train, self.activation_dropout_millionths, activated);
        let second = Expr::Projected {
            layer: self.index,
            stage: FfnStage::Second,
            inner: Box::new(inner_dropped),
        };
        drop_if(train, self.dropout_millionths, second)
    }

    /// The layer's full transformation: the feed-forward output added to
    /// the residual base.
    pub open spec fn transformed(self, x: Expr, masked: bool, train: bool) -> Expr {
        Expr::Added {
            left: Box::new(self.ffn_output(self.residual_base(x, masked, train), train)),
            right: Box::new(self.residual_base(x, masked, train)),
        }
    }

    /// Transforms one hidden state, preserving its shape exactly, and
    /// reports the attention weights when this layer is configured to.
    ///
    /// The weights, when present, have shape (batch, heads, seq_len,
    /// seq_len) and were scored over this layer's normalized input, with
    /// the padding bias applied exactly when one was supplied.
    pub fn forward_t(&self, x: &HiddenState, bias: Option<&AttnBias>, train: bool) -> (r: (
        HiddenState,
        Option<AttnWeights>,
    ))
        requires
            self.wf(),
            x.d_model == self.d_model,
            bias matches Some(b) ==> b.batch == x.batch && b.seq_len == x.seq_len,
        ensures
            r.0.batch == x.batch,
            r.0.seq_len == x.seq_len,
            r.0.d_model == x.d_model,
            r.0.value == self.transformed(x.value, bias is Some, train),
            r.1 is Some <==> self.output_attentions,
            self.output_attentions ==> r.1 == Some(
                AttnWeights {
                    batch: x.batch,
                    heads: self.heads,
                    seq_len: x.seq_len,
                    layer: self.index,
                    masked: bias is Some,
                    query: self.attn_input(x.value),
                },
            ),
    {
        let masked = bias.is_some();
        let normed = Expr::Normed {
            site: NormSite::SelfAttn { layer: self.index },
            inner: Box::new(x.value.duplicate()),
        };
        let weights: Option<AttnWeights> = if self.output_attentions {
            Some(
                AttnWeights {
                    batch: x.batch,
                    heads: self.heads,
                    seq_len: x.seq_len,
                    layer: self.index,
                    masked,
                    query: normed.duplicate(),
                },
            )
        } else {
            None
        };
        let context = Expr::Attended { layer: self.index, masked, inner: Box::new(normed) };
        let after_attn = apply_dropout(train, self.dropout_millionths, context);
        let base = Expr::Added { left: Box::new(after_attn), right: Box::new(x.value.duplicate()) };
        let base_again = base.duplicate();
        let normed_base = Expr::Normed {
            site: NormSite::LayerFinal { layer: self.index },
            inner: Box::new(base),
        };
        let first = Expr::Projected {
            layer: self.index,
            stage: FfnStage::First,
            inner: Box::new(normed_base),
        };
        let activated = Expr::Activated { kind: self.activation, inner: Box::new(first) };
        let inner_dropped = apply_dropout(train, self.activation_dropout_millionths, activated);
        let second = Expr::Projected {
            layer: self.index,
            stage: FfnStage::Second,
            inner: Box::new(inner_dropped),
        };
        let ffn = apply_dropout(train, self.dropout_millionths, second);
        let out = Expr::Added { left: Box::new(ffn), right: Box::new(base_again) };
        (HiddenState { batch: x.batch, seq_len: x.seq_len, d_model: x.d_model, value: out }, weights)
    }
}

/// The view of an optional mask argument, for stating contracts over it.
pub open spec fn mask_view(mask: Option<&Vec<Vec<bool>>>) -> Option<Seq<Vec<bool>>> {
    match mask {
        Some(m) => Some(m@),
        None => None,
    }
}

/// What one forward call returns: the final normalized hidden state, and,
/// when the configuration asks for them, the ordered per-layer hidden
/// states (captured before each layer, plus the last layer's output) and
/// the ordered per-layer attention weights.
#[derive(Debug)]
pub struct PegasusEncoderOutput {
    /// The last layer's output behind the stack's final normalization;
    /// shape (batch, seq_len, d_model).
    pub hidden_state: HiddenState,
    /// When enabled, exactly `layers + 1` entries: entry `i` is the
    /// hidden state entering layer `i`, and the last entry is the last
    /// layer's output before the final normalization.
    pub all_hidden_states: Option<Vec<HiddenState>>,
    /// When enabled, exactly `layers` entries, entry `i` being layer
    /// `i`'s attention weights of shape (batch, heads, seq_len, seq_len).
    pub all_attentions: Option<Vec<AttnWeights>>,
}

/// The encoder stack: embedding scaling, positional signal, dropout, the
/// ordered sequence of layers, optional collectors, final normalization.
#[derive(Debug)]
pub struct PegasusEncoder {
    /// The layers, applied strictly in order; layer `i` has index `i`.
    pub layers: Vec<EncoderLayer>,
    /// Width of every hidden-state vector in the stack.
    pub d_model: usize,
    /// Number of attention heads of every layer.
    pub heads: usize,
    /// Generator of the fixed positional signal; also bounds the sequence
    /// length a forward call accepts.
    pub embed_positions: PositionalEncoder,
    /// Train-mode dropout probability after the positional signal, in
    /// millionths.
    pub dropout_millionths: u32,
    /// Whether forward calls collect per-layer attention weights.
    pub output_attentions: bool,
    /// Whether forward calls collect per-layer hidden states.
    pub output_hidden_states: bool,
    /// Whether embeddings are multiplied by `sqrt(d_model)`.
    pub scale_embedding: bool,
}

impl PegasusEncoder {
    /// Structural validity: at least one layer, and every layer carries
    /// its own position and the stack-wide parameters.
    pub open spec fn wf(self) -> bool {
        &&& self.layers@.len() >= 1
        &&& self.embed_positions.d_model == self.d_model
        &&& forall|i: int|
            0 <= i < self.layers@.len() ==> {
                let l = #[trigger] self.layers@[i];
                &&& l.wf()
                &&& l.index == i
                &&& l.d_model == self.d_model
                &&& l.heads == self.heads
                &&& l.output_attentions == self.output_attentions
            }
    }

    /// Builds a stack from a configuration; fails with a configuration
    /// error exactly when the configuration is structurally invalid.
    pub fn new(config: &PegasusConfig) -> (r: Result<PegasusEncoder, EncoderError>)
        ensures
            r is Ok <==> config.valid(),
            r is Err ==> r->Err_0 == EncoderError::Config,
            r is Ok ==> ({
                let s = r->Ok_0;
                &&& s.wf()
                &&& s.layers@.len() == config.encoder_layers
                &&& forall|i: int|
                    0 <= i < s.layers@.len() ==> #[trigger] s.layers@[i]
                        == EncoderLayer::from_config(*config, i as usize)
                &&& s.d_model == config.d_model
                &&& s.heads == config.encoder_attention_heads
                &&& s.embed_positions == (PositionalEncoder {
                    max_len: config.max_position_embeddings,
                    d_model: config.d_model,
                })
                &&& s.dropout_millionths == config.dropout_millionths
                &&& s.output_attentions == config.spec_wants_attentions()
                &&& s.output_hidden_states == config.spec_wants_hidden_states()
                &&& s.scale_embedding == config.spec_scales_embedding()
            }),
    {
        if !config.check() {
            return Err(EncoderError::Config);
        }
        let n = config.encoder_layers;
        let mut layers: Vec<EncoderLayer> = Vec::new();
        let mut i: usize = 0;
        while i < n
            invariant
                config.valid(),
                i <= n,
                layers@.len() == i,
                forall|j: int|
                    0 <= j < i ==> #[trigger] layers@[j] == EncoderLayer::from_config(
                        *config,
                        j as usize,
                    ),
            decreases n - i,
        {
            layers.push(EncoderLayer::new(i, config));
            i = i + 1;
        }
        Ok(
            PegasusEncoder {
                layers,
                d_model: config.d_model,
                heads: config.encoder_attention_heads,
                embed_positions: PositionalEncoder::new(
                    config.max_position_embeddings,
                    config.d_model,
                ),
                dropout_millionths: config.dropout_millionths,
                output_attentions: config.wants_attentions(),
                output_hidden_states: config.wants_hidden_states(),
                scale_embedding: config.scales_embedding(),
            },
        )
    }

    /// The hidden state entering the first layer: embedded token ids,
    /// scaled when configured, plus the positional signal at offset zero,
    /// behind train-mode dropout.
    pub open spec fn embedded(self, train: bool) -> Expr {
        drop_if(
            train,
            self.dropout_millionths,
            Expr::Positioned {
                offset: 0,
                inner: Box::new(Expr::Embed { scaled: self.scale_embedding }),
            },
        )
    }

    /// The hidden state after the first `k` layers.
    pub open spec fn chained(self, k: int, masked: bool, train: bool) -> Expr
        decreases k,
    {
        if k <= 0 {
            self.embedded(train)
        } else {
            self.layers@[k - 1].transformed(self.chained(k - 1, masked, train), masked, train)
        }
    }

    /// Shape validity of a forward call's inputs: a non-empty rectangular
    /// batch of token rows, and, when a mask is supplied, a mask of
    /// exactly the same shape.
    pub open spec fn shapes_ok(ids: Seq<Vec<i64>>, mask: Option<Seq<Vec<bool>>>) -> bool {
        &&& ids.len() >= 1
        &&& rectangular(ids, ids[0]@.len())
        &&& match mask {
            Some(m) => m.len() == ids.len() && rectangular(m, ids[0]@.len()),
            None => true,
        }
    }

    /// Capacity of the positional table covers the sequence length.
    pub open spec fn within_range(self, ids: Seq<Vec<i64>>) -> bool {
        ids[0]@.len() <= self.embed_positions.max_len
    }

    /// Everything the forward contract pins about a successful output for
    /// a batch of the given shape: the final hidden state, the presence,
    /// lengths and every entry of both collectors.
    pub open spec fn describes_output(
        self,
        batch: usize,
        seq_len: usize,
        masked: bool,
        train: bool,
        out: PegasusEncoderOutput,
    ) -> bool {
        let n = self.layers@.len() as int;
        &&& out.hidden_state == (HiddenState {
            batch,
            seq_len,
            d_model: self.d_model,
            value: Expr::Normed {
                site: NormSite::StackFinal,
                inner: Box::new(self.chained(n, masked, train)),
            },
        })
        &&& (out.all_hidden_states is Some <==> self.output_hidden_states)
        &&& (out.all_attentions is Some <==> self.output_attentions)
        &&& match out.all_hidden_states {
            Some(hs) => hs@.len() == n + 1 && forall|i: int|
                0 <= i <= n ==> #[trigger] hs@[i] == (HiddenState {
                    batch,
                    seq_len,
                    d_model: self.d_model,
                    value: self.chained(i, masked, train),
                }),
            None => true,
        }
        &&& match out.all_attentions {
            Some(ws) => ws@.len() == n && forall|i: int|
                0 <= i < n ==> #[trigger] ws@[i] == (AttnWeights {
                    batch,
                    heads: self.heads,
                    seq_len,
                    layer: self.layers@[i].index,
                    masked,
                    query: self.layers@[i].attn_input(self.chained(i, masked, train)),
                }),
            None => true,
        }
    }

    /// Runs the full encoder over a batch of token ids.
    ///
    /// Fails with a shape error when the batch is empty or ragged or the
    /// mask shape does not match it, and with a range error when the
    /// sequence is longer than the positional capacity; on every
    /// well-shaped input within capacity it succeeds, and the output is
    /// the one `describes_output` pins — a function of the inputs alone.
    pub fn forward_t(
        &self,
        input_ids: &Vec<Vec<i64>>,
        attention_mask: Option<&Vec<Vec<bool>>>,
        train: bool,
    ) -> (r: Result<PegasusEncoderOutput, EncoderError>)
        requires
            self.wf(),
        ensures
            r is Ok <==> Self::shapes_ok(input_ids@, mask_view(attention_mask))
                && self.within_range(input_ids@),
            r is Err ==> r->Err_0 == (if !Self::shapes_ok(input_ids@, mask_view(attention_mask)) {
                EncoderError::Shape
            } else {
                EncoderError::Range
            }),
            r is Ok ==> self.describes_output(
                input_ids@.len() as usize,
                input_ids@[0]@.len() as usize,
                attention_mask is Some,
                train,
                r->Ok_0,
            ),
    {
        let batch = input_ids.len();
        if batch == 0 {
            return Err(EncoderError::Shape);
        }
        let seq_len = input_ids[0].len();
        let mut i: usize = 0;
        while i < batch
            invariant
                batch == input_ids@.len(),
                seq_len == input_ids@[0]@.len(),
                i <= batch,
                forall|k: int| 0 <= k < i ==> (#[trigger] input_ids@[k])@.len() == seq_len,
            decreases batch - i,
        {
            if input_ids[i].len() != seq_len {
                return Err(EncoderError::Shape);
            }
            i = i + 1;
        }
        let bias: Option<AttnBias> = match attention_mask {
            Some(m) => {
                match expand_mask(m) {
                    Ok(b) => {
                        if b.batch != batch || b.seq_len != seq_len {
                            return Err(EncoderError::Shape);
                        }
                        Some(b)
                    },
                    Err(_) => {
                        return Err(EncoderError::Shape);
                    },
                }
            },
            None => None,
        };
        // The positional signal added below covers positions 0..seq_len;
        // generating the table both enforces the capacity bound and is the
        // step whose numeric rows the engine adds to the embeddings.
        match self.embed_positions.table(seq_len, 0) {
            Ok(_) => (),
            Err(_) => {
                return Err(EncoderError::Range);
            },
        }
        let masked = bias.is_some();
        let collect_h = self.output_hidden_states;
        let collect_a = self.output_attentions;
        let mut hs_vec: Vec<HiddenState> = Vec::new();
        let mut ws_vec: Vec<AttnWeights> = Vec::new();
        let mut current = HiddenState {
            batch,
            seq_len,
            d_model: self.d_model,
            value: apply_dropout(
                train,
                self.dropout_millionths,
                Expr::Positioned {
                    offset: 0,
                    inner: Box::new(Expr::Embed { scaled: self.scale_embedding }),
                },
            ),
        };
        let n = self.layers.len();
        let mut li: usize = 0;
        while li < n
            invariant
                self.wf(),
                n == self.layers@.len(),
                li <= n,
                masked == (bias is Some),
                bias matches Some(b) ==> b.batch == batch && b.seq_len == seq_len,
                current.batch == batch,
                current.seq_len == seq_len,
                current.d_model == self.d_model,
                current.value == self.chained(li as int, masked, train),
                collect_h == self.output_hidden_states,
                collect_a == self.output_attentions,
                hs_vec@.len() == (if collect_h {
                    li as int
                } else {
                    0
                }),
                collect_h ==> forall|i: int|
                    0 <= i < li ==> #[trigger] hs_vec@[i] == (HiddenState {
                        batch,
                        seq_len,
                        d_model: self.d_model,
                        value: self.chained(i, masked, train),
                    }),
                ws_vec@.len() == (if collect_a {
                    li as int
                } else {
                    0
                }),
                collect_a ==> forall|i: int|
                    0 <= i < li ==> #[trigger] ws_vec@[i] == (AttnWeights {
                        batch,
                        heads: self.heads,
                        seq_len,
                        layer: self.layers@[i].index,
                        masked,
                        query: self.layers@[i].attn_input(self.chained(i, masked, train)),
                    }),
            decreases n - li,
        {
            if collect_h {
                hs_vec.push(current.duplicate());
            }
            let layer = &self.layers[li];
            let bias_ref: Option<&AttnBias> = match &bias {
                Some(b) => Some(b),
                None => None,
            };
            let stepped = layer.forward_t(&current, bias_ref, train);
            current = stepped.0;
            if collect_a {
                match stepped.1 {
                    Some(w) => {
                        ws_vec.push(w);
                    },
                    None => {
                        return Err(EncoderError::Invariant);
                    },
                }
            }
            li = li + 1;
        }
        if collect_h {
            hs_vec.push(current.duplicate());
        }
        let hidden_state = HiddenState {
            batch,
            seq_len,
            d_model: self.d_model,
            value: Expr::Normed { site: NormSite::StackFinal, inner: Box::new(current.value) },
        };
        Ok(
            PegasusEncoderOutput {
                hidden_state,
                all_hidden_states: if collect_h {
                    Some(hs_vec)
                } else {
                    None
                },
                all_attentions: if collect_a {
                    Some(ws_vec)
                } else {
                    None
                },
            },
        )
    }
}

/// Determinism of the composition: the forward contract pins every part
/// of the output, so any two outputs it admits for the same stack, batch
/// shape, mask presence and mode are equal part for part. With training
/// disabled no dropout node appears anywhere in the pinned values, so the
/// composition carries no randomness at all.
pub proof fn law_forward_deterministic(
    enc: PegasusEncoder,
    batch: usize,
    seq_len: usize,
    masked: bool,
    train: bool,
    a: PegasusEncoderOutput,
    b: PegasusEncoderOutput,
)
    requires
        enc.describes_output(batch, seq_len, masked, train, a),
        enc.describes_output(batch, seq_len, masked, train, b),
    ensures
        a.hidden_state == b.hidden_state,
        a.all_hidden_states is Some <==> b.all_hidden_states is Some,
        a.all_attentions is Some <==> b.all_attentions is Some,
        match (a.all_hidden_states, b.all_hidden_states) {
            (Some(ha), Some(hb)) => ha@ == hb@,
            _ => true,
        },
        match (a.all_attentions, b.all_attentions) {
            (Some(wa), Some(wb)) => wa@ == wb@,
            _ => true,
        },
{
    match (a.all_hidden_states, b.all_hidden_states) {
        (Some(ha), Some(hb)) => {
            assert(ha@ =~= hb@);
        },
        _ => {},
    }
    match (a.all_attentions, b.all_attentions) {
        (Some(wa), Some(wb)) => {
            assert(wa@ =~= wb@);
        },
        _ => {},
    }
}

/// Collector endpoints: with hidden-state collection enabled there are
/// exactly `layers + 1` entries; the first is the post-embedding,
/// pre-stack tensor, the last is the last layer's output before the final
/// normalization, and the returned hidden state is exactly that last
/// entry behind the stack's final normalization.
pub proof fn law_collector_endpoints(
    enc: PegasusEncoder,
    batch: usize,
    seq_len: usize,
    masked: bool,
    train: bool,
    out: PegasusEncoderOutput,
)
    requires
        enc.wf(),
        enc.describes_output(batch, seq_len, masked, train, out),
    ensures
        match out.all_hidden_states {
            Some(hs) => {
                let n = enc.layers@.len() as int;
                &&& hs@.len() == n + 1
                &&& hs@[0].value == enc.embedded(train)
                &&& hs@[n].value == enc.chained(n, masked, train)
                &&& out.hidden_state.value == (Expr::Normed {
                    site: NormSite::StackFinal,
                    inner: Box::new(hs@[n].value),
                })
            },
            None => true,
        },
{
    match out.all_hidden_states {
        Some(hs) => {
            let n = enc.layers@.len() as int;
            assert(hs@[0].value == enc.chained(0, masked, train));
            assert(enc.chained(0, masked, train) == enc.embedded(train));
        },
        None => {},
    }
}

/// In evaluation mode one layer introduces no dropout node: if its input
/// is free of dropout, so is its output.
pub proof fn lemma_layer_eval_dropout_free(l: EncoderLayer, x: Expr, masked: bool)
    requires
        !mentions_dropout(x),
    ensures
        !mentions_dropout(l.transformed(x, masked, false)),
{
    reveal_with_fuel(mentions_dropout, 16);
}

/// Evaluation-mode purity: with training disabled, the hidden state after
/// any number of layers contains no dropout node anywhere, so the whole
/// composition is free of the encoder's only stochastic operation and two
/// identical calls denote the same numeric computation.
pub proof fn law_eval_mode_dropout_free(enc: PegasusEncoder, k: int, masked: bool)
    requires
        enc.wf(),
        0 <= k <= enc.layers@.len(),
    ensures
        !mentions_dropout(enc.chained(k, masked, false)),
    decreases k,
{
    if k <= 0 {
        reveal_with_fuel(mentions_dropout, 4);
        assert(!mentions_dropout(enc.embedded(false)));
    } else {
        law_eval_mode_dropout_free(enc, k - 1, masked);
        lemma_layer_eval_dropout_free(
            enc.layers@[k - 1],
            enc.chained(k - 1, masked, false),
            masked,
        );
    }
}

/// Strict layer ordering: in the collected hidden-state sequence, every
/// next entry is exactly the corresponding layer's transformation of the
/// previous entry — the layers are applied one after another, each to the
/// output of the one before it.
pub proof fn law_layers_in_order(
    enc: PegasusEncoder,
    batch: usize,
    seq_len: usize,
    masked: bool,
    train: bool,
    out: PegasusEncoderOutput,
    i: int,
)
    requires
        enc.wf(),
        enc.describes_output(batch, seq_len, masked, train, out),
        0 <= i < enc.layers@.len(),
    ensures
        match out.all_hidden_states {
            Some(hs) => hs@[i + 1].value == enc.layers@[i].transformed(
                hs@[i].value,
                masked,
                train,
            ),
            None => true,
        },
{
    match out.all_hidden_states {
        Some(hs) => {
            assert(hs@[i].value == enc.chained(i, masked, train));
            assert(hs@[i + 1].value == enc.chained(i + 1, masked, train));
        },
        None => {},
    }
}

/// Residual wiring of one layer: the output is the feed-forward result
/// added to the residual base, and the base is the (possibly dropped-out)
/// attention context added to the layer's own un-normalized input. With
/// both sub-block contributions taken away, the input reaches the output
/// through the two additions and nothing else.
pub proof fn law_residual_wiring(l: EncoderLayer, x: Expr, masked: bool, train: bool)
    ensures
        ({
            let base = l.residual_base(x, masked, train);
            &&& l.transformed(x, masked, train) == (Expr::Added {
                left: Box::new(l.ffn_output(base, train)),
                right: Box::new(base),
            })
            &&& base == (Expr::Added {
                left: Box::new(drop_if(train, l.dropout_millionths, l.attn_context(x, masked))),
                right: Box::new(x),
            })
        }),
{
}

} // verus!
