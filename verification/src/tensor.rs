use vstd::prelude::*;
use crate::config::Activation;

verus! {

/// Identifies a normalization parameter set (scale and bias vectors of
/// length `d_model`) by its place in the stack, mirroring the hierarchical
/// parameter naming a checkpoint uses.
#[derive(Clone, Copy, Debug, PartialEq, Eq, Structural)]
pub enum NormSite {
    /// The pre-attention normalization of one layer.
    SelfAttn { layer: usize },
    /// The pre-feed-forward normalization of one layer.
    LayerFinal { layer: usize },
    /// The single normalization applied after the last layer.
    StackFinal,
}

/// Identifies one of the two linear projections of a layer's feed-forward
/// sub-block: the first maps `d_model` to `ffn_dim`, the second back.
#[derive(Clone, Copy, Debug, PartialEq, Eq, Structural)]
pub enum FfnStage {
    First,
    Second,
}

/// Symbolic value of an activation tensor.
///
/// Each node records one parameterized operation of the forward pass; the
/// leaf is the embedded input of the call. Two tensors carry the same
/// floating-point contents whenever they were produced by the same
/// composition from the same inputs and parameters, so this value is what
/// the contracts pin: normalization placement, residual additions, mask
/// application, and the exact sites where train-mode dropout acts.
#[derive(Debug)]
pub enum Expr {
    /// Embedding lookup of the call's token ids, multiplied by
    /// `sqrt(d_model)` when `scaled` is set and by one otherwise.
    Embed { scaled: bool },
    /// Addition of the sinusoidal positional table starting at `offset`.
    Positioned { offset: usize, inner: Box<Expr> },
    /// Train-mode dropout with the given probability in millionths; in
    /// evaluation mode no such node is produced.
    Dropped { millionths: u32, inner: Box<Expr> },
    /// Layer normalization with the parameter set at `site`.
    Normed { site: NormSite, inner: Box<Expr> },
    /// Multi-head self-attention context of the given layer over `inner`,
    /// with the additive padding bias applied when `masked` is set.
    Attended { layer: usize, masked: bool, inner: Box<Expr> },
    /// One of the two feed-forward linear projections of the given layer.
    Projected { layer: usize, stage: FfnStage, inner: Box<Expr> },
    /// Elementwise activation function.
    Activated { kind: Activation, inner: Box<Expr> },
    /// Elementwise addition; every residual connection is one of these.
    Added { left: Box<Expr>, right: Box<Expr> },
}

impl Expr {
    /// Deep copy whose value the verifier knows equals the original; the
    /// collectors use it to capture a hidden state before a layer runs.
    pub fn duplicate(&self) -> (r: Expr)
        ensures
            r == *self,
        decreases self,
    {
        match self {
            Expr::Embed { scaled } => Expr::Embed { scaled: *scaled },
            Expr::Positioned { offset, inner } => Expr::Positioned {
                offset: *offset,
                inner: Box::new(inner.duplicate()),
            },
            Expr::Dropped { millionths, inner } => Expr::Dropped {
                millionths: *millionths,
                inner: Box::new(inner.duplicate()),
            },
            Expr::Normed { site, inner } => Expr::Normed {
                site: *site,
                inner: Box::new(inner.duplicate()),
            },
            Expr::Attended { layer, masked, inner } => Expr::Attended {
                layer: *layer,
                masked: *masked,
                inner: Box::new(inner.duplicate()),
            },
            Expr::Projected { layer, stage, inner } => Expr::Projected {
                layer: *layer,
                stage: *stage,
                inner: Box::new(inner.duplicate()),
            },
            Expr::Activated { kind, inner } => Expr::Activated {
                kind: *kind,
                inner: Box::new(inner.duplicate()),
            },
            Expr::Added { left, right } => Expr::Added {
                left: Box::new(left.duplicate()),
                right: Box::new(right.duplicate()),
            },
        }
    }

    /// Decides structural equality of two symbolic values; two tensors
    /// with equal values were produced by the same composition.
    pub fn same_as(&self, other: &Expr) -> (r: bool)
        ensures
            r == (*self == *other),
        decreases self,
    {
        match (self, other) {
            (Expr::Embed { scaled: a }, Expr::Embed { scaled: b }) => *a == *b,
            (
                Expr::Positioned { offset: o1, inner: i1 },
                Expr::Positioned { offset: o2, inner: i2 },
            ) => *o1 == *o2 && i1.same_as(i2),
            (
                Expr::Dropped { millionths: m1, inner: i1 },
                Expr::Dropped { millionths: m2, inner: i2 },
            ) => *m1 == *m2 && i1.same_as(i2),
            (Expr::Normed { site: s1, inner: i1 }, Expr::Normed { site: s2, inner: i2 }) => *s1
                == *s2 && i1.same_as(i2),
            (
                Expr::Attended { layer: l1, masked: m1, inner: i1 },
                Expr::Attended { layer: l2, masked: m2, inner: i2 },
            ) => *l1 == *l2 && *m1 == *m2 && i1.same_as(i2),
            (
                Expr::Projected { layer: l1, stage: s1, inner: i1 },
                Expr::Projected { layer: l2, stage: s2, inner: i2 },
            ) => *l1 == *l2 && *s1 == *s2 && i1.same_as(i2),
            (
                Expr::Activated { kind: k1, inner: i1 },
                Expr::Activated { kind: k2, inner: i2 },
            ) => *k1 == *k2 && i1.same_as(i2),
            (
                Expr::Added { left: l1, right: r1 },
                Expr::Added { left: l2, right: r2 },
            ) => l1.same_as(l2) && r1.same_as(r2),
            _ => false,
        }
    }
}

/// Whether a dropout node occurs anywhere in a symbolic value. Dropout is
/// the only stochastic operation of the encoder, so a value without one
/// is free of randomness altogether.
pub open spec fn mentions_dropout(e: Expr) -> bool
    decreases e,
{
    match e {
        Expr::Embed { .. } => false,
        Expr::Positioned { inner, .. } => mentions_dropout(*inner),
        Expr::Dropped { .. } => true,
        Expr::Normed { inner, .. } => mentions_dropout(*inner),
        Expr::Attended { inner, .. } => mentions_dropout(*inner),
        Expr::Projected { inner, .. } => mentions_dropout(*inner),
        Expr::Activated { inner, .. } => mentions_dropout(*inner),
        Expr::Added { left, right } => mentions_dropout(*left) || mentions_dropout(*right),
    }
}

/// Wraps a value in a train-mode dropout node; in evaluation mode dropout
/// is the identity, so the value is left unchanged.
pub open spec fn drop_if(train: bool, millionths: u32, e: Expr) -> Expr {
    if train {
        Expr::Dropped { millionths, inner: Box::new(e) }
    } else {
        e
    }
}

/// Executable counterpart of `drop_if`.
pub fn apply_dropout(train: bool, millionths: u32, e: Expr) -> (r: Expr)
    ensures
        r == drop_if(train, millionths, e),
{
    if train {
        Expr::Dropped { millionths, inner: Box::new(e) }
    } else {
        e
    }
}

/// A hidden-state tensor: shape (batch, seq_len, d_model) together with
/// the symbolic value of its contents.
#[derive(Debug)]
pub struct HiddenState {
    pub batch: usize,
    pub seq_len: usize,
    pub d_model: usize,
    pub value: Expr,
}

impl HiddenState {
    /// Deep copy with a known value, used when a collector captures the
    /// current hidden state.
    pub fn duplicate(&self) -> (r: HiddenState)
        ensures
            r == *self,
    {
        HiddenState {
            batch: self.batch,
            seq_len: self.seq_len,
            d_model: self.d_model,
            value: self.value.duplicate(),
        }
    }

    /// Decides equality of two hidden-state tensors: same shape and the
    /// same symbolic value.
    pub fn same_as(&self, other: &HiddenState) -> (r: bool)
        ensures
            r == (*self == *other),
    {
        self.batch == other.batch && self.seq_len == other.seq_len && self.d_model
            == other.d_model && self.value.same_as(&other.value)
    }
}

/// The attention-weight tensor one layer reports when collection is
/// enabled: shape (batch, heads, seq_len, seq_len), the layer whose
/// parameters scored it, whether the padding bias was applied, and the
/// symbolic value the scores were computed over (the layer's normalized
/// input).
#[derive(Debug)]
pub struct AttnWeights {
    pub batch: usize,
    pub heads: usize,
    pub seq_len: usize,
    pub layer: usize,
    pub masked: bool,
    pub query: Expr,
}

impl AttnWeights {
    /// Decides equality of two attention-weight tensors.
    pub fn same_as(&self, other: &AttnWeights) -> (r: bool)
        ensures
            r == (*self == *other),
    {
        self.batch == other.batch && self.heads == other.heads && self.seq_len == other.seq_len
            && self.layer == other.layer && self.masked == other.masked && self.query.same_as(
            &other.query,
        )
    }
}

} // verus!
