use pegasus_encoder::config::Activation;
use pegasus_encoder::config::PegasusConfig;
use pegasus_encoder::encoder::EncoderLayer;
use pegasus_encoder::encoder::PegasusEncoder;
use pegasus_encoder::error::EncoderError;
use pegasus_encoder::mask::expand_mask;
use pegasus_encoder::tensor::Expr;
use pegasus_encoder::tensor::FfnStage;
use pegasus_encoder::tensor::HiddenState;
use pegasus_encoder::tensor::NormSite;

fn small_config(layers: usize, attn: bool, hidden: bool, scale: bool) -> PegasusConfig {
    PegasusConfig {
        d_model: 8,
        encoder_attention_heads: 2,
        encoder_layers: layers,
        encoder_ffn_dim: 16,
        max_position_embeddings: 64,
        dropout_millionths: 100_000,
        attention_dropout_millionths: 0,
        activation_dropout_millionths: 50_000,
        activation_function: None,
        output_attentions: Some(attn),
        output_hidden_states: Some(hidden),
        scale_embedding: Some(scale),
    }
}

#[test]
fn config_zero_layers_rejected() {
    let config = small_config(0, false, false, false);
    let r = PegasusEncoder::new(&config);
    assert_eq!(r.err(), Some(EncoderError::Config));
}

#[test]
fn config_indivisible_width_rejected() {
    let mut config = small_config(2, false, false, false);
    config.encoder_attention_heads = 3;
    let r = PegasusEncoder::new(&config);
    assert_eq!(r.err(), Some(EncoderError::Config));
}

#[test]
fn config_probability_above_one_rejected() {
    let mut config = small_config(2, false, false, false);
    config.dropout_millionths = 1_000_001;
    let r = PegasusEncoder::new(&config);
    assert_eq!(r.err(), Some(EncoderError::Config));
}

#[test]
fn scenario_small_stack_shapes() {
    let config = small_config(2, true, true, false);
    let enc = PegasusEncoder::new(&config).unwrap();
    let ids: Vec<Vec<i64>> = vec![vec![11, 7, 3, 5]];
    let out = enc.forward_t(&ids, None, false).unwrap();
    assert_eq!(out.hidden_state.batch, 1);
    assert_eq!(out.hidden_state.seq_len, 4);
    assert_eq!(out.hidden_state.d_model, 8);
    let hs = out.all_hidden_states.expect("hidden-state collector requested");
    assert_eq!(hs.len(), 3);
    for h in &hs {
        assert_eq!((h.batch, h.seq_len, h.d_model), (1, 4, 8));
    }
    let ws = out.all_attentions.expect("attention collector requested");
    assert_eq!(ws.len(), 2);
    for (i, w) in ws.iter().enumerate() {
        assert_eq!((w.batch, w.heads, w.seq_len), (1, 2, 4));
        assert_eq!(w.layer, i);
        assert!(!w.masked);
    }
}

#[test]
fn collectors_absent_when_disabled() {
    let config = small_config(2, false, false, false);
    let enc = PegasusEncoder::new(&config).unwrap();
    let ids: Vec<Vec<i64>> = vec![vec![1, 2], vec![3, 4]];
    let out = enc.forward_t(&ids, None, false).unwrap();
    assert!(out.all_hidden_states.is_none());
    assert!(out.all_attentions.is_none());
}

#[test]
fn hidden_collector_endpoints() {
    let config = small_config(2, false, true, true);
    let enc = PegasusEncoder::new(&config).unwrap();
    let ids: Vec<Vec<i64>> = vec![vec![11, 7, 3, 5]];
    let out = enc.forward_t(&ids, None, false).unwrap();
    let hs = out.all_hidden_states.expect("hidden-state collector requested");
    assert_eq!(hs.len(), 3);
    let post_embedding = Expr::Positioned {
        offset: 0,
        inner: Box::new(Expr::Embed { scaled: true }),
    };
    assert!(hs[0].value.same_as(&post_embedding));
    let final_expected = Expr::Normed {
        site: NormSite::StackFinal,
        inner: Box::new(hs[2].value.duplicate()),
    };
    assert!(out.hidden_state.value.same_as(&final_expected));
}

#[test]
fn forward_is_deterministic_in_eval_mode() {
    let config = small_config(3, true, true, true);
    let enc = PegasusEncoder::new(&config).unwrap();
    let ids: Vec<Vec<i64>> = vec![vec![9, 8, 7], vec![6, 5, 4]];
    let mask: Vec<Vec<bool>> = vec![vec![true, true, false], vec![true, false, false]];
    let a = enc.forward_t(&ids, Some(&mask), false).unwrap();
    let b = enc.forward_t(&ids, Some(&mask), false).unwrap();
    assert!(a.hidden_state.same_as(&b.hidden_state));
    let ha = a.all_hidden_states.unwrap();
    let hb = b.all_hidden_states.unwrap();
    assert_eq!(ha.len(), hb.len());
    for (x, y) in ha.iter().zip(hb.iter()) {
        assert!(x.same_as(y));
    }
    let wa = a.all_attentions.unwrap();
    let wb = b.all_attentions.unwrap();
    assert_eq!(wa.len(), wb.len());
    for (x, y) in wa.iter().zip(wb.iter()) {
        assert!(x.same_as(y));
    }
}

#[test]
fn ragged_batch_rejected() {
    let config = small_config(1, false, false, false);
    let enc = PegasusEncoder::new(&config).unwrap();
    let ids: Vec<Vec<i64>> = vec![vec![1, 2, 3], vec![4, 5]];
    assert_eq!(enc.forward_t(&ids, None, false).err(), Some(EncoderError::Shape));
}

#[test]
fn empty_batch_rejected() {
    let config = small_config(1, false, false, false);
    let enc = PegasusEncoder::new(&config).unwrap();
    let ids: Vec<Vec<i64>> = vec![];
    assert_eq!(enc.forward_t(&ids, None, false).err(), Some(EncoderError::Shape));
}

#[test]
fn mask_batch_mismatch_rejected() {
    let config = small_config(1, false, false, false);
    let enc = PegasusEncoder::new(&config).unwrap();
    let ids: Vec<Vec<i64>> = vec![vec![1, 2, 3]];
    let mask: Vec<Vec<bool>> = vec![vec![true, true, true], vec![true, true, true]];
    assert_eq!(enc.forward_t(&ids, Some(&mask), false).err(), Some(EncoderError::Shape));
}

#[test]
fn mask_row_mismatch_rejected() {
    let config = small_config(1, false, false, false);
    let enc = PegasusEncoder::new(&config).unwrap();
    let ids: Vec<Vec<i64>> = vec![vec![1, 2, 3]];
    let mask: Vec<Vec<bool>> = vec![vec![true, true]];
    assert_eq!(enc.forward_t(&ids, Some(&mask), false).err(), Some(EncoderError::Shape));
}

#[test]
fn sequence_beyond_capacity_rejected() {
    let config = small_config(1, false, false, false);
    let enc = PegasusEncoder::new(&config).unwrap();
    let ids: Vec<Vec<i64>> = vec![(0..65).collect()];
    assert_eq!(enc.forward_t(&ids, None, false).err(), Some(EncoderError::Range));
}

#[test]
fn empty_sequence_accepted() {
    let config = small_config(1, true, true, false);
    let enc = PegasusEncoder::new(&config).unwrap();
    let ids: Vec<Vec<i64>> = vec![vec![]];
    let mask: Vec<Vec<bool>> = vec![vec![]];
    let out = enc.forward_t(&ids, Some(&mask), false).unwrap();
    assert_eq!((out.hidden_state.batch, out.hidden_state.seq_len), (1, 0));
    assert_eq!(out.all_hidden_states.unwrap().len(), 2);
    assert_eq!(out.all_attentions.unwrap().len(), 1);
}

#[test]
fn layer_output_follows_residual_wiring() {
    let config = small_config(1, true, false, false);
    let layer = EncoderLayer::new(0, &config);
    let x = HiddenState {
        batch: 1,
        seq_len: 4,
        d_model: 8,
        value: Expr::Embed { scaled: false },
    };
    let (out, weights) = layer.forward_t(&x, None, false);
    assert_eq!((out.batch, out.seq_len, out.d_model), (1, 4, 8));
    let normed_input = Expr::Normed {
        site: NormSite::SelfAttn { layer: 0 },
        inner: Box::new(Expr::Embed { scaled: false }),
    };
    let base = Expr::Added {
        left: Box::new(Expr::Attended {
            layer: 0,
            masked: false,
            inner: Box::new(normed_input.duplicate()),
        }),
        right: Box::new(Expr::Embed { scaled: false }),
    };
    let ffn = Expr::Projected {
        layer: 0,
        stage: FfnStage::Second,
        inner: Box::new(Expr::Activated {
            kind: Activation::Gelu,
            inner: Box::new(Expr::Projected {
                layer: 0,
                stage: FfnStage::First,
                inner: Box::new(Expr::Normed {
                    site: NormSite::LayerFinal { layer: 0 },
                    inner: Box::new(base.duplicate()),
                }),
            }),
        }),
    };
    let expected = Expr::Added { left: Box::new(ffn), right: Box::new(base) };
    assert!(out.value.same_as(&expected));
    let w = weights.expect("attention weights requested");
    assert_eq!((w.batch, w.heads, w.seq_len, w.layer), (1, 2, 4, 0));
    assert!(!w.masked);
    assert!(w.query.same_as(&normed_input));
}

#[test]
fn train_mode_marks_dropout_sites() {
    let config = small_config(1, false, true, false);
    let enc = PegasusEncoder::new(&config).unwrap();
    let ids: Vec<Vec<i64>> = vec![vec![1, 2]];
    let out = enc.forward_t(&ids, None, true).unwrap();
    let hs = out.all_hidden_states.unwrap();
    let embedded_trained = Expr::Dropped {
        millionths: 100_000,
        inner: Box::new(Expr::Positioned {
            offset: 0,
            inner: Box::new(Expr::Embed { scaled: false }),
        }),
    };
    assert!(hs[0].value.same_as(&embedded_trained));
    // In evaluation mode the same stack produces no dropout node at all.
    let out_eval = enc.forward_t(&ids, None, false).unwrap();
    let hs_eval = out_eval.all_hidden_states.unwrap();
    let embedded_eval = Expr::Positioned {
        offset: 0,
        inner: Box::new(Expr::Embed { scaled: false }),
    };
    assert!(hs_eval[0].value.same_as(&embedded_eval));
}

#[test]
fn masked_forward_marks_attention() {
    let config = small_config(2, true, false, false);
    let enc = PegasusEncoder::new(&config).unwrap();
    let ids: Vec<Vec<i64>> = vec![vec![1, 2, 3, 4]];
    let mask: Vec<Vec<bool>> = vec![vec![true, true, false, true]];
    let out = enc.forward_t(&ids, Some(&mask), false).unwrap();
    let ws = out.all_attentions.unwrap();
    assert_eq!(ws.len(), 2);
    for w in &ws {
        assert!(w.masked);
    }
}

#[test]
fn expand_mask_rejects_empty_and_ragged() {
    let empty: Vec<Vec<bool>> = vec![];
    assert_eq!(expand_mask(&empty).err(), Some(EncoderError::Shape));
    let ragged: Vec<Vec<bool>> = vec![vec![true, true], vec![true]];
    assert_eq!(expand_mask(&ragged).err(), Some(EncoderError::Shape));
}

#[test]
fn expanded_mask_suppresses_padding_softmax() {
    let mask: Vec<Vec<bool>> = vec![vec![true, true, false, true]];
    let bias = expand_mask(&mask).unwrap();
    assert_eq!((bias.batch, bias.seq_len), (1, 4));
    assert_eq!(bias.suppress, vec![vec![false, false, true, false]]);
    // Numeric rim: an additive bias of a large negative number at each
    // suppressed position drives its softmax weight under any epsilon.
    let scores: Vec<f64> = bias.suppress[0]
        .iter()
        .map(|s| if *s { -1.0e9f64 } else { 0.0f64 })
        .collect();
    let total: f64 = scores.iter().map(|s| s.exp()).sum();
    let weights: Vec<f64> = scores.iter().map(|s| s.exp() / total).collect();
    assert!(weights[2] < 1.0e-6);
    assert!((weights.iter().sum::<f64>() - 1.0).abs() < 1.0e-12);
    assert!((weights[0] - 1.0 / 3.0).abs() < 1.0e-12);
}
