use wgpu_llm::config::{
    Activation, ConfigError, ConfigField, ConfigFields, DecoderConfig, FfnType, NormType,
    PosEncoding,
};

const GPT2_CONFIG: &str = r#"{
  "activation_function": "gelu_new",
  "architectures": ["GPT2LMHeadModel"],
  "attn_pdrop": 0.1,
  "bos_token_id": 50256,
  "embd_pdrop": 0.1,
  "eos_token_id": 50256,
  "initializer_range": 0.02,
  "layer_norm_epsilon": 1e-05,
  "model_type": "gpt2",
  "n_ctx": 1024,
  "n_embd": 768,
  "n_head": 12,
  "n_layer": 12,
  "n_positions": 1024,
  "resid_pdrop": 0.1,
  "summary_activation": null,
  "summary_first_dropout": 0.1,
  "summary_proj_to_labels": true,
  "summary_type": "cls_index",
  "summary_use_proj": true,
  "task_specific_params": {
    "text-generation": {
      "do_sample": true,
      "max_length": 50
    }
  },
  "vocab_size": 50257
}"#;

fn gpt2_fields() -> ConfigFields {
    ConfigFields {
        model_type: Some("gpt2".to_string()),
        vocab_size: Some(50257),
        n_embd: Some(768),
        n_layer: Some(12),
        n_head: Some(12),
        n_inner: None,
        n_positions: Some(1024),
        layer_norm_epsilon: Some("1e-5".to_string()),
        tie_word_embeddings: None,
    }
}

fn error_of(r: Result<DecoderConfig, ConfigError>) -> ConfigError {
    match r {
        Ok(_) => panic!("expected the config to be refused"),
        Err(e) => e,
    }
}

#[test]
fn test_decoder_config() {
    let json = GPT2_CONFIG;
    let config = DecoderConfig::new(json).ok().expect("Failed to parse config JSON");
    assert_eq!(config.vocab_size, 50257);
    assert_eq!(config.hidden_size, 768);
    assert_eq!(config.num_layers, 12);
    assert_eq!(config.num_attention_heads, 12);
    assert_eq!(config.num_kv_heads, 12);
    assert_eq!(config.intermediate_size, 3072);
    assert_eq!(config.max_position_embeddings, 1024);
    match config.norm_type {
        NormType::LayerNorm => {},
        _ => panic!("Expected LayerNorm"),
    }
    assert_eq!(config.norm_eps.parse::<f64>().unwrap() as f32, 1e-5);
    match config.pos_encoding {
        PosEncoding::Learned => {},
        _ => panic!("Expected Learned Positional Encoding"),
    }
    match config.ffn_type {
        FfnType::Standard => {},
        _ => panic!("Expected Standard FFN"),
    }
    match config.activation {
        Activation::Gelu => {},
        _ => panic!("Expected Gelu activation"),
    }
    assert!(config.use_bias);
    assert!(config.tie_word_embeddings);
}

#[test]
fn new_refuses_text_that_is_not_json() {
    assert!(matches!(error_of(DecoderConfig::new("{ not json")), ConfigError::InvalidJson));
    assert!(matches!(error_of(DecoderConfig::new("")), ConfigError::InvalidJson));
}

#[test]
fn new_requires_a_model_type() {
    assert!(matches!(error_of(DecoderConfig::new("{}")), ConfigError::MissingModelType));
    assert!(matches!(error_of(DecoderConfig::new("[1, 2]")), ConfigError::MissingModelType));
    assert!(matches!(
        error_of(DecoderConfig::new(r#"{"model_type": 5}"#)),
        ConfigError::MissingModelType
    ));
}

#[test]
fn new_refuses_other_model_types() {
    match error_of(DecoderConfig::new(r#"{"model_type": "llama", "vocab_size": 32000}"#)) {
        ConfigError::UnsupportedModelType(name) => assert_eq!(name, "llama"),
        _ => panic!("expected an unsupported model type"),
    }
}

#[test]
fn new_reports_the_first_missing_member() {
    let r = DecoderConfig::new(r#"{"model_type": "gpt2", "vocab_size": 10, "n_embd": "wide"}"#);
    assert!(matches!(error_of(r), ConfigError::MissingField(ConfigField::NEmbd)));
    let r = DecoderConfig::new(
        r#"{"model_type": "gpt2", "vocab_size": 10, "n_embd": 8, "n_layer": 2, "n_head": 2,
            "n_positions": 16}"#,
    );
    assert!(matches!(error_of(r), ConfigError::MissingField(ConfigField::LayerNormEpsilon)));
}

#[test]
fn new_reads_optional_members() {
    let r = DecoderConfig::new(
        r#"{"model_type": "gpt2", "vocab_size": 10, "n_embd": 8, "n_layer": 2, "n_head": 2,
            "n_inner": 20, "n_positions": 16, "layer_norm_epsilon": 0.001,
            "tie_word_embeddings": false}"#,
    );
    let c = r.ok().unwrap();
    assert_eq!(c.intermediate_size, 20);
    assert!(!c.tie_word_embeddings);
    assert_eq!(c.norm_eps, "0.001");
    let r = DecoderConfig::new(
        r#"{"model_type": "gpt2", "vocab_size": 10, "n_embd": 8, "n_layer": 2, "n_head": 2,
            "n_inner": null, "n_positions": 16, "layer_norm_epsilon": 1,
            "tie_word_embeddings": "no"}"#,
    );
    let c = r.ok().unwrap();
    assert_eq!(c.intermediate_size, 32);
    assert!(c.tie_word_embeddings);
}

#[test]
fn from_fields_reads_gpt2() {
    let c = DecoderConfig::from_fields(gpt2_fields()).ok().unwrap();
    assert_eq!(c.vocab_size, 50257);
    assert_eq!(c.hidden_size, 768);
    assert_eq!(c.num_kv_heads, c.num_attention_heads);
    assert_eq!(c.intermediate_size, 3072);
    assert_eq!(c.max_position_embeddings, 1024);
    assert!(c.use_bias && c.tie_word_embeddings);
}

#[test]
fn from_fields_errors() {
    let mut f = gpt2_fields();
    f.model_type = None;
    assert!(matches!(error_of(DecoderConfig::from_fields(f)), ConfigError::MissingModelType));

    let mut f = gpt2_fields();
    f.model_type = Some("GPT2".to_string());
    assert!(matches!(
        error_of(DecoderConfig::from_fields(f)),
        ConfigError::UnsupportedModelType(_)
    ));

    let mut f = gpt2_fields();
    f.vocab_size = None;
    assert!(matches!(
        error_of(DecoderConfig::from_fields(f)),
        ConfigError::MissingField(ConfigField::VocabSize)
    ));

    let mut f = gpt2_fields();
    f.n_layer = None;
    assert!(matches!(
        error_of(DecoderConfig::from_fields(f)),
        ConfigError::MissingField(ConfigField::NLayer)
    ));

    let mut f = gpt2_fields();
    f.n_head = None;
    assert!(matches!(
        error_of(DecoderConfig::from_fields(f)),
        ConfigError::MissingField(ConfigField::NHead)
    ));

    let mut f = gpt2_fields();
    f.n_positions = None;
    assert!(matches!(
        error_of(DecoderConfig::from_fields(f)),
        ConfigError::MissingField(ConfigField::NPositions)
    ));

    let mut f = gpt2_fields();
    f.n_embd = Some(1 << 62);
    assert!(matches!(
        error_of(DecoderConfig::from_fields(f)),
        ConfigError::IntermediateSizeOverflow
    ));
}

#[test]
fn from_fields_keeps_sizes_exactly() {
    let mut f = gpt2_fields();
    f.vocab_size = Some((1u64 << 32) + 5);
    f.n_inner = Some(1 << 40);
    f.n_positions = Some(u64::MAX);
    let c = DecoderConfig::from_fields(f).ok().unwrap();
    assert_eq!(c.vocab_size, (1u64 << 32) + 5);
    assert_eq!(c.intermediate_size, 1 << 40);
    assert_eq!(c.max_position_embeddings, u64::MAX);

    let mut f = gpt2_fields();
    f.n_embd = Some(1 << 40);
    let c = DecoderConfig::from_fields(f).ok().unwrap();
    assert_eq!(c.hidden_size, 1 << 40);
    assert_eq!(c.intermediate_size, 1 << 42);
}

#[test]
fn new_reads_a_large_n_inner() {
    let r = DecoderConfig::new(
        r#"{"model_type": "gpt2", "vocab_size": 10, "n_embd": 8, "n_layer": 2, "n_head": 2,
            "n_inner": 5000000000, "n_positions": 16, "layer_norm_epsilon": 1e-5}"#,
    );
    let c = r.ok().unwrap();
    assert_eq!(c.intermediate_size, 5000000000);
    assert_eq!(c.vocab_size, 10);
    assert_eq!(c.hidden_size, 8);
}

#[test]
fn new_reads_the_epsilon_as_written() {
    let r = DecoderConfig::new(
        r#"{"model_type": "gpt2", "vocab_size": 10, "n_embd": 8, "n_layer": 2, "n_head": 2,
            "n_positions": 16, "layer_norm_epsilon": 2}"#,
    );
    assert_eq!(r.ok().unwrap().norm_eps, "2");
}
