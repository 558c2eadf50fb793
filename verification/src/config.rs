//! The architecture of a decoder-only language model, read from a
//! HuggingFace `config.json`.
use vstd::prelude::*;
use vstd::string::StringExecFns;
use crate::json::{
    json_parses, json_text_bool_members, json_text_number_members, json_text_str_members,
    json_text_u64_members, lookup, member_bool, member_number_text, member_str, member_u64,
    parse_json,
};

verus! {

broadcast use vstd::string::group_string_axioms;

/// Normalisation applied before attention and feed-forward blocks.
pub enum NormType {
    LayerNorm,
    RMSNorm,
}

/// How token positions enter the model.
pub enum PosEncoding {
    /// A learned table of position embeddings.
    Learned,
    /// Rotary embeddings with base `theta`, a JSON number as written.
    RoPE { theta: String },
}

/// `PosEncoding` with the number as characters.
pub enum PosEncodingView {
    Learned,
    RoPE { theta: Seq<char> },
}

/// Shape of the feed-forward block.
pub enum FfnType {
    Standard,
    Gated,
}

/// Activation function of the feed-forward block.
pub enum Activation {
    Gelu,
    Silu,
}

/// The parameters of a decoder-only causal language model.
pub struct DecoderConfig {
    pub vocab_size: u64,
    pub hidden_size: u64,
    pub num_layers: u64,
    pub num_attention_heads: u64,
    pub num_kv_heads: u64,
    pub intermediate_size: u64,
    pub max_position_embeddings: u64,
    pub norm_type: NormType,
    /// The normalisation epsilon: the JSON number of the config, as
    /// `serde_json` writes it.
    pub norm_eps: String,
    pub pos_encoding: PosEncoding,
    pub ffn_type: FfnType,
    pub activation: Activation,
    pub use_bias: bool,
    pub tie_word_embeddings: bool,
}

/// `DecoderConfig` with its numbers-as-text as characters.
pub struct DecoderConfigView {
    pub vocab_size: u64,
    pub hidden_size: u64,
    pub num_layers: u64,
    pub num_attention_heads: u64,
    pub num_kv_heads: u64,
    pub intermediate_size: u64,
    pub max_position_embeddings: u64,
    pub norm_type: NormType,
    pub norm_eps: Seq<char>,
    pub pos_encoding: PosEncodingView,
    pub ffn_type: FfnType,
    pub activation: Activation,
    pub use_bias: bool,
    pub tie_word_embeddings: bool,
}

impl View for DecoderConfig {
    type V = DecoderConfigView;

    open spec fn view(&self) -> DecoderConfigView {
        DecoderConfigView {
            vocab_size: self.vocab_size,
            hidden_size: self.hidden_size,
            num_layers: self.num_layers,
            num_attention_heads: self.num_attention_heads,
            num_kv_heads: self.num_kv_heads,
            intermediate_size: self.intermediate_size,
            max_position_embeddings: self.max_position_embeddings,
            norm_type: self.norm_type,
            norm_eps: self.norm_eps@,
            pos_encoding: match self.pos_encoding {
                PosEncoding::Learned => PosEncodingView::Learned,
                PosEncoding::RoPE { theta } => PosEncodingView::RoPE { theta: theta@ },
            },
            ffn_type: self.ffn_type,
            activation: self.activation,
            use_bias: self.use_bias,
            tie_word_embeddings: self.tie_word_embeddings,
        }
    }
}

/// A required member of the config.
pub enum ConfigField {
    VocabSize,
    NEmbd,
    NLayer,
    NHead,
    NPositions,
    LayerNormEpsilon,
}

/// Why a config was refused.
pub enum ConfigError {
    /// The text is not JSON.
    InvalidJson,
    /// `model_type` is absent or not a string.
    MissingModelType,
    /// `model_type` names an architecture that is not supported.
    UnsupportedModelType(String),
    /// A required member is absent or not of the right kind.
    MissingField(ConfigField),
    /// `n_inner` is absent and `4 * n_embd` does not fit in a `u64`.
    IntermediateSizeOverflow,
}

/// `ConfigError` with the model type as characters.
pub enum ConfigErrorView {
    InvalidJson,
    MissingModelType,
    UnsupportedModelType(Seq<char>),
    MissingField(ConfigField),
    IntermediateSizeOverflow,
}

impl View for ConfigError {
    type V = ConfigErrorView;

    open spec fn view(&self) -> ConfigErrorView {
        match self {
            ConfigError::InvalidJson => ConfigErrorView::InvalidJson,
            ConfigError::MissingModelType => ConfigErrorView::MissingModelType,
            ConfigError::UnsupportedModelType(s) => ConfigErrorView::UnsupportedModelType(s@),
            ConfigError::MissingField(f) => ConfigErrorView::MissingField(*f),
            ConfigError::IntermediateSizeOverflow => ConfigErrorView::IntermediateSizeOverflow,
        }
    }
}

/// The members of a `config.json` that the architecture is read from, each
/// present when the member exists with a value of the right kind; the
/// epsilon is the JSON number as written.
pub struct ConfigFields {
    pub model_type: Option<String>,
    pub vocab_size: Option<u64>,
    pub n_embd: Option<u64>,
    pub n_layer: Option<u64>,
    pub n_head: Option<u64>,
    pub n_inner: Option<u64>,
    pub n_positions: Option<u64>,
    pub layer_norm_epsilon: Option<String>,
    pub tie_word_embeddings: Option<bool>,
}

/// `ConfigFields` with its texts as characters.
pub struct ConfigFieldsView {
    pub model_type: Option<Seq<char>>,
    pub vocab_size: Option<u64>,
    pub n_embd: Option<u64>,
    pub n_layer: Option<u64>,
    pub n_head: Option<u64>,
    pub n_inner: Option<u64>,
    pub n_positions: Option<u64>,
    pub layer_norm_epsilon: Option<Seq<char>>,
    pub tie_word_embeddings: Option<bool>,
}

impl View for ConfigFields {
    type V = ConfigFieldsView;

    open spec fn view(&self) -> ConfigFieldsView {
        ConfigFieldsView {
            model_type: match self.model_type {
                Some(s) => Some(s@),
                None => None,
            },
            vocab_size: self.vocab_size,
            n_embd: self.n_embd,
            n_layer: self.n_layer,
            n_head: self.n_head,
            n_inner: self.n_inner,
            n_positions: self.n_positions,
            layer_norm_epsilon: match self.layer_norm_epsilon {
                Some(s) => Some(s@),
                None => None,
            },
            tie_word_embeddings: self.tie_word_embeddings,
        }
    }
}

/// The one model type that is supported.
pub open spec fn gpt2_name() -> Seq<char> {
    seq!['g', 'p', 't', '2']
}

/// `r` taken by its views.
pub open spec fn result_view(r: Result<DecoderConfig, ConfigError>) -> Result<
    DecoderConfigView,
    ConfigErrorView,
> {
    match r {
        Ok(c) => Ok(c@),
        Err(e) => Err(e@),
    }
}

/// The GPT-2 architecture with the given sizes: multi-head attention (as
/// many key/value heads as query heads), layer norm, learned positions, a
/// standard GELU feed-forward block and biases.
pub open spec fn gpt2_config(
    vocab_size: u64,
    hidden_size: u64,
    num_layers: u64,
    num_heads: u64,
    intermediate_size: u64,
    max_positions: u64,
    norm_eps: Seq<char>,
    tie_word_embeddings: bool,
) -> DecoderConfigView {
    DecoderConfigView {
        vocab_size,
        hidden_size,
        num_layers,
        num_attention_heads: num_heads,
        num_kv_heads: num_heads,
        intermediate_size,
        max_position_embeddings: max_positions,
        norm_type: NormType::LayerNorm,
        norm_eps,
        pos_encoding: PosEncodingView::Learned,
        ffn_type: FfnType::Standard,
        activation: Activation::Gelu,
        use_bias: true,
        tie_word_embeddings,
    }
}

/// The config described by `f`, or the first reason to refuse it, in the
/// order in which the members are read. `n_inner` defaults to four times
/// `n_embd` and `tie_word_embeddings` to `true`.
pub open spec fn spec_from_fields(f: ConfigFieldsView) -> Result<
    DecoderConfigView,
    ConfigErrorView,
> {
    match f.model_type {
        None => Err(ConfigErrorView::MissingModelType),
        Some(name) => if name != gpt2_name() {
            Err(ConfigErrorView::UnsupportedModelType(name))
        } else if f.vocab_size is None {
            Err(ConfigErrorView::MissingField(ConfigField::VocabSize))
        } else if f.n_embd is None {
            Err(ConfigErrorView::MissingField(ConfigField::NEmbd))
        } else if f.n_layer is None {
            Err(ConfigErrorView::MissingField(ConfigField::NLayer))
        } else if f.n_head is None {
            Err(ConfigErrorView::MissingField(ConfigField::NHead))
        } else if f.n_inner is None && 4 * f.n_embd->0 > u64::MAX {
            Err(ConfigErrorView::IntermediateSizeOverflow)
        } else if f.n_positions is None {
            Err(ConfigErrorView::MissingField(ConfigField::NPositions))
        } else if f.layer_norm_epsilon is None {
            Err(ConfigErrorView::MissingField(ConfigField::LayerNormEpsilon))
        } else {
            Ok(
                gpt2_config(
                    f.vocab_size->0,
                    f.n_embd->0,
                    f.n_layer->0,
                    f.n_head->0,
                    match f.n_inner {
                        Some(x) => x,
                        None => (4 * f.n_embd->0) as u64,
                    },
                    f.n_positions->0,
                    f.layer_norm_epsilon->0,
                    match f.tie_word_embeddings {
                        Some(b) => b,
                        None => true,
                    },
                ),
            )
        },
    }
}

/// What the config reading takes from the JSON text `text`.
pub open spec fn json_config_fields(text: Seq<char>) -> ConfigFieldsView {
    ConfigFieldsView {
        model_type: lookup(
            json_text_str_members(text),
            seq!['m', 'o', 'd', 'e', 'l', '_', 't', 'y', 'p', 'e'],
        ),
        vocab_size: lookup(
            json_text_u64_members(text),
            seq!['v', 'o', 'c', 'a', 'b', '_', 's', 'i', 'z', 'e'],
        ),
        n_embd: lookup(json_text_u64_members(text), seq!['n', '_', 'e', 'm', 'b', 'd']),
        n_layer: lookup(json_text_u64_members(text), seq!['n', '_', 'l', 'a', 'y', 'e', 'r']),
        n_head: lookup(json_text_u64_members(text), seq!['n', '_', 'h', 'e', 'a', 'd']),
        n_inner: lookup(json_text_u64_members(text), seq!['n', '_', 'i', 'n', 'n', 'e', 'r']),
        n_positions: lookup(
            json_text_u64_members(text),
            seq!['n', '_', 'p', 'o', 's', 'i', 't', 'i', 'o', 'n', 's'],
        ),
        layer_norm_epsilon: lookup(json_text_number_members(text), epsilon_key()),
        tie_word_embeddings: lookup(
            json_text_bool_members(text),
            seq![
                't', 'i', 'e', '_', 'w', 'o', 'r', 'd', '_', 'e', 'm', 'b', 'e', 'd', 'd', 'i',
                'n', 'g', 's',
            ],
        ),
    }
}

/// A config is accepted exactly when it names `gpt2`, has every required
/// member, and `n_inner` is given or four times
/// the hidden size fits; an accepted config has as many key/value heads as
/// attention heads, layer norm, learned positions, a standard GELU
/// feed-forward block and biases, an intermediate size of `n_inner` or else
/// four times the hidden size, and tied word embeddings unless the config
/// unties them.
pub proof fn lemma_gpt2_architecture(f: ConfigFieldsView)
    ensures
        spec_from_fields(f) is Ok <==> {
            &&& f.model_type == Some(gpt2_name())
            &&& f.vocab_size is Some
            &&& f.n_embd is Some
            &&& f.n_layer is Some
            &&& f.n_head is Some
            &&& f.n_positions is Some
            &&& f.layer_norm_epsilon is Some
            &&& match f.n_inner {
                Some(_) => true,
                None => 4 * f.n_embd->0 <= u64::MAX,
            }
        },
        spec_from_fields(f) matches Ok(c) ==> {
            &&& c.vocab_size == f.vocab_size->0
            &&& c.hidden_size == f.n_embd->0
            &&& c.num_layers == f.n_layer->0
            &&& c.num_attention_heads == f.n_head->0
            &&& c.max_position_embeddings == f.n_positions->0
            &&& c.num_kv_heads == c.num_attention_heads
            &&& c.norm_type is LayerNorm
            &&& c.pos_encoding is Learned
            &&& c.ffn_type is Standard
            &&& c.activation is Gelu
            &&& c.use_bias
            &&& c.intermediate_size == (match f.n_inner {
                Some(x) => x as int,
                None => 4 * c.hidden_size,
            })
            &&& c.norm_eps == f.layer_norm_epsilon->0
            &&& c.tie_word_embeddings == (f.tie_word_embeddings != Some(false))
        },
        f.model_type is None ==> spec_from_fields(f) == Err::<DecoderConfigView, _>(
            ConfigErrorView::MissingModelType,
        ),
        f.model_type is Some && f.model_type->0 != gpt2_name() ==> spec_from_fields(f) == Err::<
            DecoderConfigView,
            _,
        >(ConfigErrorView::UnsupportedModelType(f.model_type->0)),
        f.model_type == Some(gpt2_name()) ==> {
            &&& f.vocab_size is None ==> spec_from_fields(f) == Err::<DecoderConfigView, _>(
                ConfigErrorView::MissingField(ConfigField::VocabSize),
            )
            &&& f.vocab_size is Some && f.n_embd is None ==> spec_from_fields(f) == Err::<
                DecoderConfigView,
                _,
            >(ConfigErrorView::MissingField(ConfigField::NEmbd))
            &&& f.vocab_size is Some && f.n_embd is Some && f.n_layer is None ==> spec_from_fields(
                f,
            ) == Err::<DecoderConfigView, _>(ConfigErrorView::MissingField(ConfigField::NLayer))
            &&& f.vocab_size is Some && f.n_embd is Some && f.n_layer is Some && f.n_head is None
                ==> spec_from_fields(f) == Err::<DecoderConfigView, _>(
                ConfigErrorView::MissingField(ConfigField::NHead),
            )
            &&& f.vocab_size is Some && f.n_embd is Some && f.n_layer is Some && f.n_head is Some
                && f.n_inner is None && 4 * f.n_embd->0 > u64::MAX ==> spec_from_fields(f) == Err::<
                DecoderConfigView,
                _,
            >(ConfigErrorView::IntermediateSizeOverflow)
            &&& f.vocab_size is Some && f.n_embd is Some && f.n_layer is Some && f.n_head is Some
                && (f.n_inner is Some || 4 * f.n_embd->0 <= u64::MAX) && f.n_positions is None
                ==> spec_from_fields(f) == Err::<DecoderConfigView, _>(
                ConfigErrorView::MissingField(ConfigField::NPositions),
            )
            &&& f.vocab_size is Some && f.n_embd is Some && f.n_layer is Some && f.n_head is Some
                && (f.n_inner is Some || 4 * f.n_embd->0 <= u64::MAX) && f.n_positions is Some
                && f.layer_norm_epsilon is None ==> spec_from_fields(f) == Err::<
                DecoderConfigView,
                _,
            >(ConfigErrorView::MissingField(ConfigField::LayerNormEpsilon))
        },
{
}

/// The key of the normalisation epsilon.
pub open spec fn epsilon_key() -> Seq<char> {
    seq!['l', 'a', 'y', 'e', 'r', '_', 'n', 'o', 'r', 'm', '_', 'e', 'p', 's', 'i', 'l', 'o', 'n']
}

/// Whether `name` is `gpt2`.
fn is_gpt2(name: &String) -> (r: bool)
    ensures
        r == (name@ == gpt2_name()),
{
    let gpt2 = String::from_str("gpt2");
    proof {
        reveal_strlit("gpt2");
        assert("gpt2"@ =~= gpt2_name());
    }
    *name == gpt2
}

/// A required size member, or the error for its absence.
fn read_size(x: Option<u64>, field: ConfigField) -> (r: Result<u64, ConfigError>)
    ensures
        match r {
            Ok(v) => x == Some(v),
            Err(e) => x is None && e@ == ConfigErrorView::MissingField(field),
        },
{
    match x {
        None => Err(ConfigError::MissingField(field)),
        Some(v) => Ok(v),
    }
}

impl DecoderConfig {
    /// The config described by the members in `fields`, or the first reason
    /// to refuse it (see `spec_from_fields`).
    pub fn from_fields(fields: ConfigFields) -> (r: Result<DecoderConfig, ConfigError>)
        ensures
            result_view(r) == spec_from_fields(fields@),
    {
        let ghost f = fields@;
        let ConfigFields {
            model_type,
            vocab_size,
            n_embd,
            n_layer,
            n_head,
            n_inner,
            n_positions,
            layer_norm_epsilon,
            tie_word_embeddings,
        } = fields;
        let name = match model_type {
            Some(s) => s,
            None => {
                return Err(ConfigError::MissingModelType);
            },
        };
        if !is_gpt2(&name) {
            return Err(ConfigError::UnsupportedModelType(name));
        }
        let vocab = read_size(vocab_size, ConfigField::VocabSize)?;
        let hidden = read_size(n_embd, ConfigField::NEmbd)?;
        let layers = read_size(n_layer, ConfigField::NLayer)?;
        let heads = read_size(n_head, ConfigField::NHead)?;
        let intermediate = match n_inner {
            Some(x) => x,
            None => {
                if hidden > u64::MAX / 4 {
                    return Err(ConfigError::IntermediateSizeOverflow);
                }
                4 * hidden
            },
        };
        let positions = read_size(n_positions, ConfigField::NPositions)?;
        let eps = match layer_norm_epsilon {
            Some(e) => e,
            None => {
                return Err(ConfigError::MissingField(ConfigField::LayerNormEpsilon));
            },
        };
        let tie = match tie_word_embeddings {
            Some(b) => b,
            None => true,
        };
        Ok(
            DecoderConfig {
                vocab_size: vocab,
                hidden_size: hidden,
                num_layers: layers,
                num_attention_heads: heads,
                num_kv_heads: heads,
                intermediate_size: intermediate,
                max_position_embeddings: positions,
                norm_type: NormType::LayerNorm,
                norm_eps: eps,
                pos_encoding: PosEncoding::Learned,
                ffn_type: FfnType::Standard,
                activation: Activation::Gelu,
                use_bias: true,
                tie_word_embeddings: tie,
            },
        )
    }

    /// Reads the architecture from the text of a `config.json`: the JSON is
    /// parsed, the members that `json_config_fields` names are read, and the
    /// result is that of `from_fields` on them.
    pub fn new(json: &str) -> (r: Result<DecoderConfig, ConfigError>)
        ensures
            !json_parses(json@) ==> r matches Err(ConfigError::InvalidJson),
            json_parses(json@) ==> result_view(r) == spec_from_fields(json_config_fields(json@)),
            json_parses(json@) ==> ({
                let ints = json_text_u64_members(json@);
                let strs = json_text_str_members(json@);
                let nums = json_text_number_members(json@);
                let bools = json_text_bool_members(json@);
                &&& r is Ok <==> {
                    &&& lookup(strs, seq!['m', 'o', 'd', 'e', 'l', '_', 't', 'y', 'p', 'e']) == Some(seq!['g', 'p', 't', '2'])
                    &&& ints.dom().contains(seq!['v', 'o', 'c', 'a', 'b', '_', 's', 'i', 'z', 'e'])
                    &&& ints.dom().contains(seq!['n', '_', 'e', 'm', 'b', 'd'])
                    &&& ints.dom().contains(seq!['n', '_', 'l', 'a', 'y', 'e', 'r'])
                    &&& ints.dom().contains(seq!['n', '_', 'h', 'e', 'a', 'd'])
                    &&& ints.dom().contains(seq!['n', '_', 'p', 'o', 's', 'i', 't', 'i', 'o', 'n', 's'])
                    &&& nums.dom().contains(seq!['l', 'a', 'y', 'e', 'r', '_', 'n', 'o', 'r', 'm', '_', 'e', 'p', 's', 'i', 'l', 'o', 'n'])
                    &&& (ints.dom().contains(seq!['n', '_', 'i', 'n', 'n', 'e', 'r']) || 4 * ints[seq!['n', '_', 'e', 'm', 'b', 'd']]
                        <= u64::MAX)
                }
                &&& r matches Ok(c) ==> {
                    &&& c.vocab_size == ints[seq!['v', 'o', 'c', 'a', 'b', '_', 's', 'i', 'z', 'e']]
                    &&& c.hidden_size == ints[seq!['n', '_', 'e', 'm', 'b', 'd']]
                    &&& c.num_layers == ints[seq!['n', '_', 'l', 'a', 'y', 'e', 'r']]
                    &&& c.num_attention_heads == ints[seq!['n', '_', 'h', 'e', 'a', 'd']]
                    &&& c.num_kv_heads == ints[seq!['n', '_', 'h', 'e', 'a', 'd']]
                    &&& c.max_position_embeddings == ints[seq!['n', '_', 'p', 'o', 's', 'i', 't', 'i', 'o', 'n', 's']]
                    &&& c.intermediate_size == (if ints.dom().contains(seq!['n', '_', 'i', 'n', 'n', 'e', 'r']) {
                        ints[seq!['n', '_', 'i', 'n', 'n', 'e', 'r']] as int
                    } else {
                        4 * ints[seq!['n', '_', 'e', 'm', 'b', 'd']]
                    })
                    &&& c.norm_eps@ == nums[seq!['l', 'a', 'y', 'e', 'r', '_', 'n', 'o', 'r', 'm', '_', 'e', 'p', 's', 'i', 'l', 'o', 'n']]
                    &&& c.tie_word_embeddings == (lookup(bools, seq!['t', 'i', 'e', '_', 'w', 'o', 'r', 'd', '_', 'e', 'm', 'b', 'e', 'd', 'd', 'i', 'n', 'g', 's']) != Some(
                        false,
                    ))
                    &&& c.norm_type is LayerNorm
                    &&& c.pos_encoding is Learned
                    &&& c.ffn_type is Standard
                    &&& c.activation is Gelu
                    &&& c.use_bias
                }
            }),
    {
        let v = match parse_json(json) {
            Ok(v) => v,
            Err(_) => {
                return Err(ConfigError::InvalidJson);
            },
        };
        proof {
            reveal_strlit("model_type");
            reveal_strlit("vocab_size");
            reveal_strlit("n_embd");
            reveal_strlit("n_layer");
            reveal_strlit("n_head");
            reveal_strlit("n_inner");
            reveal_strlit("n_positions");
            reveal_strlit("layer_norm_epsilon");
            reveal_strlit("tie_word_embeddings");
            assert("model_type"@ =~= seq!['m', 'o', 'd', 'e', 'l', '_', 't', 'y', 'p', 'e']);
            assert("vocab_size"@ =~= seq!['v', 'o', 'c', 'a', 'b', '_', 's', 'i', 'z', 'e']);
            assert("n_embd"@ =~= seq!['n', '_', 'e', 'm', 'b', 'd']);
            assert("n_layer"@ =~= seq!['n', '_', 'l', 'a', 'y', 'e', 'r']);
            assert("n_head"@ =~= seq!['n', '_', 'h', 'e', 'a', 'd']);
            assert("n_inner"@ =~= seq!['n', '_', 'i', 'n', 'n', 'e', 'r']);
            assert("n_positions"@ =~= seq!['n', '_', 'p', 'o', 's', 'i', 't', 'i', 'o', 'n', 's']);
            assert("layer_norm_epsilon"@ =~= epsilon_key());
            assert("tie_word_embeddings"@ =~= seq![
                't', 'i', 'e', '_', 'w', 'o', 'r', 'd', '_', 'e', 'm', 'b', 'e', 'd', 'd', 'i',
                'n', 'g', 's',
            ]);
        }
        let model_type = match member_str(&v, "model_type") {
            Some(s) => Some(String::from_str(s)),
            None => None,
        };
        let fields = ConfigFields {
            model_type,
            vocab_size: member_u64(&v, "vocab_size"),
            n_embd: member_u64(&v, "n_embd"),
            n_layer: member_u64(&v, "n_layer"),
            n_head: member_u64(&v, "n_head"),
            n_inner: member_u64(&v, "n_inner"),
            n_positions: member_u64(&v, "n_positions"),
            layer_norm_epsilon: member_number_text(&v, "layer_norm_epsilon"),
            tie_word_embeddings: member_bool(&v, "tie_word_embeddings"),
        };
        assert(fields@ == json_config_fields(json@));
        proof {
            lemma_gpt2_architecture(json_config_fields(json@));
        }
        DecoderConfig::from_fields(fields)
    }
}

} // verus!
