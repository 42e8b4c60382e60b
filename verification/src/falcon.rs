//! The Falcon model.
use vstd::prelude::*;
use crate::common::F32Bits;
use crate::gguf::GGUFModelConfig;
use crate::common::{MemoryRequirements, ModelError};
use crate::tensor::{zeros1, zeros2, Device, Tensor};
use crate::weights::{copied, copied_opt, transposed, transposable, is_transpose_error, indexed, indexed_name, load_copy, load_copy_opt, load_transposed, ModelWeights};

verus! {

/// Hyperparameters of the Falcon model.
#[derive(Clone, Debug)]
pub struct FalconConfig {
    pub vocab_size: usize,
    pub hidden_size: usize,
    pub intermediate_size: usize,
    pub num_hidden_layers: usize,
    pub num_attention_heads: usize,
    pub num_key_value_heads: usize,
    pub hidden_act: String,
    pub max_position_embeddings: usize,
    pub initializer_range: F32Bits,
    pub rms_norm_eps: F32Bits,
    pub use_cache: bool,
    pub pad_token_id: i64,
    pub bos_token_id: i64,
    pub eos_token_id: i64,
    pub tie_word_embeddings: bool,
    pub rope_theta: F32Bits,
    pub parallel_attn: bool,
    pub bias: bool,
    pub new_decoder_architecture: bool,
}

impl FalconConfig {
    /// The fields that a GGUF file supplies hold their default values.
    pub open spec fn gguf_fields_default(&self) -> bool {
        &&& self.vocab_size == 65024
        &&& self.hidden_size == 4544
        &&& self.intermediate_size == 18176
        &&& self.num_hidden_layers == 32
        &&& self.num_attention_heads == 71
        &&& self.num_key_value_heads == 1
        &&& self.max_position_embeddings == 2048
        &&& self.rms_norm_eps.bits == 0x3727c5ac
        &&& self.rope_theta.bits == 0x461c4000
    }

    /// The fields that a GGUF file does not supply hold their default values.
    pub open spec fn other_fields_default(&self) -> bool {
        &&& self.hidden_act@ == "gelu"@
        &&& self.initializer_range.bits == 0x3ca3d70a
        &&& self.use_cache == true
        &&& self.pad_token_id == 11
        &&& self.bos_token_id == 11
        &&& self.eos_token_id == 11
        &&& self.tie_word_embeddings == false
        &&& self.parallel_attn == true
        &&& self.bias == false
        &&& self.new_decoder_architecture == false
    }

    /// Every field holds its default value.
    pub open spec fn is_default(&self) -> bool {
        self.gguf_fields_default() && self.other_fields_default()
    }

    /// The configuration described by a GGUF file: the architecture fields it
    /// carries, and the defaults for the rest.
    pub fn from_gguf_config(gguf: &GGUFModelConfig) -> (r: Self)
        ensures
            r.vocab_size == gguf.vocab_size,
            r.hidden_size == gguf.hidden_size,
            r.intermediate_size == gguf.intermediate_size,
            r.num_hidden_layers == gguf.num_hidden_layers,
            r.num_attention_heads == gguf.num_attention_heads,
            r.num_key_value_heads == gguf.num_key_value_heads,
            r.rms_norm_eps == gguf.rms_norm_eps,
            r.rope_theta == gguf.rope_theta,
            r.max_position_embeddings == gguf.max_position_embeddings,
            r.other_fields_default(),
    {
        let d = Self::default();
        Self {
            vocab_size: gguf.vocab_size,
            hidden_size: gguf.hidden_size,
            intermediate_size: gguf.intermediate_size,
            num_hidden_layers: gguf.num_hidden_layers,
            num_attention_heads: gguf.num_attention_heads,
            num_key_value_heads: gguf.num_key_value_heads,
            rms_norm_eps: gguf.rms_norm_eps,
            rope_theta: gguf.rope_theta,
            max_position_embeddings: gguf.max_position_embeddings,
            ..d
        }
    }

    /// Size of the token vocabulary.
    pub fn vocab_size(&self) -> (r: usize)
        ensures
            r == self.vocab_size,
    {
        self.vocab_size
    }

    /// Width of the hidden states.
    pub fn hidden_size(&self) -> (r: usize)
        ensures
            r == self.hidden_size,
    {
        self.hidden_size
    }

    /// Number of transformer (or state-space) layers.
    pub fn num_layers(&self) -> (r: usize)
        ensures
            r == self.num_hidden_layers,
    {
        self.num_hidden_layers
    }
}

impl Default for FalconConfig {
    fn default() -> (r: Self)
        ensures
            r.is_default(),
    {
        Self {
            vocab_size: 65024,
            hidden_size: 4544,
            intermediate_size: 18176,
            num_hidden_layers: 32,
            num_attention_heads: 71,
            num_key_value_heads: 1,
            hidden_act: String::from_str("gelu"),
            max_position_embeddings: 2048,
            initializer_range: F32Bits::from_bits(0x3ca3d70a),
            rms_norm_eps: F32Bits::from_bits(0x3727c5ac),
            use_cache: true,
            pad_token_id: 11,
            bos_token_id: 11,
            eos_token_id: 11,
            tie_word_embeddings: false,
            rope_theta: F32Bits::from_bits(0x461c4000),
            parallel_attn: true,
            bias: false,
            new_decoder_architecture: false,
        }
    }
}

/// The Falcon decoder: word embeddings, the decoder layers `h`, a final norm, and the output head (the embeddings themselves when tied).
pub struct FalconModelV2 {
    pub config: FalconConfig,
    pub device: Device,
    pub word_embeddings: Tensor,
    pub h: Vec<FalconDecoderLayer>,
    pub ln_f: Tensor,
    pub lm_head: Tensor,
}

/// A Falcon decoder layer: attention and MLP; a second norm only in the sequential (non-parallel) arrangement.
pub struct FalconDecoderLayer {
    pub self_attention: FalconAttention,
    pub mlp: FalconMLP,
    pub input_layernorm: Tensor,
    pub post_attention_layernorm: Option<Tensor>,
    pub config: FalconConfig,
}

/// Falcon attention: a packed projection to queries and the (multi-query or grouped) keys and values, and an output projection.
pub struct FalconAttention {
    pub query_key_value: Tensor,
    pub dense: Tensor,
    pub num_heads: usize,
    pub num_key_value_heads: usize,
    pub head_dim: usize,
}

/// Falcon feed-forward block: up to the intermediate width and back.
pub struct FalconMLP {
    pub dense_h_to_4h: Tensor,
    pub dense_4h_to_h: Tensor,
    pub hidden_act: String,
}

impl FalconModelV2 {
    /// The model as built for `config` on `device`: zero embeddings `[vocab_size, hidden_size]`, `num_hidden_layers` decoder layers, the final norm, and a head that describes the embeddings when `tie_word_embeddings` and is a zero `[hidden_size, vocab_size]` matrix otherwise.
    pub closed spec fn built_for(&self, config: FalconConfig, device: Device) -> bool {
        &&& self.word_embeddings.is_f32(seq![config.vocab_size, config.hidden_size], device)
        &&& self.h@.len() == config.num_hidden_layers
        &&& forall|k: int| 0 <= k < self.h@.len() ==> #[trigger] self.h@[k].built_for(config, device)
        &&& self.ln_f.is_f32(seq![config.hidden_size], device)
        &&& (if config.tie_word_embeddings { self.lm_head.same(self.word_embeddings) } else { self.lm_head.is_f32(seq![config.hidden_size, config.vocab_size], device) })
    }

    /// `self` is `old` moved to `device`: every weight placed there and the device recorded.
    pub closed spec fn moved_from(&self, old: Self, device: Device) -> bool {
        &&& self.config == old.config
        &&& self.device == device
        &&& self.word_embeddings.is_placed(old.word_embeddings, device)
        &&& self.h@.len() == old.h@.len()
        &&& forall|k: int| 0 <= k < self.h@.len() ==> #[trigger] self.h@[k].moved_from(old.h@[k], device)
        &&& self.ln_f.is_placed(old.ln_f, device)
        &&& self.lm_head.is_placed(old.lm_head, device)
    }

    /// The configuration the model was built with.
    pub closed spec fn spec_config(&self) -> FalconConfig {
        self.config
    }

    /// The device the model reports.
    pub closed spec fn spec_device(&self) -> Device {
        self.device
    }

    /// Builds the model for `config` on the CPU, with zero weights.
    pub fn new(config: FalconConfig) -> (r: Result<Self, ModelError>)
        requires
            config.num_attention_heads > 0,
            2 * config.num_key_value_heads <= usize::MAX,
            config.num_attention_heads + 2 * config.num_key_value_heads <= usize::MAX,
            (config.num_attention_heads + 2 * config.num_key_value_heads) * (config.hidden_size / config.num_attention_heads) <= usize::MAX,
            config.num_attention_heads * (config.hidden_size / config.num_attention_heads) <= usize::MAX,
        ensures
            r matches Ok(m) && m.spec_config() == config && m.spec_device() == Device::CPU
                && m.built_for(config, Device::CPU),
    {
        let device = Device::CPU;
        let word_embeddings = zeros2(config.vocab_size, config.hidden_size, &device);
        let mut h: Vec<FalconDecoderLayer> = Vec::new();
        let mut n: usize = 0;
        while n < config.num_hidden_layers
            invariant
                n <= config.num_hidden_layers,
                config.num_attention_heads > 0,
                2 * config.num_key_value_heads <= usize::MAX,
                config.num_attention_heads + 2 * config.num_key_value_heads <= usize::MAX,
                (config.num_attention_heads + 2 * config.num_key_value_heads) * (config.hidden_size / config.num_attention_heads) <= usize::MAX,
                config.num_attention_heads * (config.hidden_size / config.num_attention_heads) <= usize::MAX,
                h@.len() == n,
                forall|k: int| 0 <= k < n ==> #[trigger] h@[k].built_for(config, device),
            decreases config.num_hidden_layers - n,
        {
            h.push(FalconDecoderLayer::new(&config, &device));
            n += 1;
        }
        let ln_f = zeros1(config.hidden_size, &device);
        let lm_head = if config.tie_word_embeddings { word_embeddings.duplicate() } else { zeros2(config.hidden_size, config.vocab_size, &device) };
        Ok(FalconModelV2 { config, device, word_embeddings, h, ln_f, lm_head })
    }

    /// The configuration the model was built with.
    pub fn config(&self) -> (r: &FalconConfig)
        ensures
            *r == self.spec_config(),
    {
        &self.config
    }

    /// Moves the model to `device`.
    pub fn to_device(&mut self, device: &Device) -> (r: Result<(), ModelError>)
        ensures
            r is Ok,
            final(self).moved_from(*old(self), *device),
    {
        self.word_embeddings = self.word_embeddings.to_device(device);
        let mut taken_h: Vec<FalconDecoderLayer> = Vec::new();
        std::mem::swap(&mut taken_h, &mut self.h);
        self.h = FalconDecoderLayer::all_to_device(taken_h, device);
        self.ln_f = self.ln_f.to_device(device);
        self.lm_head = self.lm_head.to_device(device);
        self.device = *device;
        Ok(())
    }
}

impl FalconDecoderLayer {
    /// Built for `config`: the attention and the MLP, the input norm, and a post-attention norm exactly when `parallel_attn` is off.
    pub closed spec fn built_for(&self, config: FalconConfig, device: Device) -> bool {
        &&& self.self_attention.built_for(config, device)
        &&& self.mlp.built_for(config, device)
        &&& self.input_layernorm.is_f32(seq![config.hidden_size], device)
        &&& (if !config.parallel_attn { self.post_attention_layernorm matches Some(t) && t.is_f32(seq![config.hidden_size], device) } else { self.post_attention_layernorm is None })
    }

    /// `self` is `old` with its weights placed on `device`.
    pub closed spec fn moved_from(&self, old: Self, device: Device) -> bool {
        &&& self.self_attention.moved_from(old.self_attention, device)
        &&& self.mlp.moved_from(old.mlp, device)
        &&& self.input_layernorm.is_placed(old.input_layernorm, device)
        &&& (match (self.post_attention_layernorm, old.post_attention_layernorm) { (Some(a), Some(b)) => a.is_placed(b, device), (None, None) => true, _ => false })
        &&& self.config == old.config
    }

    fn new(config: &FalconConfig, device: &Device) -> (r: Self)
        requires
            config.num_attention_heads > 0,
            2 * config.num_key_value_heads <= usize::MAX,
            config.num_attention_heads + 2 * config.num_key_value_heads <= usize::MAX,
            (config.num_attention_heads + 2 * config.num_key_value_heads) * (config.hidden_size / config.num_attention_heads) <= usize::MAX,
            config.num_attention_heads * (config.hidden_size / config.num_attention_heads) <= usize::MAX,
        ensures
            r.built_for(*config, *device),
    {
        let self_attention = FalconAttention::new(config, device);
        let mlp = FalconMLP::new(config, device);
        let input_layernorm = zeros1(config.hidden_size, device);
        let post_attention_layernorm = if !config.parallel_attn { Some(zeros1(config.hidden_size, device)) } else { None };
        let config = config.clone();
        FalconDecoderLayer { self_attention, mlp, input_layernorm, post_attention_layernorm, config }
    }

    /// Places the weights on `device`.
    fn to_device(&mut self, device: &Device)
        ensures
            final(self).moved_from(*old(self), *device),
    {
        self.self_attention.to_device(device);
        self.mlp.to_device(device);
        self.input_layernorm = self.input_layernorm.to_device(device);
        let moved_post_attention_layernorm = match &self.post_attention_layernorm { Some(t) => Some(t.to_device(device)), None => None };
        self.post_attention_layernorm = moved_post_attention_layernorm;
    }

    /// The layers, in order, each with its weights placed on `device`.
    fn all_to_device(layers: Vec<FalconDecoderLayer>, device: &Device) -> (r: Vec<FalconDecoderLayer>)
        ensures
            r@.len() == layers@.len(),
            forall|k: int| 0 <= k < r@.len() ==> #[trigger] r@[k].moved_from(layers@[k], *device),
    {
        let mut rest = layers;
        let mut moved: Vec<FalconDecoderLayer> = Vec::new();
        while rest.len() > 0
            invariant
                moved@.len() + rest@.len() == layers@.len(),
                rest@ == layers@.subrange(moved@.len() as int, layers@.len() as int),
                forall|k: int| 0 <= k < moved@.len() ==> #[trigger] moved@[k].moved_from(layers@[k], *device),
            decreases rest@.len(),
        {
            let mut layer = rest.remove(0);
            assert(layer == layers@[moved@.len() as int]);
            layer.to_device(device);
            moved.push(layer);
            assert(rest@ =~= layers@.subrange(moved@.len() as int, layers@.len() as int));
        }
        moved
    }
}

impl FalconAttention {
    /// Built for `config`: with `head_dim = hidden_size / heads`, the packed projection is `[hidden_size, (heads + 2 * kv_heads) * head_dim]` and the output projection `[heads * head_dim, hidden_size]`.
    pub closed spec fn built_for(&self, config: FalconConfig, device: Device) -> bool {
        let head_dim = config.hidden_size / config.num_attention_heads;
        let qkv_size = ((config.num_attention_heads + 2 * config.num_key_value_heads) * head_dim) as usize;
        &&& self.query_key_value.is_f32(seq![config.hidden_size, qkv_size], device)
        &&& self.dense.is_f32(seq![(config.num_attention_heads * head_dim) as usize, config.hidden_size], device)
        &&& self.num_heads == config.num_attention_heads
        &&& self.num_key_value_heads == config.num_key_value_heads
        &&& self.head_dim == head_dim
    }

    /// `self` is `old` with its weights placed on `device`.
    pub closed spec fn moved_from(&self, old: Self, device: Device) -> bool {
        &&& self.query_key_value.is_placed(old.query_key_value, device)
        &&& self.dense.is_placed(old.dense, device)
        &&& self.num_heads == old.num_heads
        &&& self.num_key_value_heads == old.num_key_value_heads
        &&& self.head_dim == old.head_dim
    }

    fn new(config: &FalconConfig, device: &Device) -> (r: Self)
        requires
            config.num_attention_heads > 0,
            2 * config.num_key_value_heads <= usize::MAX,
            config.num_attention_heads + 2 * config.num_key_value_heads <= usize::MAX,
            (config.num_attention_heads + 2 * config.num_key_value_heads) * (config.hidden_size / config.num_attention_heads) <= usize::MAX,
            config.num_attention_heads * (config.hidden_size / config.num_attention_heads) <= usize::MAX,
        ensures
            r.built_for(*config, *device),
    {
        let head_dim = config.hidden_size / config.num_attention_heads;
        let qkv_size = (config.num_attention_heads + 2 * config.num_key_value_heads) * head_dim;
        let query_key_value = zeros2(config.hidden_size, qkv_size, device);
        let dense = zeros2(config.num_attention_heads * head_dim, config.hidden_size, device);
        let num_heads = config.num_attention_heads;
        let num_key_value_heads = config.num_key_value_heads;
        FalconAttention { query_key_value, dense, num_heads, num_key_value_heads, head_dim }
    }

    /// Places the weights on `device`.
    fn to_device(&mut self, device: &Device)
        ensures
            final(self).moved_from(*old(self), *device),
    {
        self.query_key_value = self.query_key_value.to_device(device);
        self.dense = self.dense.to_device(device);
    }
}

impl FalconMLP {
    /// The weights as built for `config` on `device`, all zero.
    pub closed spec fn built_for(&self, config: FalconConfig, device: Device) -> bool {
        &&& self.dense_h_to_4h.is_f32(seq![config.hidden_size, config.intermediate_size], device)
        &&& self.dense_4h_to_h.is_f32(seq![config.intermediate_size, config.hidden_size], device)
        &&& self.hidden_act@ == config.hidden_act@
    }

    /// `self` is `old` with its weights placed on `device`.
    pub closed spec fn moved_from(&self, old: Self, device: Device) -> bool {
        &&& self.dense_h_to_4h.is_placed(old.dense_h_to_4h, device)
        &&& self.dense_4h_to_h.is_placed(old.dense_4h_to_h, device)
        &&& self.hidden_act == old.hidden_act
    }

    fn new(config: &FalconConfig, device: &Device) -> (r: Self)
        ensures
            r.built_for(*config, *device),
    {
        let dense_h_to_4h = zeros2(config.hidden_size, config.intermediate_size, device);
        let dense_4h_to_h = zeros2(config.intermediate_size, config.hidden_size, device);
        let hidden_act = config.hidden_act.clone();
        FalconMLP { dense_h_to_4h, dense_4h_to_h, hidden_act }
    }

    /// Places the weights on `device`.
    fn to_device(&mut self, device: &Device)
        ensures
            final(self).moved_from(*old(self), *device),
    {
        self.dense_h_to_4h = self.dense_h_to_4h.to_device(device);
        self.dense_4h_to_h = self.dense_4h_to_h.to_device(device);
    }
}
/// Parameter count of the estimate: embeddings, and per layer the packed attention projection, the output projection and the two MLP matrices.
pub open spec fn falcon_param_count(c: FalconConfig) -> int {
    c.vocab_size * c.hidden_size + c.num_hidden_layers * (c.hidden_size * (c.num_attention_heads + 2 * c.num_key_value_heads) * (c.hidden_size / c.num_attention_heads) + c.hidden_size * c.hidden_size + 2 * c.hidden_size * c.intermediate_size)
}

/// Parameter bytes: four per parameter.
pub open spec fn falcon_param_bytes(c: FalconConfig) -> int {
    falcon_param_count(c) * 4
}

/// Bytes of the key and value caches at full context: keys and values per key-value head.
pub open spec fn falcon_kv_cache_bytes(c: FalconConfig) -> int {
    2 * c.num_hidden_layers * c.max_position_embeddings * c.num_key_value_heads * (c.hidden_size / c.num_attention_heads) * 4
}

/// No step of the memory estimate for `FalconConfig` leaves the range of `usize`
/// or divides by zero.
pub open spec fn falcon_memory_fits(c: FalconConfig) -> bool {
    &&& c.vocab_size * c.hidden_size <= usize::MAX
    &&& 2 * c.num_key_value_heads <= usize::MAX
    &&& c.num_attention_heads + 2 * c.num_key_value_heads <= usize::MAX
    &&& c.hidden_size * (c.num_attention_heads + 2 * c.num_key_value_heads) <= usize::MAX
    &&& c.num_attention_heads > 0
    &&& c.hidden_size * (c.num_attention_heads + 2 * c.num_key_value_heads) * (c.hidden_size / c.num_attention_heads) <= usize::MAX
    &&& c.hidden_size * c.hidden_size <= usize::MAX
    &&& c.hidden_size * (c.num_attention_heads + 2 * c.num_key_value_heads) * (c.hidden_size / c.num_attention_heads) + c.hidden_size * c.hidden_size <= usize::MAX
    &&& 2 * c.hidden_size <= usize::MAX
    &&& 2 * c.hidden_size * c.intermediate_size <= usize::MAX
    &&& c.hidden_size * (c.num_attention_heads + 2 * c.num_key_value_heads) * (c.hidden_size / c.num_attention_heads) + c.hidden_size * c.hidden_size + 2 * c.hidden_size * c.intermediate_size <= usize::MAX
    &&& c.num_hidden_layers * (c.hidden_size * (c.num_attention_heads + 2 * c.num_key_value_heads) * (c.hidden_size / c.num_attention_heads) + c.hidden_size * c.hidden_size + 2 * c.hidden_size * c.intermediate_size) <= usize::MAX
    &&& c.vocab_size * c.hidden_size + c.num_hidden_layers * (c.hidden_size * (c.num_attention_heads + 2 * c.num_key_value_heads) * (c.hidden_size / c.num_attention_heads) + c.hidden_size * c.hidden_size + 2 * c.hidden_size * c.intermediate_size) <= usize::MAX
    &&& (c.vocab_size * c.hidden_size + c.num_hidden_layers * (c.hidden_size * (c.num_attention_heads + 2 * c.num_key_value_heads) * (c.hidden_size / c.num_attention_heads) + c.hidden_size * c.hidden_size + 2 * c.hidden_size * c.intermediate_size)) * 4 <= usize::MAX
    &&& 2 * c.num_hidden_layers <= usize::MAX
    &&& 2 * c.num_hidden_layers * c.max_position_embeddings <= usize::MAX
    &&& 2 * c.num_hidden_layers * c.max_position_embeddings * c.num_key_value_heads <= usize::MAX
    &&& 2 * c.num_hidden_layers * c.max_position_embeddings * c.num_key_value_heads * (c.hidden_size / c.num_attention_heads) <= usize::MAX
    &&& 2 * c.num_hidden_layers * c.max_position_embeddings * c.num_key_value_heads * (c.hidden_size / c.num_attention_heads) * 4 <= usize::MAX
    &&& (c.vocab_size * c.hidden_size + c.num_hidden_layers * (c.hidden_size * (c.num_attention_heads + 2 * c.num_key_value_heads) * (c.hidden_size / c.num_attention_heads) + c.hidden_size * c.hidden_size + 2 * c.hidden_size * c.intermediate_size)) * 4 + 2 * c.num_hidden_layers * c.max_position_embeddings * c.num_key_value_heads * (c.hidden_size / c.num_attention_heads) * 4 <= usize::MAX
}

impl FalconModelV2 {
    /// Estimated memory: the parameter bytes on the GPU, a quarter of them on the CPU, the full key-value cache, and parameters plus cache at peak.
    pub fn memory_requirements(&self) -> (r: MemoryRequirements)
        requires
            falcon_memory_fits(self.spec_config()),
        ensures
            r.gpu_memory == falcon_param_bytes(self.spec_config()),
            r.cpu_memory == falcon_param_bytes(self.spec_config()) / 4,
            r.kv_cache_memory == falcon_kv_cache_bytes(self.spec_config()),
            r.peak_memory == falcon_param_bytes(self.spec_config()) + falcon_kv_cache_bytes(self.spec_config()),
    {
        let c = &self.config;
        let param_count = c.vocab_size * c.hidden_size + c.num_hidden_layers * (c.hidden_size * (c.num_attention_heads + 2 * c.num_key_value_heads) * (c.hidden_size / c.num_attention_heads) + c.hidden_size * c.hidden_size + 2 * c.hidden_size * c.intermediate_size);
        let param_bytes = param_count * 4;
        let kv_cache_bytes = 2 * c.num_hidden_layers * c.max_position_embeddings * c.num_key_value_heads * (c.hidden_size / c.num_attention_heads) * 4;
        MemoryRequirements {
            gpu_memory: param_bytes,
            cpu_memory: param_bytes / 4,
            kv_cache_memory: kv_cache_bytes,
            peak_memory: param_bytes + kv_cache_bytes,
        }
    }
}

impl FalconModelV2 {
    /// `self` is `old` after loading from `weights`: each weight whose
    /// checkpoint name `weights` holds takes that tensor's shape, element
    /// type, device and elements (as is, or transposed for a matrix product),
    /// and nothing else changes.
    pub closed spec fn loaded(&self, old: Self, weights: ModelWeights) -> bool {
        &&& self.config == old.config
        &&& self.device == old.device
        &&& copied(self.word_embeddings, old.word_embeddings, weights.lookup("transformer.word_embeddings.weight"@))
        &&& self.h@.len() == old.h@.len()
        &&& forall|k: int| 0 <= k < old.h@.len() ==> #[trigger] self.h@[k].loaded(old.h@[k], weights, k)
        &&& copied(self.ln_f, old.ln_f, weights.lookup("transformer.ln_f.weight"@))
        &&& transposed(self.lm_head, old.lm_head, weights.lookup("lm_head.weight"@))
    }

    /// Every tensor that loading from `weights` would transpose has at least
    /// two dimensions.
    pub closed spec fn loadable(&self, weights: ModelWeights) -> bool {
        &&& transposable(weights.lookup("lm_head.weight"@))
        &&& forall|k: int| 0 <= k < self.h@.len() ==> #[trigger] self.h@[k].loadable(weights, k)
    }

    /// Loads the weights of `weights` that this part names.
    fn load_weights(&mut self, weights: &ModelWeights) -> (r: Result<(), ModelError>)
        ensures
            r is Ok <==> old(self).loadable(*weights),
            r is Ok ==> final(self).loaded(*old(self), *weights),
            r matches Err(e) ==> is_transpose_error(e),
    {
        load_copy(&mut self.word_embeddings, weights, "transformer.word_embeddings.weight");
        load_copy(&mut self.ln_f, weights, "transformer.ln_f.weight");
        load_transposed(&mut self.lm_head, weights, "lm_head.weight")?;
        let mut taken_h: Vec<FalconDecoderLayer> = Vec::new();
        std::mem::swap(&mut taken_h, &mut self.h);
        self.h = Self::load_h(taken_h, weights)?;
        Ok(())
    }

    /// Loads each of `items`, in order, from `weights`.
    fn load_h(items: Vec<FalconDecoderLayer>, weights: &ModelWeights) -> (r: Result<Vec<FalconDecoderLayer>, ModelError>)
        ensures
            r is Ok <==> forall|k: int| 0 <= k < items@.len() ==> #[trigger] items@[k].loadable(*weights, k),
            r matches Ok(v) ==> v@.len() == items@.len() && forall|k: int| 0 <= k < items@.len() ==> #[trigger] v@[k].loaded(items@[k], *weights, k),
            r matches Err(e) ==> is_transpose_error(e),
    {
        let mut rest = items;
        let mut done: Vec<FalconDecoderLayer> = Vec::new();
        while rest.len() > 0
            invariant
                done@.len() + rest@.len() == items@.len(),
                rest@ == items@.subrange(done@.len() as int, items@.len() as int),
                forall|k: int| 0 <= k < done@.len() ==> #[trigger] done@[k].loaded(items@[k], *weights, k),
                forall|k: int| 0 <= k < done@.len() ==> #[trigger] items@[k].loadable(*weights, k),
            decreases rest@.len(),
        {
            let n = done.len();
            let mut item = rest.remove(0);
            assert(item == items@[n as int]);
            match item.load_weights(weights, n) {
                Ok(()) => {},
                Err(e) => {
                    assert(!items@[n as int].loadable(*weights, n as int));
                    return Err(e);
                },
            }
            done.push(item);
            assert(rest@ =~= items@.subrange(done@.len() as int, items@.len() as int));
        }
        Ok(done)
    }
}

impl FalconDecoderLayer {
    /// `self` is `old` after loading from `weights`: each weight whose
    /// checkpoint name `weights` holds takes that tensor's shape, element
    /// type, device and elements (as is, or transposed for a matrix product),
    /// and nothing else changes.
    pub closed spec fn loaded(&self, old: Self, weights: ModelWeights, idx: int) -> bool {
        &&& self.self_attention.loaded(old.self_attention, weights, idx)
        &&& self.mlp.loaded(old.mlp, weights, idx)
        &&& copied(self.input_layernorm, old.input_layernorm, weights.lookup(indexed("transformer.h."@, idx, ".input_layernorm.weight"@)))
        &&& copied_opt(self.post_attention_layernorm, old.post_attention_layernorm, weights.lookup(indexed("transformer.h."@, idx, ".post_attention_layernorm.weight"@)))
        &&& self.config == old.config
    }

    /// Every tensor that loading from `weights` would transpose has at least
    /// two dimensions.
    pub closed spec fn loadable(&self, weights: ModelWeights, idx: int) -> bool {
        &&& self.self_attention.loadable(weights, idx)
        &&& self.mlp.loadable(weights, idx)
    }

    /// Loads the weights of `weights` that this part names.
    fn load_weights(&mut self, weights: &ModelWeights, layer_idx: usize) -> (r: Result<(), ModelError>)
        ensures
            r is Ok <==> old(self).loadable(*weights, layer_idx as int),
            r is Ok ==> final(self).loaded(*old(self), *weights, layer_idx as int),
            r matches Err(e) ==> is_transpose_error(e),
    {
        load_copy(&mut self.input_layernorm, weights, indexed_name("transformer.h.", layer_idx, ".input_layernorm.weight").as_str());
        load_copy_opt(&mut self.post_attention_layernorm, weights, indexed_name("transformer.h.", layer_idx, ".post_attention_layernorm.weight").as_str());
        self.self_attention.load_weights(weights, layer_idx)?;
        self.mlp.load_weights(weights, layer_idx)?;
        Ok(())
    }
}

impl FalconAttention {
    /// `self` is `old` after loading from `weights`: each weight whose
    /// checkpoint name `weights` holds takes that tensor's shape, element
    /// type, device and elements (as is, or transposed for a matrix product),
    /// and nothing else changes.
    pub closed spec fn loaded(&self, old: Self, weights: ModelWeights, idx: int) -> bool {
        &&& transposed(self.query_key_value, old.query_key_value, weights.lookup(indexed("transformer.h."@, idx, ".self_attention.query_key_value.weight"@)))
        &&& transposed(self.dense, old.dense, weights.lookup(indexed("transformer.h."@, idx, ".self_attention.dense.weight"@)))
        &&& self.num_heads == old.num_heads
        &&& self.num_key_value_heads == old.num_key_value_heads
        &&& self.head_dim == old.head_dim
    }

    /// Every tensor that loading from `weights` would transpose has at least
    /// two dimensions.
    pub closed spec fn loadable(&self, weights: ModelWeights, idx: int) -> bool {
        &&& transposable(weights.lookup(indexed("transformer.h."@, idx, ".self_attention.query_key_value.weight"@)))
        &&& transposable(weights.lookup(indexed("transformer.h."@, idx, ".self_attention.dense.weight"@)))
    }

    /// Loads the weights of `weights` that this part names.
    fn load_weights(&mut self, weights: &ModelWeights, layer_idx: usize) -> (r: Result<(), ModelError>)
        ensures
            r is Ok <==> old(self).loadable(*weights, layer_idx as int),
            r is Ok ==> final(self).loaded(*old(self), *weights, layer_idx as int),
            r matches Err(e) ==> is_transpose_error(e),
    {
        load_transposed(&mut self.query_key_value, weights, indexed_name("transformer.h.", layer_idx, ".self_attention.query_key_value.weight").as_str())?;
        load_transposed(&mut self.dense, weights, indexed_name("transformer.h.", layer_idx, ".self_attention.dense.weight").as_str())?;
        Ok(())
    }
}

impl FalconMLP {
    /// `self` is `old` after loading from `weights`: each weight whose
    /// checkpoint name `weights` holds takes that tensor's shape, element
    /// type, device and elements (as is, or transposed for a matrix product),
    /// and nothing else changes.
    pub closed spec fn loaded(&self, old: Self, weights: ModelWeights, idx: int) -> bool {
        &&& transposed(self.dense_h_to_4h, old.dense_h_to_4h, weights.lookup(indexed("transformer.h."@, idx, ".mlp.dense_h_to_4h.weight"@)))
        &&& transposed(self.dense_4h_to_h, old.dense_4h_to_h, weights.lookup(indexed("transformer.h."@, idx, ".mlp.dense_4h_to_h.weight"@)))
        &&& self.hidden_act == old.hidden_act
    }

    /// Every tensor that loading from `weights` would transpose has at least
    /// two dimensions.
    pub closed spec fn loadable(&self, weights: ModelWeights, idx: int) -> bool {
        &&& transposable(weights.lookup(indexed("transformer.h."@, idx, ".mlp.dense_h_to_4h.weight"@)))
        &&& transposable(weights.lookup(indexed("transformer.h."@, idx, ".mlp.dense_4h_to_h.weight"@)))
    }

    /// Loads the weights of `weights` that this part names.
    fn load_weights(&mut self, weights: &ModelWeights, layer_idx: usize) -> (r: Result<(), ModelError>)
        ensures
            r is Ok <==> old(self).loadable(*weights, layer_idx as int),
            r is Ok ==> final(self).loaded(*old(self), *weights, layer_idx as int),
            r matches Err(e) ==> is_transpose_error(e),
    {
        load_transposed(&mut self.dense_h_to_4h, weights, indexed_name("transformer.h.", layer_idx, ".mlp.dense_h_to_4h.weight").as_str())?;
        load_transposed(&mut self.dense_4h_to_h, weights, indexed_name("transformer.h.", layer_idx, ".mlp.dense_4h_to_h.weight").as_str())?;
        Ok(())
    }
}


impl FalconModelV2 {
    /// Builds the model for `config` as `new` does and loads the weights that
    /// `weights` holds under their checkpoint names: the result is the built
    /// model with those weights taken, and an error exactly when a tensor that
    /// must be transposed has fewer than two dimensions.
    pub fn from_weights(config: FalconConfig, weights: ModelWeights) -> (r: Result<Self, ModelError>)
        requires
            config.num_attention_heads > 0,
            2 * config.num_key_value_heads <= usize::MAX,
            config.num_attention_heads + 2 * config.num_key_value_heads <= usize::MAX,
            (config.num_attention_heads + 2 * config.num_key_value_heads) * (config.hidden_size / config.num_attention_heads) <= usize::MAX,
            config.num_attention_heads * (config.hidden_size / config.num_attention_heads) <= usize::MAX,
        ensures
            exists|built: Self| #[trigger] built.built_for(config, Device::CPU) && built.spec_config() == config
                && built.spec_device() == Device::CPU && (r is Ok <==> built.loadable(weights))
                && (r matches Ok(m) ==> m.spec_config() == config && m.spec_device() == Device::CPU && m.loaded(built, weights))
                && (r matches Err(e) ==> is_transpose_error(e)),
    {
        let mut model = match Self::new(config) {
            Ok(m) => m,
            Err(e) => {
                return Err(e);
            },
        };
        let ghost built = model;
        match model.load_weights(&weights) {
            Ok(()) => {
                assert(built.built_for(config, Device::CPU));
                Ok(model)
            },
            Err(e) => {
                assert(built.built_for(config, Device::CPU));
                Err(e)
            },
        }
    }
}

impl FalconModelV2 {
    /// Moving to `d1` and then to `d2` leaves the model as a single move to
    /// `d2` would: the second move overrides the first.
    pub proof fn lemma_moves_compose(first: Self, second: Self, third: Self, d1: Device, d2: Device)
        requires
            second.moved_from(first, d1),
            third.moved_from(second, d2),
        ensures
            third.moved_from(first, d2),
    {
        assert forall|k: int| 0 <= k < third.h@.len() implies #[trigger] third.h@[k].moved_from(first.h@[k], d2) by {
            FalconDecoderLayer::lemma_moves_compose(first.h@[k], second.h@[k], third.h@[k], d1, d2);
        }
    }
}

impl FalconDecoderLayer {
    /// A move to `d1` followed by a move to `d2` is a move to `d2`.
    proof fn lemma_moves_compose(first: Self, second: Self, third: Self, d1: Device, d2: Device)
        requires
            second.moved_from(first, d1),
            third.moved_from(second, d2),
        ensures
            third.moved_from(first, d2),
    {
        FalconAttention::lemma_moves_compose(first.self_attention, second.self_attention, third.self_attention, d1, d2);
        FalconMLP::lemma_moves_compose(first.mlp, second.mlp, third.mlp, d1, d2);
    }
}

impl FalconAttention {
    /// A move to `d1` followed by a move to `d2` is a move to `d2`.
    proof fn lemma_moves_compose(first: Self, second: Self, third: Self, d1: Device, d2: Device)
        requires
            second.moved_from(first, d1),
            third.moved_from(second, d2),
        ensures
            third.moved_from(first, d2),
    {
    }
}

impl FalconMLP {
    /// A move to `d1` followed by a move to `d2` is a move to `d2`.
    proof fn lemma_moves_compose(first: Self, second: Self, third: Self, d1: Device, d2: Device)
        requires
            second.moved_from(first, d1),
            third.moved_from(second, d2),
        ensures
            third.moved_from(first, d2),
    {
    }
}

} // verus!

verus! {

impl FalconConfig {
    /// The default configuration has these sizes: the clauses below.
    pub proof fn lemma_default_sizes(&self)
        requires
            self.gguf_fields_default(),
        ensures
            self.vocab_size == 65024,
            self.hidden_size == 4544,
            self.intermediate_size == 18176,
            self.num_hidden_layers == 32,
            self.num_attention_heads == 71,
            self.num_key_value_heads == 1,
            self.max_position_embeddings == 2048,
            self.rms_norm_eps.bits == 0x3727c5ac,
            self.rope_theta.bits == 0x461c4000,
    {
    }

    /// The default configuration has these remaining settings: the clauses below.
    pub proof fn lemma_default_settings(&self)
        requires
            self.other_fields_default(),
        ensures
            self.hidden_act@ == "gelu"@,
            self.initializer_range.bits == 0x3ca3d70a,
            self.use_cache == true,
            self.pad_token_id == 11,
            self.bos_token_id == 11,
            self.eos_token_id == 11,
            self.tie_word_embeddings == false,
            self.parallel_attn == true,
            self.bias == false,
            self.new_decoder_architecture == false,
    {
    }

    /// The default configuration is the one with the default sizes and settings: the clauses below.
    pub proof fn lemma_default_parts(&self)
        requires
            self.is_default(),
        ensures
            ({
            self.gguf_fields_default() && self.other_fields_default()
        }),
    {
    }
}

impl FalconModelV2 {
    /// Built for `config` on `device`, each weight is the zero tensor of the shape the configuration gives, on `device`, and each recorded size is the configured one: the clauses below.
    pub proof fn lemma_built_weights(&self, config: FalconConfig, device: Device)
        requires
            self.built_for(config, device),
        ensures
            self.word_embeddings.is_f32(seq![config.vocab_size, config.hidden_size], device),
            self.h@.len() == config.num_hidden_layers,
            forall|k: int| 0 <= k < self.h@.len() ==> #[trigger] self.h@[k].built_for(config, device),
            self.ln_f.is_f32(seq![config.hidden_size], device),
            (if config.tie_word_embeddings { self.lm_head.same(self.word_embeddings) } else { self.lm_head.is_f32(seq![config.hidden_size, config.vocab_size], device) }),
    {
    }

    /// After a move to `device`, every weight lies on `device` with its shape, element type and elements kept, and nothing else changes: the clauses below.
    pub proof fn lemma_moved_weights(&self, before: Self, device: Device)
        requires
            self.moved_from(before, device),
        ensures
            self.config == before.config,
            self.device == device,
            self.word_embeddings.is_placed(before.word_embeddings, device),
            self.h@.len() == before.h@.len(),
            forall|k: int| 0 <= k < self.h@.len() ==> #[trigger] self.h@[k].moved_from(before.h@[k], device),
            self.ln_f.is_placed(before.ln_f, device),
            self.lm_head.is_placed(before.lm_head, device),
    {
    }

    /// After loading from `weights`, each weight holds the tensor stored under its checkpoint name, copied or transposed, and keeps its previous value when the name is absent; nothing else changes: the clauses below.
    pub proof fn lemma_loaded_weights(&self, before: Self, weights: ModelWeights)
        requires
            self.loaded(before, weights),
        ensures
            self.config == before.config,
            self.device == before.device,
            copied(self.word_embeddings, before.word_embeddings, weights.lookup("transformer.word_embeddings.weight"@)),
            self.h@.len() == before.h@.len(),
            forall|k: int| 0 <= k < before.h@.len() ==> #[trigger] self.h@[k].loaded(before.h@[k], weights, k),
            copied(self.ln_f, before.ln_f, weights.lookup("transformer.ln_f.weight"@)),
            transposed(self.lm_head, before.lm_head, weights.lookup("lm_head.weight"@)),
    {
    }

    /// Loading from `weights` succeeds only when every tensor it must transpose, found under these checkpoint names, has at least two dimensions: the clauses below.
    pub proof fn lemma_loadable_names(&self, weights: ModelWeights)
        requires
            self.loadable(weights),
        ensures
            transposable(weights.lookup("lm_head.weight"@)),
            forall|k: int| 0 <= k < self.h@.len() ==> #[trigger] self.h@[k].loadable(weights, k),
    {
    }
}

impl FalconDecoderLayer {
    /// Built for `config` on `device`, each weight is the zero tensor of the shape the configuration gives, on `device`, and each recorded size is the configured one: the clauses below.
    pub proof fn lemma_built_weights(&self, config: FalconConfig, device: Device)
        requires
            self.built_for(config, device),
        ensures
            self.self_attention.built_for(config, device),
            self.mlp.built_for(config, device),
            self.input_layernorm.is_f32(seq![config.hidden_size], device),
            (if !config.parallel_attn { self.post_attention_layernorm matches Some(t) && t.is_f32(seq![config.hidden_size], device) } else { self.post_attention_layernorm is None }),
    {
    }

    /// After a move to `device`, every weight lies on `device` with its shape, element type and elements kept, and nothing else changes: the clauses below.
    pub proof fn lemma_moved_weights(&self, before: Self, device: Device)
        requires
            self.moved_from(before, device),
        ensures
            self.self_attention.moved_from(before.self_attention, device),
            self.mlp.moved_from(before.mlp, device),
            self.input_layernorm.is_placed(before.input_layernorm, device),
            (match (self.post_attention_layernorm, before.post_attention_layernorm) { (Some(a), Some(b)) => a.is_placed(b, device), (None, None) => true, _ => false }),
            self.config == before.config,
    {
    }

    /// After loading from `weights`, each weight holds the tensor stored under its checkpoint name, copied or transposed, and keeps its previous value when the name is absent; nothing else changes: the clauses below.
    pub proof fn lemma_loaded_weights(&self, before: Self, weights: ModelWeights, idx: int)
        requires
            self.loaded(before, weights, idx),
        ensures
            self.self_attention.loaded(before.self_attention, weights, idx),
            self.mlp.loaded(before.mlp, weights, idx),
            copied(self.input_layernorm, before.input_layernorm, weights.lookup(indexed("transformer.h."@, idx, ".input_layernorm.weight"@))),
            copied_opt(self.post_attention_layernorm, before.post_attention_layernorm, weights.lookup(indexed("transformer.h."@, idx, ".post_attention_layernorm.weight"@))),
            self.config == before.config,
    {
    }

    /// Loading from `weights` succeeds only when every tensor it must transpose, found under these checkpoint names, has at least two dimensions: the clauses below.
    pub proof fn lemma_loadable_names(&self, weights: ModelWeights, idx: int)
        requires
            self.loadable(weights, idx),
        ensures
            self.self_attention.loadable(weights, idx),
            self.mlp.loadable(weights, idx),
    {
    }
}

impl FalconAttention {
    /// Built for `config` on `device`, each weight is the zero tensor of the shape the configuration gives, on `device`, and each recorded size is the configured one: the clauses below.
    pub proof fn lemma_built_weights(&self, config: FalconConfig, device: Device)
        requires
            self.built_for(config, device),
        ensures
            ({
            let head_dim = config.hidden_size / config.num_attention_heads;
            let qkv_size = ((config.num_attention_heads + 2 * config.num_key_value_heads) * head_dim) as usize;
            &&& self.query_key_value.is_f32(seq![config.hidden_size, qkv_size], device)
            &&& self.dense.is_f32(seq![(config.num_attention_heads * head_dim) as usize, config.hidden_size], device)
            &&& self.num_heads == config.num_attention_heads
            &&& self.num_key_value_heads == config.num_key_value_heads
            &&& self.head_dim == head_dim
        }),
    {
    }

    /// After a move to `device`, every weight lies on `device` with its shape, element type and elements kept, and nothing else changes: the clauses below.
    pub proof fn lemma_moved_weights(&self, before: Self, device: Device)
        requires
            self.moved_from(before, device),
        ensures
            self.query_key_value.is_placed(before.query_key_value, device),
            self.dense.is_placed(before.dense, device),
            self.num_heads == before.num_heads,
            self.num_key_value_heads == before.num_key_value_heads,
            self.head_dim == before.head_dim,
    {
    }

    /// After loading from `weights`, each weight holds the tensor stored under its checkpoint name, copied or transposed, and keeps its previous value when the name is absent; nothing else changes: the clauses below.
    pub proof fn lemma_loaded_weights(&self, before: Self, weights: ModelWeights, idx: int)
        requires
            self.loaded(before, weights, idx),
        ensures
            transposed(self.query_key_value, before.query_key_value, weights.lookup(indexed("transformer.h."@, idx, ".self_attention.query_key_value.weight"@))),
            transposed(self.dense, before.dense, weights.lookup(indexed("transformer.h."@, idx, ".self_attention.dense.weight"@))),
            self.num_heads == before.num_heads,
            self.num_key_value_heads == before.num_key_value_heads,
            self.head_dim == before.head_dim,
    {
    }

    /// Loading from `weights` succeeds only when every tensor it must transpose, found under these checkpoint names, has at least two dimensions: the clauses below.
    pub proof fn lemma_loadable_names(&self, weights: ModelWeights, idx: int)
        requires
            self.loadable(weights, idx),
        ensures
            transposable(weights.lookup(indexed("transformer.h."@, idx, ".self_attention.query_key_value.weight"@))),
            transposable(weights.lookup(indexed("transformer.h."@, idx, ".self_attention.dense.weight"@))),
    {
    }
}

impl FalconMLP {
    /// Built for `config` on `device`, each weight is the zero tensor of the shape the configuration gives, on `device`, and each recorded size is the configured one: the clauses below.
    pub proof fn lemma_built_weights(&self, config: FalconConfig, device: Device)
        requires
            self.built_for(config, device),
        ensures
            self.dense_h_to_4h.is_f32(seq![config.hidden_size, config.intermediate_size], device),
            self.dense_4h_to_h.is_f32(seq![config.intermediate_size, config.hidden_size], device),
            self.hidden_act@ == config.hidden_act@,
    {
    }

    /// After a move to `device`, every weight lies on `device` with its shape, element type and elements kept, and nothing else changes: the clauses below.
    pub proof fn lemma_moved_weights(&self, before: Self, device: Device)
        requires
            self.moved_from(before, device),
        ensures
            self.dense_h_to_4h.is_placed(before.dense_h_to_4h, device),
            self.dense_4h_to_h.is_placed(before.dense_4h_to_h, device),
            self.hidden_act == before.hidden_act,
    {
    }

    /// After loading from `weights`, each weight holds the tensor stored under its checkpoint name, copied or transposed, and keeps its previous value when the name is absent; nothing else changes: the clauses below.
    pub proof fn lemma_loaded_weights(&self, before: Self, weights: ModelWeights, idx: int)
        requires
            self.loaded(before, weights, idx),
        ensures
            transposed(self.dense_h_to_4h, before.dense_h_to_4h, weights.lookup(indexed("transformer.h."@, idx, ".mlp.dense_h_to_4h.weight"@))),
            transposed(self.dense_4h_to_h, before.dense_4h_to_h, weights.lookup(indexed("transformer.h."@, idx, ".mlp.dense_4h_to_h.weight"@))),
            self.hidden_act == before.hidden_act,
    {
    }

    /// Loading from `weights` succeeds only when every tensor it must transpose, found under these checkpoint names, has at least two dimensions: the clauses below.
    pub proof fn lemma_loadable_names(&self, weights: ModelWeights, idx: int)
        requires
            self.loadable(weights, idx),
        ensures
            transposable(weights.lookup(indexed("transformer.h."@, idx, ".mlp.dense_h_to_4h.weight"@))),
            transposable(weights.lookup(indexed("transformer.h."@, idx, ".mlp.dense_4h_to_h.weight"@))),
    {
    }
}

/// `falcon_param_count` is, for every configuration, the formula below.
pub proof fn lemma_falcon_param_count_formula(c: FalconConfig)
    ensures
        falcon_param_count(c) == (c.vocab_size * c.hidden_size + c.num_hidden_layers * (c.hidden_size * (c.num_attention_heads + 2 * c.num_key_value_heads) * (c.hidden_size / c.num_attention_heads) + c.hidden_size * c.hidden_size + 2 * c.hidden_size * c.intermediate_size)),
{
}

/// `falcon_param_bytes` is, for every configuration, the formula below.
pub proof fn lemma_falcon_param_bytes_formula(c: FalconConfig)
    ensures
        falcon_param_bytes(c) == (falcon_param_count(c) * 4),
{
}

/// `falcon_kv_cache_bytes` is, for every configuration, the formula below.
pub proof fn lemma_falcon_kv_cache_bytes_formula(c: FalconConfig)
    ensures
        falcon_kv_cache_bytes(c) == (2 * c.num_hidden_layers * c.max_position_embeddings * c.num_key_value_heads * (c.hidden_size / c.num_attention_heads) * 4),
{
}

} // verus!
