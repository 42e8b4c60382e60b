//! The GPT-NeoX model.
use vstd::prelude::*;
use crate::common::F32Bits;
use crate::gguf::GGUFModelConfig;
use crate::common::{MemoryRequirements, ModelError};
use crate::tensor::{zeros1, zeros2, Device, Tensor};
use crate::weights::{copied, transposed, transposable, is_transpose_error, indexed, indexed_name, load_copy, load_transposed, ModelWeights};

verus! {

/// Hyperparameters of the GPT-NeoX model.
#[derive(Clone, Debug)]
pub struct GPTNeoXConfig {
    pub vocab_size: usize,
    pub hidden_size: usize,
    pub intermediate_size: usize,
    pub num_hidden_layers: usize,
    pub num_attention_heads: usize,
    pub num_key_value_heads: usize,
    pub hidden_act: String,
    pub max_position_embeddings: usize,
    pub initializer_range: F32Bits,
    pub layer_norm_eps: F32Bits,
    pub use_cache: bool,
    pub pad_token_id: i64,
    pub bos_token_id: i64,
    pub eos_token_id: i64,
    pub tie_word_embeddings: bool,
    pub rope_theta: F32Bits,
    pub rotary_pct: F32Bits,
    pub use_parallel_residual: bool,
}

impl GPTNeoXConfig {
    /// The fields that a GGUF file supplies hold their default values.
    pub open spec fn gguf_fields_default(&self) -> bool {
        &&& self.vocab_size == 50432
        &&& self.hidden_size == 6144
        &&& self.intermediate_size == 24576
        &&& self.num_hidden_layers == 44
        &&& self.num_attention_heads == 64
        &&& self.num_key_value_heads == 64
        &&& self.max_position_embeddings == 2048
        &&& self.rope_theta.bits == 0x461c4000
    }

    /// The fields that a GGUF file does not supply hold their default values.
    pub open spec fn other_fields_default(&self) -> bool {
        &&& self.hidden_act@ == "gelu"@
        &&& self.initializer_range.bits == 0x3ca3d70a
        &&& self.layer_norm_eps.bits == 0x3727c5ac
        &&& self.use_cache == true
        &&& self.pad_token_id == 0
        &&& self.bos_token_id == 0
        &&& self.eos_token_id == 0
        &&& self.tie_word_embeddings == false
        &&& self.rotary_pct.bits == 0x3e800000
        &&& self.use_parallel_residual == true
    }

    /// Every field holds its default value.
    pub open spec fn is_default(&self) -> bool {
        self.gguf_fields_default() && self.other_fields_default()
    }

    /// The configuration described by a GGUF file: the architecture fields it
    /// carries, and the defaults for the rest.
    pub fn from_gguf_config(gguf: &GGUFModelConfig) -> (r: Self)
        ensures
            r.vocab_size == gguf.vocab_size,
            r.hidden_size == gguf.hidden_size,
            r.intermediate_size == gguf.intermediate_size,
            r.num_hidden_layers == gguf.num_hidden_layers,
            r.num_attention_heads == gguf.num_attention_heads,
            r.num_key_value_heads == gguf.num_key_value_heads,
            r.rope_theta == gguf.rope_theta,
            r.max_position_embeddings == gguf.max_position_embeddings,
            r.other_fields_default(),
    {
        let d = Self::default();
        Self {
            vocab_size: gguf.vocab_size,
            hidden_size: gguf.hidden_size,
            intermediate_size: gguf.intermediate_size,
            num_hidden_layers: gguf.num_hidden_layers,
            num_attention_heads: gguf.num_attention_heads,
            num_key_value_heads: gguf.num_key_value_heads,
            rope_theta: gguf.rope_theta,
            max_position_embeddings: gguf.max_position_embeddings,
            ..d
        }
    }

    /// Size of the token vocabulary.
    pub fn vocab_size(&self) -> (r: usize)
        ensures
            r == self.vocab_size,
    {
        self.vocab_size
    }

    /// Width of the hidden states.
    pub fn hidden_size(&self) -> (r: usize)
        ensures
            r == self.hidden_size,
    {
        self.hidden_size
    }

    /// Number of transformer (or state-space) layers.
    pub fn num_layers(&self) -> (r: usize)
        ensures
            r == self.num_hidden_layers,
    {
        self.num_hidden_layers
    }
}

impl Default for GPTNeoXConfig {
    fn default() -> (r: Self)
        ensures
            r.is_default(),
    {
        Self {
            vocab_size: 50432,
            hidden_size: 6144,
            intermediate_size: 24576,
            num_hidden_layers: 44,
            num_attention_heads: 64,
            num_key_value_heads: 64,
            hidden_act: String::from_str("gelu"),
            max_position_embeddings: 2048,
            initializer_range: F32Bits::from_bits(0x3ca3d70a),
            layer_norm_eps: F32Bits::from_bits(0x3727c5ac),
            use_cache: true,
            pad_token_id: 0,
            bos_token_id: 0,
            eos_token_id: 0,
            tie_word_embeddings: false,
            rope_theta: F32Bits::from_bits(0x461c4000),
            rotary_pct: F32Bits::from_bits(0x3e800000),
            use_parallel_residual: true,
        }
    }
}

/// The GPT-NeoX decoder: input embeddings, the layers, a final norm and an untied output embedding.
pub struct GPTNeoXModelV2 {
    pub config: GPTNeoXConfig,
    pub device: Device,
    pub embed_in: Tensor,
    pub layers: Vec<GPTNeoXLayer>,
    pub final_layer_norm: Tensor,
    pub embed_out: Tensor,
}

/// A GPT-NeoX layer: attention and MLP, each after a layer norm, with parallel or sequential residuals.
pub struct GPTNeoXLayer {
    pub attention: GPTNeoXAttention,
    pub mlp: GPTNeoXMLP,
    pub input_layernorm: Tensor,
    pub post_attention_layernorm: Tensor,
    pub use_parallel_residual: bool,
}

/// GPT-NeoX attention: a fused query-key-value projection and an output projection; the rotary share of each head follows `rotary_pct`.
pub struct GPTNeoXAttention {
    pub query_key_value: Tensor,
    pub dense: Tensor,
    pub num_heads: usize,
    pub head_dim: usize,
}

/// GPT-NeoX feed-forward block: up to the intermediate width and back.
pub struct GPTNeoXMLP {
    pub dense_h_to_4h: Tensor,
    pub dense_4h_to_h: Tensor,
}

impl GPTNeoXModelV2 {
    /// The model as built for `config` on `device`: zero input embeddings `[vocab_size, hidden_size]`, `num_hidden_layers` layers, the final norm and the output embedding `[hidden_size, vocab_size]`.
    pub closed spec fn built_for(&self, config: GPTNeoXConfig, device: Device) -> bool {
        &&& self.embed_in.is_f32(seq![config.vocab_size, config.hidden_size], device)
        &&& self.layers@.len() == config.num_hidden_layers
        &&& forall|k: int| 0 <= k < self.layers@.len() ==> #[trigger] self.layers@[k].built_for(config, device)
        &&& self.final_layer_norm.is_f32(seq![config.hidden_size], device)
        &&& self.embed_out.is_f32(seq![config.hidden_size, config.vocab_size], device)
    }

    /// `self` is `old` moved to `device`: every weight placed there and the device recorded.
    pub closed spec fn moved_from(&self, old: Self, device: Device) -> bool {
        &&& self.config == old.config
        &&& self.device == device
        &&& self.embed_in.is_placed(old.embed_in, device)
        &&& self.layers@.len() == old.layers@.len()
        &&& forall|k: int| 0 <= k < self.layers@.len() ==> #[trigger] self.layers@[k].moved_from(old.layers@[k], device)
        &&& self.final_layer_norm.is_placed(old.final_layer_norm, device)
        &&& self.embed_out.is_placed(old.embed_out, device)
    }

    /// The configuration the model was built with.
    pub closed spec fn spec_config(&self) -> GPTNeoXConfig {
        self.config
    }

    /// The device the model reports.
    pub closed spec fn spec_device(&self) -> Device {
        self.device
    }

    /// Builds the model for `config` on the CPU, with zero weights.
    pub fn new(config: GPTNeoXConfig) -> (r: Result<Self, ModelError>)
        requires
            config.num_attention_heads > 0,
            3 * config.hidden_size <= usize::MAX,
        ensures
            r matches Ok(m) && m.spec_config() == config && m.spec_device() == Device::CPU
                && m.built_for(config, Device::CPU),
    {
        let device = Device::CPU;
        let embed_in = zeros2(config.vocab_size, config.hidden_size, &device);
        let mut layers: Vec<GPTNeoXLayer> = Vec::new();
        let mut n: usize = 0;
        while n < config.num_hidden_layers
            invariant
                n <= config.num_hidden_layers,
                config.num_attention_heads > 0,
                3 * config.hidden_size <= usize::MAX,
                layers@.len() == n,
                forall|k: int| 0 <= k < n ==> #[trigger] layers@[k].built_for(config, device),
            decreases config.num_hidden_layers - n,
        {
            layers.push(GPTNeoXLayer::new(&config, &device));
            n += 1;
        }
        let final_layer_norm = zeros1(config.hidden_size, &device);
        let embed_out = zeros2(config.hidden_size, config.vocab_size, &device);
        Ok(GPTNeoXModelV2 { config, device, embed_in, layers, final_layer_norm, embed_out })
    }

    /// The configuration the model was built with.
    pub fn config(&self) -> (r: &GPTNeoXConfig)
        ensures
            *r == self.spec_config(),
    {
        &self.config
    }

    /// Moves the model to `device`.
    pub fn to_device(&mut self, device: &Device) -> (r: Result<(), ModelError>)
        ensures
            r is Ok,
            final(self).moved_from(*old(self), *device),
    {
        self.embed_in = self.embed_in.to_device(device);
        let mut taken_layers: Vec<GPTNeoXLayer> = Vec::new();
        std::mem::swap(&mut taken_layers, &mut self.layers);
        self.layers = GPTNeoXLayer::all_to_device(taken_layers, device);
        self.final_layer_norm = self.final_layer_norm.to_device(device);
        self.embed_out = self.embed_out.to_device(device);
        self.device = *device;
        Ok(())
    }
}

impl GPTNeoXLayer {
    /// The weights as built for `config` on `device`, all zero.
    pub closed spec fn built_for(&self, config: GPTNeoXConfig, device: Device) -> bool {
        &&& self.attention.built_for(config, device)
        &&& self.mlp.built_for(config, device)
        &&& self.input_layernorm.is_f32(seq![config.hidden_size], device)
        &&& self.post_attention_layernorm.is_f32(seq![config.hidden_size], device)
        &&& self.use_parallel_residual == config.use_parallel_residual
    }

    /// `self` is `old` with its weights placed on `device`.
    pub closed spec fn moved_from(&self, old: Self, device: Device) -> bool {
        &&& self.attention.moved_from(old.attention, device)
        &&& self.mlp.moved_from(old.mlp, device)
        &&& self.input_layernorm.is_placed(old.input_layernorm, device)
        &&& self.post_attention_layernorm.is_placed(old.post_attention_layernorm, device)
        &&& self.use_parallel_residual == old.use_parallel_residual
    }

    fn new(config: &GPTNeoXConfig, device: &Device) -> (r: Self)
        requires
            config.num_attention_heads > 0,
            3 * config.hidden_size <= usize::MAX,
        ensures
            r.built_for(*config, *device),
    {
        let attention = GPTNeoXAttention::new(config, device);
        let mlp = GPTNeoXMLP::new(config, device);
        let input_layernorm = zeros1(config.hidden_size, device);
        let post_attention_layernorm = zeros1(config.hidden_size, device);
        let use_parallel_residual = config.use_parallel_residual;
        GPTNeoXLayer { attention, mlp, input_layernorm, post_attention_layernorm, use_parallel_residual }
    }

    /// Places the weights on `device`.
    fn to_device(&mut self, device: &Device)
        ensures
            final(self).moved_from(*old(self), *device),
    {
        self.attention.to_device(device);
        self.mlp.to_device(device);
        self.input_layernorm = self.input_layernorm.to_device(device);
        self.post_attention_layernorm = self.post_attention_layernorm.to_device(device);
    }

    /// The layers, in order, each with its weights placed on `device`.
    fn all_to_device(layers: Vec<GPTNeoXLayer>, device: &Device) -> (r: Vec<GPTNeoXLayer>)
        ensures
            r@.len() == layers@.len(),
            forall|k: int| 0 <= k < r@.len() ==> #[trigger] r@[k].moved_from(layers@[k], *device),
    {
        let mut rest = layers;
        let mut moved: Vec<GPTNeoXLayer> = Vec::new();
        while rest.len() > 0
            invariant
                moved@.len() + rest@.len() == layers@.len(),
                rest@ == layers@.subrange(moved@.len() as int, layers@.len() as int),
                forall|k: int| 0 <= k < moved@.len() ==> #[trigger] moved@[k].moved_from(layers@[k], *device),
            decreases rest@.len(),
        {
            let mut layer = rest.remove(0);
            assert(layer == layers@[moved@.len() as int]);
            layer.to_device(device);
            moved.push(layer);
            assert(rest@ =~= layers@.subrange(moved@.len() as int, layers@.len() as int));
        }
        moved
    }
}

impl GPTNeoXAttention {
    /// The weights as built for `config` on `device`, all zero.
    pub closed spec fn built_for(&self, config: GPTNeoXConfig, device: Device) -> bool {
        &&& self.query_key_value.is_f32(seq![config.hidden_size, (3 * config.hidden_size) as usize], device)
        &&& self.dense.is_f32(seq![config.hidden_size, config.hidden_size], device)
        &&& self.num_heads == config.num_attention_heads
        &&& self.head_dim == config.hidden_size / config.num_attention_heads
    }

    /// `self` is `old` with its weights placed on `device`.
    pub closed spec fn moved_from(&self, old: Self, device: Device) -> bool {
        &&& self.query_key_value.is_placed(old.query_key_value, device)
        &&& self.dense.is_placed(old.dense, device)
        &&& self.num_heads == old.num_heads
        &&& self.head_dim == old.head_dim
    }

    fn new(config: &GPTNeoXConfig, device: &Device) -> (r: Self)
        requires
            config.num_attention_heads > 0,
            3 * config.hidden_size <= usize::MAX,
        ensures
            r.built_for(*config, *device),
    {
        let query_key_value = zeros2(config.hidden_size, 3 * config.hidden_size, device);
        let dense = zeros2(config.hidden_size, config.hidden_size, device);
        let num_heads = config.num_attention_heads;
        let head_dim = config.hidden_size / config.num_attention_heads;
        GPTNeoXAttention { query_key_value, dense, num_heads, head_dim }
    }

    /// Places the weights on `device`.
    fn to_device(&mut self, device: &Device)
        ensures
            final(self).moved_from(*old(self), *device),
    {
        self.query_key_value = self.query_key_value.to_device(device);
        self.dense = self.dense.to_device(device);
    }
}

impl GPTNeoXMLP {
    /// The weights as built for `config` on `device`, all zero.
    pub closed spec fn built_for(&self, config: GPTNeoXConfig, device: Device) -> bool {
        &&& self.dense_h_to_4h.is_f32(seq![config.hidden_size, config.intermediate_size], device)
        &&& self.dense_4h_to_h.is_f32(seq![config.intermediate_size, config.hidden_size], device)
    }

    /// `self` is `old` with its weights placed on `device`.
    pub closed spec fn moved_from(&self, old: Self, device: Device) -> bool {
        &&& self.dense_h_to_4h.is_placed(old.dense_h_to_4h, device)
        &&& self.dense_4h_to_h.is_placed(old.dense_4h_to_h, device)
    }

    fn new(config: &GPTNeoXConfig, device: &Device) -> (r: Self)
        ensures
            r.built_for(*config, *device),
    {
        let dense_h_to_4h = zeros2(config.hidden_size, config.intermediate_size, device);
        let dense_4h_to_h = zeros2(config.intermediate_size, config.hidden_size, device);
        GPTNeoXMLP { dense_h_to_4h, dense_4h_to_h }
    }

    /// Places the weights on `device`.
    fn to_device(&mut self, device: &Device)
        ensures
            final(self).moved_from(*old(self), *device),
    {
        self.dense_h_to_4h = self.dense_h_to_4h.to_device(device);
        self.dense_4h_to_h = self.dense_4h_to_h.to_device(device);
    }
}
/// Parameter count of the estimate: embeddings and eight `hidden_size` squared blocks per layer.
pub open spec fn gptneox_param_count(c: GPTNeoXConfig) -> int {
    c.vocab_size * c.hidden_size + c.num_hidden_layers * 8 * (c.hidden_size * c.hidden_size)
}

/// No step of the memory estimate for `GPTNeoXConfig` leaves the range of `usize`
/// or divides by zero.
pub open spec fn gptneox_memory_fits(c: GPTNeoXConfig) -> bool {
    &&& c.vocab_size * c.hidden_size <= usize::MAX
    &&& c.num_hidden_layers * 8 <= usize::MAX
    &&& c.hidden_size * c.hidden_size <= usize::MAX
    &&& c.num_hidden_layers * 8 * (c.hidden_size * c.hidden_size) <= usize::MAX
    &&& c.vocab_size * c.hidden_size + c.num_hidden_layers * 8 * (c.hidden_size * c.hidden_size) <= usize::MAX
    &&& (c.vocab_size * c.hidden_size + c.num_hidden_layers * 8 * (c.hidden_size * c.hidden_size)) * 4 <= usize::MAX
    &&& 2 * c.num_hidden_layers <= usize::MAX
    &&& 2 * c.num_hidden_layers * c.max_position_embeddings <= usize::MAX
    &&& 2 * c.num_hidden_layers * c.max_position_embeddings * c.hidden_size <= usize::MAX
    &&& 2 * c.num_hidden_layers * c.max_position_embeddings * c.hidden_size * 4 <= usize::MAX
    &&& (c.vocab_size * c.hidden_size + c.num_hidden_layers * 8 * (c.hidden_size * c.hidden_size)) * 5 <= usize::MAX
}

impl GPTNeoXModelV2 {
    /// Estimated memory: four bytes per parameter on the GPU, one per parameter on the CPU, the full key-value cache, and five bytes per parameter at peak.
    pub fn memory_requirements(&self) -> (r: MemoryRequirements)
        requires
            gptneox_memory_fits(self.spec_config()),
        ensures
            r.gpu_memory == gptneox_param_count(self.spec_config()) * 4,
            r.cpu_memory == gptneox_param_count(self.spec_config()),
            r.kv_cache_memory == 2 * self.spec_config().num_hidden_layers * self.spec_config().max_position_embeddings * self.spec_config().hidden_size * 4,
            r.peak_memory == gptneox_param_count(self.spec_config()) * 5,
    {
        let c = &self.config;
        let param_count = c.vocab_size * c.hidden_size + c.num_hidden_layers * 8 * (c.hidden_size * c.hidden_size);
        MemoryRequirements {
            gpu_memory: param_count * 4,
            cpu_memory: param_count,
            kv_cache_memory: 2 * c.num_hidden_layers * c.max_position_embeddings * c.hidden_size * 4,
            peak_memory: param_count * 5,
        }
    }
}

impl GPTNeoXModelV2 {
    /// `self` is `old` after loading from `weights`: each weight whose
    /// checkpoint name `weights` holds takes that tensor's shape, element
    /// type, device and elements (as is, or transposed for a matrix product),
    /// and nothing else changes.
    pub closed spec fn loaded(&self, old: Self, weights: ModelWeights) -> bool {
        &&& self.config == old.config
        &&& self.device == old.device
        &&& copied(self.embed_in, old.embed_in, weights.lookup("gpt_neox.embed_in.weight"@))
        &&& self.layers@.len() == old.layers@.len()
        &&& forall|k: int| 0 <= k < old.layers@.len() ==> #[trigger] self.layers@[k].loaded(old.layers@[k], weights, k)
        &&& copied(self.final_layer_norm, old.final_layer_norm, weights.lookup("gpt_neox.final_layer_norm.weight"@))
        &&& transposed(self.embed_out, old.embed_out, weights.lookup("embed_out.weight"@))
    }

    /// Every tensor that loading from `weights` would transpose has at least
    /// two dimensions.
    pub closed spec fn loadable(&self, weights: ModelWeights) -> bool {
        &&& transposable(weights.lookup("embed_out.weight"@))
        &&& forall|k: int| 0 <= k < self.layers@.len() ==> #[trigger] self.layers@[k].loadable(weights, k)
    }

    /// Loads the weights of `weights` that this part names.
    fn load_weights(&mut self, weights: &ModelWeights) -> (r: Result<(), ModelError>)
        ensures
            r is Ok <==> old(self).loadable(*weights),
            r is Ok ==> final(self).loaded(*old(self), *weights),
            r matches Err(e) ==> is_transpose_error(e),
    {
        load_copy(&mut self.embed_in, weights, "gpt_neox.embed_in.weight");
        load_copy(&mut self.final_layer_norm, weights, "gpt_neox.final_layer_norm.weight");
        load_transposed(&mut self.embed_out, weights, "embed_out.weight")?;
        let mut taken_layers: Vec<GPTNeoXLayer> = Vec::new();
        std::mem::swap(&mut taken_layers, &mut self.layers);
        self.layers = Self::load_layers(taken_layers, weights)?;
        Ok(())
    }

    /// Loads each of `items`, in order, from `weights`.
    fn load_layers(items: Vec<GPTNeoXLayer>, weights: &ModelWeights) -> (r: Result<Vec<GPTNeoXLayer>, ModelError>)
        ensures
            r is Ok <==> forall|k: int| 0 <= k < items@.len() ==> #[trigger] items@[k].loadable(*weights, k),
            r matches Ok(v) ==> v@.len() == items@.len() && forall|k: int| 0 <= k < items@.len() ==> #[trigger] v@[k].loaded(items@[k], *weights, k),
            r matches Err(e) ==> is_transpose_error(e),
    {
        let mut rest = items;
        let mut done: Vec<GPTNeoXLayer> = Vec::new();
        while rest.len() > 0
            invariant
                done@.len() + rest@.len() == items@.len(),
                rest@ == items@.subrange(done@.len() as int, items@.len() as int),
                forall|k: int| 0 <= k < done@.len() ==> #[trigger] done@[k].loaded(items@[k], *weights, k),
                forall|k: int| 0 <= k < done@.len() ==> #[trigger] items@[k].loadable(*weights, k),
            decreases rest@.len(),
        {
            let n = done.len();
            let mut item = rest.remove(0);
            assert(item == items@[n as int]);
            match item.load_weights(weights, n) {
                Ok(()) => {},
                Err(e) => {
                    assert(!items@[n as int].loadable(*weights, n as int));
                    return Err(e);
                },
            }
            done.push(item);
            assert(rest@ =~= items@.subrange(done@.len() as int, items@.len() as int));
        }
        Ok(done)
    }
}

impl GPTNeoXLayer {
    /// `self` is `old` after loading from `weights`: each weight whose
    /// checkpoint name `weights` holds takes that tensor's shape, element
    /// type, device and elements (as is, or transposed for a matrix product),
    /// and nothing else changes.
    pub closed spec fn loaded(&self, old: Self, weights: ModelWeights, idx: int) -> bool {
        &&& transposed(self.attention.query_key_value, old.attention.query_key_value, weights.lookup(indexed("gpt_neox.layers."@, idx, ".attention.query_key_value.weight"@)))
        &&& transposed(self.attention.dense, old.attention.dense, weights.lookup(indexed("gpt_neox.layers."@, idx, ".attention.dense.weight"@)))
        &&& self.attention.num_heads == old.attention.num_heads
        &&& self.attention.head_dim == old.attention.head_dim
        &&& transposed(self.mlp.dense_h_to_4h, old.mlp.dense_h_to_4h, weights.lookup(indexed("gpt_neox.layers."@, idx, ".mlp.dense_h_to_4h.weight"@)))
        &&& transposed(self.mlp.dense_4h_to_h, old.mlp.dense_4h_to_h, weights.lookup(indexed("gpt_neox.layers."@, idx, ".mlp.dense_4h_to_h.weight"@)))
        &&& copied(self.input_layernorm, old.input_layernorm, weights.lookup(indexed("gpt_neox.layers."@, idx, ".input_layernorm.weight"@)))
        &&& copied(self.post_attention_layernorm, old.post_attention_layernorm, weights.lookup(indexed("gpt_neox.layers."@, idx, ".post_attention_layernorm.weight"@)))
        &&& self.use_parallel_residual == old.use_parallel_residual
    }

    /// Every tensor that loading from `weights` would transpose has at least
    /// two dimensions.
    pub closed spec fn loadable(&self, weights: ModelWeights, idx: int) -> bool {
        &&& transposable(weights.lookup(indexed("gpt_neox.layers."@, idx, ".attention.query_key_value.weight"@)))
        &&& transposable(weights.lookup(indexed("gpt_neox.layers."@, idx, ".attention.dense.weight"@)))
        &&& transposable(weights.lookup(indexed("gpt_neox.layers."@, idx, ".mlp.dense_h_to_4h.weight"@)))
        &&& transposable(weights.lookup(indexed("gpt_neox.layers."@, idx, ".mlp.dense_4h_to_h.weight"@)))
    }

    /// Loads the weights of `weights` that this part names.
    fn load_weights(&mut self, weights: &ModelWeights, layer_idx: usize) -> (r: Result<(), ModelError>)
        ensures
            r is Ok <==> old(self).loadable(*weights, layer_idx as int),
            r is Ok ==> final(self).loaded(*old(self), *weights, layer_idx as int),
            r matches Err(e) ==> is_transpose_error(e),
    {
        load_transposed(&mut self.attention.query_key_value, weights, indexed_name("gpt_neox.layers.", layer_idx, ".attention.query_key_value.weight").as_str())?;
        load_transposed(&mut self.attention.dense, weights, indexed_name("gpt_neox.layers.", layer_idx, ".attention.dense.weight").as_str())?;
        load_transposed(&mut self.mlp.dense_h_to_4h, weights, indexed_name("gpt_neox.layers.", layer_idx, ".mlp.dense_h_to_4h.weight").as_str())?;
        load_transposed(&mut self.mlp.dense_4h_to_h, weights, indexed_name("gpt_neox.layers.", layer_idx, ".mlp.dense_4h_to_h.weight").as_str())?;
        load_copy(&mut self.input_layernorm, weights, indexed_name("gpt_neox.layers.", layer_idx, ".input_layernorm.weight").as_str());
        load_copy(&mut self.post_attention_layernorm, weights, indexed_name("gpt_neox.layers.", layer_idx, ".post_attention_layernorm.weight").as_str());
        Ok(())
    }
}


impl GPTNeoXModelV2 {
    /// Builds the model for `config` as `new` does and loads the weights that
    /// `weights` holds under their checkpoint names: the result is the built
    /// model with those weights taken, and an error exactly when a tensor that
    /// must be transposed has fewer than two dimensions.
    pub fn from_weights(config: GPTNeoXConfig, weights: ModelWeights) -> (r: Result<Self, ModelError>)
        requires
            config.num_attention_heads > 0,
            3 * config.hidden_size <= usize::MAX,
        ensures
            exists|built: Self| #[trigger] built.built_for(config, Device::CPU) && built.spec_config() == config
                && built.spec_device() == Device::CPU && (r is Ok <==> built.loadable(weights))
                && (r matches Ok(m) ==> m.spec_config() == config && m.spec_device() == Device::CPU && m.loaded(built, weights))
                && (r matches Err(e) ==> is_transpose_error(e)),
    {
        let mut model = match Self::new(config) {
            Ok(m) => m,
            Err(e) => {
                return Err(e);
            },
        };
        let ghost built = model;
        match model.load_weights(&weights) {
            Ok(()) => {
                assert(built.built_for(config, Device::CPU));
                Ok(model)
            },
            Err(e) => {
                assert(built.built_for(config, Device::CPU));
                Err(e)
            },
        }
    }
}

impl GPTNeoXModelV2 {
    /// Moving to `d1` and then to `d2` leaves the model as a single move to
    /// `d2` would: the second move overrides the first.
    pub proof fn lemma_moves_compose(first: Self, second: Self, third: Self, d1: Device, d2: Device)
        requires
            second.moved_from(first, d1),
            third.moved_from(second, d2),
        ensures
            third.moved_from(first, d2),
    {
        assert forall|k: int| 0 <= k < third.layers@.len() implies #[trigger] third.layers@[k].moved_from(first.layers@[k], d2) by {
            GPTNeoXLayer::lemma_moves_compose(first.layers@[k], second.layers@[k], third.layers@[k], d1, d2);
        }
    }
}

impl GPTNeoXLayer {
    /// A move to `d1` followed by a move to `d2` is a move to `d2`.
    proof fn lemma_moves_compose(first: Self, second: Self, third: Self, d1: Device, d2: Device)
        requires
            second.moved_from(first, d1),
            third.moved_from(second, d2),
        ensures
            third.moved_from(first, d2),
    {
        GPTNeoXAttention::lemma_moves_compose(first.attention, second.attention, third.attention, d1, d2);
        GPTNeoXMLP::lemma_moves_compose(first.mlp, second.mlp, third.mlp, d1, d2);
    }
}

impl GPTNeoXAttention {
    /// A move to `d1` followed by a move to `d2` is a move to `d2`.
    proof fn lemma_moves_compose(first: Self, second: Self, third: Self, d1: Device, d2: Device)
        requires
            second.moved_from(first, d1),
            third.moved_from(second, d2),
        ensures
            third.moved_from(first, d2),
    {
    }
}

impl GPTNeoXMLP {
    /// A move to `d1` followed by a move to `d2` is a move to `d2`.
    proof fn lemma_moves_compose(first: Self, second: Self, third: Self, d1: Device, d2: Device)
        requires
            second.moved_from(first, d1),
            third.moved_from(second, d2),
        ensures
            third.moved_from(first, d2),
    {
    }
}

} // verus!

verus! {

impl GPTNeoXConfig {
    /// The default configuration has these sizes: the clauses below.
    pub proof fn lemma_default_sizes(&self)
        requires
            self.gguf_fields_default(),
        ensures
            self.vocab_size == 50432,
            self.hidden_size == 6144,
            self.intermediate_size == 24576,
            self.num_hidden_layers == 44,
            self.num_attention_heads == 64,
            self.num_key_value_heads == 64,
            self.max_position_embeddings == 2048,
            self.rope_theta.bits == 0x461c4000,
    {
    }

    /// The default configuration has these remaining settings: the clauses below.
    pub proof fn lemma_default_settings(&self)
        requires
            self.other_fields_default(),
        ensures
            self.hidden_act@ == "gelu"@,
            self.initializer_range.bits == 0x3ca3d70a,
            self.layer_norm_eps.bits == 0x3727c5ac,
            self.use_cache == true,
            self.pad_token_id == 0,
            self.bos_token_id == 0,
            self.eos_token_id == 0,
            self.tie_word_embeddings == false,
            self.rotary_pct.bits == 0x3e800000,
            self.use_parallel_residual == true,
    {
    }

    /// The default configuration is the one with the default sizes and settings: the clauses below.
    pub proof fn lemma_default_parts(&self)
        requires
            self.is_default(),
        ensures
            ({
            self.gguf_fields_default() && self.other_fields_default()
        }),
    {
    }
}

impl GPTNeoXModelV2 {
    /// Built for `config` on `device`, each weight is the zero tensor of the shape the configuration gives, on `device`, and each recorded size is the configured one: the clauses below.
    pub proof fn lemma_built_weights(&self, config: GPTNeoXConfig, device: Device)
        requires
            self.built_for(config, device),
        ensures
            self.embed_in.is_f32(seq![config.vocab_size, config.hidden_size], device),
            self.layers@.len() == config.num_hidden_layers,
            forall|k: int| 0 <= k < self.layers@.len() ==> #[trigger] self.layers@[k].built_for(config, device),
            self.final_layer_norm.is_f32(seq![config.hidden_size], device),
            self.embed_out.is_f32(seq![config.hidden_size, config.vocab_size], device),
    {
    }

    /// After a move to `device`, every weight lies on `device` with its shape, element type and elements kept, and nothing else changes: the clauses below.
    pub proof fn lemma_moved_weights(&self, before: Self, device: Device)
        requires
            self.moved_from(before, device),
        ensures
            self.config == before.config,
            self.device == device,
            self.embed_in.is_placed(before.embed_in, device),
            self.layers@.len() == before.layers@.len(),
            forall|k: int| 0 <= k < self.layers@.len() ==> #[trigger] self.layers@[k].moved_from(before.layers@[k], device),
            self.final_layer_norm.is_placed(before.final_layer_norm, device),
            self.embed_out.is_placed(before.embed_out, device),
    {
    }

    /// After loading from `weights`, each weight holds the tensor stored under its checkpoint name, copied or transposed, and keeps its previous value when the name is absent; nothing else changes: the clauses below.
    pub proof fn lemma_loaded_weights(&self, before: Self, weights: ModelWeights)
        requires
            self.loaded(before, weights),
        ensures
            self.config == before.config,
            self.device == before.device,
            copied(self.embed_in, before.embed_in, weights.lookup("gpt_neox.embed_in.weight"@)),
            self.layers@.len() == before.layers@.len(),
            forall|k: int| 0 <= k < before.layers@.len() ==> #[trigger] self.layers@[k].loaded(before.layers@[k], weights, k),
            copied(self.final_layer_norm, before.final_layer_norm, weights.lookup("gpt_neox.final_layer_norm.weight"@)),
            transposed(self.embed_out, before.embed_out, weights.lookup("embed_out.weight"@)),
    {
    }

    /// Loading from `weights` succeeds only when every tensor it must transpose, found under these checkpoint names, has at least two dimensions: the clauses below.
    pub proof fn lemma_loadable_names(&self, weights: ModelWeights)
        requires
            self.loadable(weights),
        ensures
            transposable(weights.lookup("embed_out.weight"@)),
            forall|k: int| 0 <= k < self.layers@.len() ==> #[trigger] self.layers@[k].loadable(weights, k),
    {
    }
}

impl GPTNeoXLayer {
    /// Built for `config` on `device`, each weight is the zero tensor of the shape the configuration gives, on `device`, and each recorded size is the configured one: the clauses below.
    pub proof fn lemma_built_weights(&self, config: GPTNeoXConfig, device: Device)
        requires
            self.built_for(config, device),
        ensures
            self.attention.built_for(config, device),
            self.mlp.built_for(config, device),
            self.input_layernorm.is_f32(seq![config.hidden_size], device),
            self.post_attention_layernorm.is_f32(seq![config.hidden_size], device),
            self.use_parallel_residual == config.use_parallel_residual,
    {
    }

    /// After a move to `device`, every weight lies on `device` with its shape, element type and elements kept, and nothing else changes: the clauses below.
    pub proof fn lemma_moved_weights(&self, before: Self, device: Device)
        requires
            self.moved_from(before, device),
        ensures
            self.attention.moved_from(before.attention, device),
            self.mlp.moved_from(before.mlp, device),
            self.input_layernorm.is_placed(before.input_layernorm, device),
            self.post_attention_layernorm.is_placed(before.post_attention_layernorm, device),
            self.use_parallel_residual == before.use_parallel_residual,
    {
    }

    /// After loading from `weights`, each weight holds the tensor stored under its checkpoint name, copied or transposed, and keeps its previous value when the name is absent; nothing else changes: the clauses below.
    pub proof fn lemma_loaded_weights(&self, before: Self, weights: ModelWeights, idx: int)
        requires
            self.loaded(before, weights, idx),
        ensures
            transposed(self.attention.query_key_value, before.attention.query_key_value, weights.lookup(indexed("gpt_neox.layers."@, idx, ".attention.query_key_value.weight"@))),
            transposed(self.attention.dense, before.attention.dense, weights.lookup(indexed("gpt_neox.layers."@, idx, ".attention.dense.weight"@))),
            self.attention.num_heads == before.attention.num_heads,
            self.attention.head_dim == before.attention.head_dim,
            transposed(self.mlp.dense_h_to_4h, before.mlp.dense_h_to_4h, weights.lookup(indexed("gpt_neox.layers."@, idx, ".mlp.dense_h_to_4h.weight"@))),
            transposed(self.mlp.dense_4h_to_h, before.mlp.dense_4h_to_h, weights.lookup(indexed("gpt_neox.layers."@, idx, ".mlp.dense_4h_to_h.weight"@))),
            copied(self.input_layernorm, before.input_layernorm, weights.lookup(indexed("gpt_neox.layers."@, idx, ".input_layernorm.weight"@))),
            copied(self.post_attention_layernorm, before.post_attention_layernorm, weights.lookup(indexed("gpt_neox.layers."@, idx, ".post_attention_layernorm.weight"@))),
            self.use_parallel_residual == before.use_parallel_residual,
    {
    }

    /// Loading from `weights` succeeds only when every tensor it must transpose, found under these checkpoint names, has at least two dimensions: the clauses below.
    pub proof fn lemma_loadable_names(&self, weights: ModelWeights, idx: int)
        requires
            self.loadable(weights, idx),
        ensures
            transposable(weights.lookup(indexed("gpt_neox.layers."@, idx, ".attention.query_key_value.weight"@))),
            transposable(weights.lookup(indexed("gpt_neox.layers."@, idx, ".attention.dense.weight"@))),
            transposable(weights.lookup(indexed("gpt_neox.layers."@, idx, ".mlp.dense_h_to_4h.weight"@))),
            transposable(weights.lookup(indexed("gpt_neox.layers."@, idx, ".mlp.dense_4h_to_h.weight"@))),
    {
    }
}

impl GPTNeoXAttention {
    /// Built for `config` on `device`, each weight is the zero tensor of the shape the configuration gives, on `device`, and each recorded size is the configured one: the clauses below.
    pub proof fn lemma_built_weights(&self, config: GPTNeoXConfig, device: Device)
        requires
            self.built_for(config, device),
        ensures
            self.query_key_value.is_f32(seq![config.hidden_size, (3 * config.hidden_size) as usize], device),
            self.dense.is_f32(seq![config.hidden_size, config.hidden_size], device),
            self.num_heads == config.num_attention_heads,
            self.head_dim == config.hidden_size / config.num_attention_heads,
    {
    }

    /// After a move to `device`, every weight lies on `device` with its shape, element type and elements kept, and nothing else changes: the clauses below.
    pub proof fn lemma_moved_weights(&self, before: Self, device: Device)
        requires
            self.moved_from(before, device),
        ensures
            self.query_key_value.is_placed(before.query_key_value, device),
            self.dense.is_placed(before.dense, device),
            self.num_heads == before.num_heads,
            self.head_dim == before.head_dim,
    {
    }
}

impl GPTNeoXMLP {
    /// Built for `config` on `device`, each weight is the zero tensor of the shape the configuration gives, on `device`, and each recorded size is the configured one: the clauses below.
    pub proof fn lemma_built_weights(&self, config: GPTNeoXConfig, device: Device)
        requires
            self.built_for(config, device),
        ensures
            self.dense_h_to_4h.is_f32(seq![config.hidden_size, config.intermediate_size], device),
            self.dense_4h_to_h.is_f32(seq![config.intermediate_size, config.hidden_size], device),
    {
    }

    /// After a move to `device`, every weight lies on `device` with its shape, element type and elements kept, and nothing else changes: the clauses below.
    pub proof fn lemma_moved_weights(&self, before: Self, device: Device)
        requires
            self.moved_from(before, device),
        ensures
            self.dense_h_to_4h.is_placed(before.dense_h_to_4h, device),
            self.dense_4h_to_h.is_placed(before.dense_4h_to_h, device),
    {
    }
}

/// `gptneox_param_count` is, for every configuration, the formula below.
pub proof fn lemma_gptneox_param_count_formula(c: GPTNeoXConfig)
    ensures
        gptneox_param_count(c) == (c.vocab_size * c.hidden_size + c.num_hidden_layers * 8 * (c.hidden_size * c.hidden_size)),
{
}

} // verus!
