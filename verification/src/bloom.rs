//! The BLOOM model.
use vstd::prelude::*;
use crate::common::F32Bits;
use crate::gguf::GGUFModelConfig;
use crate::common::{MemoryRequirements, ModelError};
use crate::tensor::{zeros1, zeros2, Device, Tensor};
use crate::weights::{copied, transposed, transposable, is_transpose_error, indexed, first_found, indexed_name, load_copy, load_transposed, ModelWeights};

verus! {

/// Hyperparameters of the BLOOM model.
#[derive(Clone, Debug)]
pub struct BLOOMConfig {
    pub vocab_size: usize,
    pub hidden_size: usize,
    pub intermediate_size: usize,
    pub num_hidden_layers: usize,
    pub num_attention_heads: usize,
    pub num_key_value_heads: usize,
    pub hidden_act: String,
    pub max_position_embeddings: usize,
    pub initializer_range: F32Bits,
    pub layer_norm_eps: F32Bits,
    pub use_cache: bool,
    pub pad_token_id: i64,
    pub bos_token_id: i64,
    pub eos_token_id: i64,
    pub tie_word_embeddings: bool,
    pub apply_residual_connection_post_layernorm: bool,
}

impl BLOOMConfig {
    /// The fields that a GGUF file supplies hold their default values.
    pub open spec fn gguf_fields_default(&self) -> bool {
        &&& self.vocab_size == 250880
        &&& self.hidden_size == 2048
        &&& self.intermediate_size == 8192
        &&& self.num_hidden_layers == 24
        &&& self.num_attention_heads == 16
        &&& self.num_key_value_heads == 16
        &&& self.max_position_embeddings == 2048
    }

    /// The fields that a GGUF file does not supply hold their default values.
    pub open spec fn other_fields_default(&self) -> bool {
        &&& self.hidden_act@ == "gelu"@
        &&& self.initializer_range.bits == 0x3ca3d70a
        &&& self.layer_norm_eps.bits == 0x3727c5ac
        &&& self.use_cache == true
        &&& self.pad_token_id == 3
        &&& self.bos_token_id == 1
        &&& self.eos_token_id == 2
        &&& self.tie_word_embeddings == true
        &&& self.apply_residual_connection_post_layernorm == false
    }

    /// Every field holds its default value.
    pub open spec fn is_default(&self) -> bool {
        self.gguf_fields_default() && self.other_fields_default()
    }

    /// The configuration described by a GGUF file: the architecture fields it
    /// carries, and the defaults for the rest.
    pub fn from_gguf_config(gguf: &GGUFModelConfig) -> (r: Self)
        ensures
            r.vocab_size == gguf.vocab_size,
            r.hidden_size == gguf.hidden_size,
            r.intermediate_size == gguf.intermediate_size,
            r.num_hidden_layers == gguf.num_hidden_layers,
            r.num_attention_heads == gguf.num_attention_heads,
            r.num_key_value_heads == gguf.num_key_value_heads,
            r.max_position_embeddings == gguf.max_position_embeddings,
            r.other_fields_default(),
    {
        let d = Self::default();
        Self {
            vocab_size: gguf.vocab_size,
            hidden_size: gguf.hidden_size,
            intermediate_size: gguf.intermediate_size,
            num_hidden_layers: gguf.num_hidden_layers,
            num_attention_heads: gguf.num_attention_heads,
            num_key_value_heads: gguf.num_key_value_heads,
            max_position_embeddings: gguf.max_position_embeddings,
            ..d
        }
    }

    /// Size of the token vocabulary.
    pub fn vocab_size(&self) -> (r: usize)
        ensures
            r == self.vocab_size,
    {
        self.vocab_size
    }

    /// Width of the hidden states.
    pub fn hidden_size(&self) -> (r: usize)
        ensures
            r == self.hidden_size,
    {
        self.hidden_size
    }

    /// Number of transformer (or state-space) layers.
    pub fn num_layers(&self) -> (r: usize)
        ensures
            r == self.num_hidden_layers,
    {
        self.num_hidden_layers
    }
}

impl Default for BLOOMConfig {
    fn default() -> (r: Self)
        ensures
            r.is_default(),
    {
        Self {
            vocab_size: 250880,
            hidden_size: 2048,
            intermediate_size: 8192,
            num_hidden_layers: 24,
            num_attention_heads: 16,
            num_key_value_heads: 16,
            hidden_act: String::from_str("gelu"),
            max_position_embeddings: 2048,
            initializer_range: F32Bits::from_bits(0x3ca3d70a),
            layer_norm_eps: F32Bits::from_bits(0x3727c5ac),
            use_cache: true,
            pad_token_id: 3,
            bos_token_id: 1,
            eos_token_id: 2,
            tie_word_embeddings: true,
            apply_residual_connection_post_layernorm: false,
        }
    }
}

/// The BLOOM decoder: word embeddings with their norm, the layers, a final norm, and an output head tied to the embeddings.
pub struct BLOOMModelV2 {
    pub config: BLOOMConfig,
    pub device: Device,
    pub word_embeddings: Tensor,
    pub word_embeddings_layernorm: Tensor,
    pub layers: Vec<BLOOMLayer>,
    pub ln_f: Tensor,
    pub lm_head: Tensor,
}

/// A BLOOM layer: attention and MLP, each after a layer norm.
pub struct BLOOMLayer {
    pub self_attention: BLOOMAttention,
    pub mlp: BLOOMMLP,
    pub input_layernorm: Tensor,
    pub post_attention_layernorm: Tensor,
}

/// BLOOM attention: a fused query-key-value projection and an output projection; positions enter through ALiBi biases.
pub struct BLOOMAttention {
    pub query_key_value: Tensor,
    pub dense: Tensor,
    pub num_heads: usize,
    pub head_dim: usize,
}

/// BLOOM feed-forward block: up to the intermediate width and back.
pub struct BLOOMMLP {
    pub dense_h_to_4h: Tensor,
    pub dense_4h_to_h: Tensor,
}

impl BLOOMModelV2 {
    /// The model as built for `config` on `device`: zero embeddings `[vocab_size, hidden_size]`, `num_hidden_layers` layers, and a head describing the same tensor as the embeddings.
    pub closed spec fn built_for(&self, config: BLOOMConfig, device: Device) -> bool {
        &&& self.word_embeddings.is_f32(seq![config.vocab_size, config.hidden_size], device)
        &&& self.word_embeddings_layernorm.is_f32(seq![config.hidden_size], device)
        &&& self.layers@.len() == config.num_hidden_layers
        &&& forall|k: int| 0 <= k < self.layers@.len() ==> #[trigger] self.layers@[k].built_for(config, device)
        &&& self.ln_f.is_f32(seq![config.hidden_size], device)
        &&& self.lm_head.same(self.word_embeddings)
    }

    /// `self` is `old` moved to `device`: every weight placed there and the device recorded.
    pub closed spec fn moved_from(&self, old: Self, device: Device) -> bool {
        &&& self.config == old.config
        &&& self.device == device
        &&& self.word_embeddings.is_placed(old.word_embeddings, device)
        &&& self.word_embeddings_layernorm.is_placed(old.word_embeddings_layernorm, device)
        &&& self.layers@.len() == old.layers@.len()
        &&& forall|k: int| 0 <= k < self.layers@.len() ==> #[trigger] self.layers@[k].moved_from(old.layers@[k], device)
        &&& self.ln_f.is_placed(old.ln_f, device)
        &&& self.lm_head.is_placed(old.lm_head, device)
    }

    /// The configuration the model was built with.
    pub closed spec fn spec_config(&self) -> BLOOMConfig {
        self.config
    }

    /// The device the model reports.
    pub closed spec fn spec_device(&self) -> Device {
        self.device
    }

    /// Builds the model for `config` on the CPU, with zero weights.
    pub fn new(config: BLOOMConfig) -> (r: Result<Self, ModelError>)
        requires
            config.num_attention_heads > 0,
            3 * config.hidden_size <= usize::MAX,
        ensures
            r matches Ok(m) && m.spec_config() == config && m.spec_device() == Device::CPU
                && m.built_for(config, Device::CPU),
    {
        let device = Device::CPU;
        let word_embeddings = zeros2(config.vocab_size, config.hidden_size, &device);
        let word_embeddings_layernorm = zeros1(config.hidden_size, &device);
        let mut layers: Vec<BLOOMLayer> = Vec::new();
        let mut n: usize = 0;
        while n < config.num_hidden_layers
            invariant
                n <= config.num_hidden_layers,
                config.num_attention_heads > 0,
                3 * config.hidden_size <= usize::MAX,
                layers@.len() == n,
                forall|k: int| 0 <= k < n ==> #[trigger] layers@[k].built_for(config, device),
            decreases config.num_hidden_layers - n,
        {
            layers.push(BLOOMLayer::new(&config, &device));
            n += 1;
        }
        let ln_f = zeros1(config.hidden_size, &device);
        let lm_head = word_embeddings.duplicate();
        Ok(BLOOMModelV2 { config, device, word_embeddings, word_embeddings_layernorm, layers, ln_f, lm_head })
    }

    /// The configuration the model was built with.
    pub fn config(&self) -> (r: &BLOOMConfig)
        ensures
            *r == self.spec_config(),
    {
        &self.config
    }

    /// Moves the model to `device`.
    pub fn to_device(&mut self, device: &Device) -> (r: Result<(), ModelError>)
        ensures
            r is Ok,
            final(self).moved_from(*old(self), *device),
    {
        self.word_embeddings = self.word_embeddings.to_device(device);
        self.word_embeddings_layernorm = self.word_embeddings_layernorm.to_device(device);
        let mut taken_layers: Vec<BLOOMLayer> = Vec::new();
        std::mem::swap(&mut taken_layers, &mut self.layers);
        self.layers = BLOOMLayer::all_to_device(taken_layers, device);
        self.ln_f = self.ln_f.to_device(device);
        self.lm_head = self.lm_head.to_device(device);
        self.device = *device;
        Ok(())
    }
}

impl BLOOMLayer {
    /// The weights as built for `config` on `device`, all zero.
    pub closed spec fn built_for(&self, config: BLOOMConfig, device: Device) -> bool {
        &&& self.self_attention.built_for(config, device)
        &&& self.mlp.built_for(config, device)
        &&& self.input_layernorm.is_f32(seq![config.hidden_size], device)
        &&& self.post_attention_layernorm.is_f32(seq![config.hidden_size], device)
    }

    /// `self` is `old` with its weights placed on `device`.
    pub closed spec fn moved_from(&self, old: Self, device: Device) -> bool {
        &&& self.self_attention.moved_from(old.self_attention, device)
        &&& self.mlp.moved_from(old.mlp, device)
        &&& self.input_layernorm.is_placed(old.input_layernorm, device)
        &&& self.post_attention_layernorm.is_placed(old.post_attention_layernorm, device)
    }

    fn new(config: &BLOOMConfig, device: &Device) -> (r: Self)
        requires
            config.num_attention_heads > 0,
            3 * config.hidden_size <= usize::MAX,
        ensures
            r.built_for(*config, *device),
    {
        let self_attention = BLOOMAttention::new(config, device);
        let mlp = BLOOMMLP::new(config, device);
        let input_layernorm = zeros1(config.hidden_size, device);
        let post_attention_layernorm = zeros1(config.hidden_size, device);
        BLOOMLayer { self_attention, mlp, input_layernorm, post_attention_layernorm }
    }

    /// Places the weights on `device`.
    fn to_device(&mut self, device: &Device)
        ensures
            final(self).moved_from(*old(self), *device),
    {
        self.self_attention.to_device(device);
        self.mlp.to_device(device);
        self.input_layernorm = self.input_layernorm.to_device(device);
        self.post_attention_layernorm = self.post_attention_layernorm.to_device(device);
    }

    /// The layers, in order, each with its weights placed on `device`.
    fn all_to_device(layers: Vec<BLOOMLayer>, device: &Device) -> (r: Vec<BLOOMLayer>)
        ensures
            r@.len() == layers@.len(),
            forall|k: int| 0 <= k < r@.len() ==> #[trigger] r@[k].moved_from(layers@[k], *device),
    {
        let mut rest = layers;
        let mut moved: Vec<BLOOMLayer> = Vec::new();
        while rest.len() > 0
            invariant
                moved@.len() + rest@.len() == layers@.len(),
                rest@ == layers@.subrange(moved@.len() as int, layers@.len() as int),
                forall|k: int| 0 <= k < moved@.len() ==> #[trigger] moved@[k].moved_from(layers@[k], *device),
            decreases rest@.len(),
        {
            let mut layer = rest.remove(0);
            assert(layer == layers@[moved@.len() as int]);
            layer.to_device(device);
            moved.push(layer);
            assert(rest@ =~= layers@.subrange(moved@.len() as int, layers@.len() as int));
        }
        moved
    }
}

impl BLOOMAttention {
    /// The weights as built for `config` on `device`, all zero.
    pub closed spec fn built_for(&self, config: BLOOMConfig, device: Device) -> bool {
        &&& self.query_key_value.is_f32(seq![config.hidden_size, (3 * config.hidden_size) as usize], device)
        &&& self.dense.is_f32(seq![config.hidden_size, config.hidden_size], device)
        &&& self.num_heads == config.num_attention_heads
        &&& self.head_dim == config.hidden_size / config.num_attention_heads
    }

    /// `self` is `old` with its weights placed on `device`.
    pub closed spec fn moved_from(&self, old: Self, device: Device) -> bool {
        &&& self.query_key_value.is_placed(old.query_key_value, device)
        &&& self.dense.is_placed(old.dense, device)
        &&& self.num_heads == old.num_heads
        &&& self.head_dim == old.head_dim
    }

    fn new(config: &BLOOMConfig, device: &Device) -> (r: Self)
        requires
            config.num_attention_heads > 0,
            3 * config.hidden_size <= usize::MAX,
        ensures
            r.built_for(*config, *device),
    {
        let query_key_value = zeros2(config.hidden_size, 3 * config.hidden_size, device);
        let dense = zeros2(config.hidden_size, config.hidden_size, device);
        let num_heads = config.num_attention_heads;
        let head_dim = config.hidden_size / config.num_attention_heads;
        BLOOMAttention { query_key_value, dense, num_heads, head_dim }
    }

    /// Places the weights on `device`.
    fn to_device(&mut self, device: &Device)
        ensures
            final(self).moved_from(*old(self), *device),
    {
        self.query_key_value = self.query_key_value.to_device(device);
        self.dense = self.dense.to_device(device);
    }
}

impl BLOOMMLP {
    /// The weights as built for `config` on `device`, all zero.
    pub closed spec fn built_for(&self, config: BLOOMConfig, device: Device) -> bool {
        &&& self.dense_h_to_4h.is_f32(seq![config.hidden_size, config.intermediate_size], device)
        &&& self.dense_4h_to_h.is_f32(seq![config.intermediate_size, config.hidden_size], device)
    }

    /// `self` is `old` with its weights placed on `device`.
    pub closed spec fn moved_from(&self, old: Self, device: Device) -> bool {
        &&& self.dense_h_to_4h.is_placed(old.dense_h_to_4h, device)
        &&& self.dense_4h_to_h.is_placed(old.dense_4h_to_h, device)
    }

    fn new(config: &BLOOMConfig, device: &Device) -> (r: Self)
        ensures
            r.built_for(*config, *device),
    {
        let dense_h_to_4h = zeros2(config.hidden_size, config.intermediate_size, device);
        let dense_4h_to_h = zeros2(config.intermediate_size, config.hidden_size, device);
        BLOOMMLP { dense_h_to_4h, dense_4h_to_h }
    }

    /// Places the weights on `device`.
    fn to_device(&mut self, device: &Device)
        ensures
            final(self).moved_from(*old(self), *device),
    {
        self.dense_h_to_4h = self.dense_h_to_4h.to_device(device);
        self.dense_4h_to_h = self.dense_4h_to_h.to_device(device);
    }
}

/// Parameter count used by the memory estimate: the embeddings and eight
/// `hidden_size` squared blocks per layer.
pub open spec fn bloom_param_count(c: BLOOMConfig) -> int {
    c.vocab_size * c.hidden_size + c.num_hidden_layers * 8 * (c.hidden_size * c.hidden_size)
}

/// Bytes of the key and value caches at full context.
pub open spec fn bloom_kv_cache_bytes(c: BLOOMConfig) -> int {
    2 * c.num_hidden_layers * c.max_position_embeddings * c.hidden_size * 4
}

/// No intermediate value of the memory estimate exceeds `usize::MAX`.
pub open spec fn bloom_memory_fits(c: BLOOMConfig) -> bool {
    &&& c.vocab_size * c.hidden_size <= usize::MAX
    &&& c.hidden_size * c.hidden_size <= usize::MAX
    &&& c.num_hidden_layers * 8 <= usize::MAX
    &&& c.num_hidden_layers * 8 * (c.hidden_size * c.hidden_size) <= usize::MAX
    &&& bloom_param_count(c) * 5 <= usize::MAX
    &&& 2 * c.num_hidden_layers <= usize::MAX
    &&& 2 * c.num_hidden_layers * c.max_position_embeddings <= usize::MAX
    &&& 2 * c.num_hidden_layers * c.max_position_embeddings * c.hidden_size <= usize::MAX
    &&& bloom_kv_cache_bytes(c) <= usize::MAX
}

impl BLOOMModelV2 {
    /// Estimated memory: four bytes per parameter on the GPU, one byte per
    /// parameter on the CPU, the full key-value cache, and five bytes per
    /// parameter at peak.
    pub fn memory_requirements(&self) -> (r: MemoryRequirements)
        requires
            bloom_memory_fits(self.spec_config()),
        ensures
            r.gpu_memory == bloom_param_count(self.spec_config()) * 4,
            r.cpu_memory == bloom_param_count(self.spec_config()),
            r.kv_cache_memory == bloom_kv_cache_bytes(self.spec_config()),
            r.peak_memory == bloom_param_count(self.spec_config()) * 5,
    {
        let c = &self.config;
        let p = c.vocab_size * c.hidden_size + c.num_hidden_layers * 8 * (c.hidden_size * c.hidden_size);
        let kv = 2 * c.num_hidden_layers * c.max_position_embeddings * c.hidden_size * 4;
        MemoryRequirements { gpu_memory: p * 4, cpu_memory: p, kv_cache_memory: kv, peak_memory: p * 5 }
    }
}

impl BLOOMModelV2 {
    /// `self` is `old` after loading from `weights`: each weight whose
    /// checkpoint name `weights` holds takes that tensor's shape, element
    /// type, device and elements (as is, or transposed for a matrix product),
    /// and nothing else changes.
    pub closed spec fn loaded(&self, old: Self, weights: ModelWeights) -> bool {
        &&& self.config == old.config
        &&& self.device == old.device
        &&& copied(self.word_embeddings, old.word_embeddings, weights.lookup("transformer.word_embeddings.weight"@))
        &&& copied(self.word_embeddings_layernorm, old.word_embeddings_layernorm, weights.lookup("transformer.word_embeddings_layernorm.weight"@))
        &&& self.layers@.len() == old.layers@.len()
        &&& forall|k: int| 0 <= k < old.layers@.len() ==> #[trigger] self.layers@[k].loaded(old.layers@[k], weights, k)
        &&& copied(self.ln_f, old.ln_f, weights.lookup("transformer.ln_f.weight"@))
        &&& copied(self.lm_head, old.lm_head, first_found(weights, seq!["lm_head.weight"@, "transformer.word_embeddings.weight"@]))
    }

    /// Every tensor that loading from `weights` would transpose has at least
    /// two dimensions.
    pub closed spec fn loadable(&self, weights: ModelWeights) -> bool {
        &&& forall|k: int| 0 <= k < self.layers@.len() ==> #[trigger] self.layers@[k].loadable(weights, k)
    }

    /// Loads the weights of `weights` that this part names.
    fn load_weights(&mut self, weights: &ModelWeights) -> (r: Result<(), ModelError>)
        ensures
            r is Ok <==> old(self).loadable(*weights),
            r is Ok ==> final(self).loaded(*old(self), *weights),
            r matches Err(e) ==> is_transpose_error(e),
    {
        proof {
            reveal_with_fuel(first_found, 3);
        }
        load_copy(&mut self.word_embeddings, weights, "transformer.word_embeddings.weight");
        load_copy(&mut self.lm_head, weights, "transformer.word_embeddings.weight");
        load_copy(&mut self.word_embeddings_layernorm, weights, "transformer.word_embeddings_layernorm.weight");
        load_copy(&mut self.ln_f, weights, "transformer.ln_f.weight");
        load_copy(&mut self.lm_head, weights, "lm_head.weight");
        let mut taken_layers: Vec<BLOOMLayer> = Vec::new();
        std::mem::swap(&mut taken_layers, &mut self.layers);
        self.layers = Self::load_layers(taken_layers, weights)?;
        Ok(())
    }

    /// Loads each of `items`, in order, from `weights`.
    fn load_layers(items: Vec<BLOOMLayer>, weights: &ModelWeights) -> (r: Result<Vec<BLOOMLayer>, ModelError>)
        ensures
            r is Ok <==> forall|k: int| 0 <= k < items@.len() ==> #[trigger] items@[k].loadable(*weights, k),
            r matches Ok(v) ==> v@.len() == items@.len() && forall|k: int| 0 <= k < items@.len() ==> #[trigger] v@[k].loaded(items@[k], *weights, k),
            r matches Err(e) ==> is_transpose_error(e),
    {
        let mut rest = items;
        let mut done: Vec<BLOOMLayer> = Vec::new();
        while rest.len() > 0
            invariant
                done@.len() + rest@.len() == items@.len(),
                rest@ == items@.subrange(done@.len() as int, items@.len() as int),
                forall|k: int| 0 <= k < done@.len() ==> #[trigger] done@[k].loaded(items@[k], *weights, k),
                forall|k: int| 0 <= k < done@.len() ==> #[trigger] items@[k].loadable(*weights, k),
            decreases rest@.len(),
        {
            let n = done.len();
            let mut item = rest.remove(0);
            assert(item == items@[n as int]);
            match item.load_weights(weights, n) {
                Ok(()) => {},
                Err(e) => {
                    assert(!items@[n as int].loadable(*weights, n as int));
                    return Err(e);
                },
            }
            done.push(item);
            assert(rest@ =~= items@.subrange(done@.len() as int, items@.len() as int));
        }
        Ok(done)
    }
}

impl BLOOMLayer {
    /// `self` is `old` after loading from `weights`: each weight whose
    /// checkpoint name `weights` holds takes that tensor's shape, element
    /// type, device and elements (as is, or transposed for a matrix product),
    /// and nothing else changes.
    pub closed spec fn loaded(&self, old: Self, weights: ModelWeights, idx: int) -> bool {
        &&& transposed(self.self_attention.query_key_value, old.self_attention.query_key_value, weights.lookup(indexed("transformer.h."@, idx, ".self_attention.query_key_value.weight"@)))
        &&& transposed(self.self_attention.dense, old.self_attention.dense, weights.lookup(indexed("transformer.h."@, idx, ".self_attention.dense.weight"@)))
        &&& self.self_attention.num_heads == old.self_attention.num_heads
        &&& self.self_attention.head_dim == old.self_attention.head_dim
        &&& transposed(self.mlp.dense_h_to_4h, old.mlp.dense_h_to_4h, weights.lookup(indexed("transformer.h."@, idx, ".mlp.dense_h_to_4h.weight"@)))
        &&& transposed(self.mlp.dense_4h_to_h, old.mlp.dense_4h_to_h, weights.lookup(indexed("transformer.h."@, idx, ".mlp.dense_4h_to_h.weight"@)))
        &&& copied(self.input_layernorm, old.input_layernorm, weights.lookup(indexed("transformer.h."@, idx, ".input_layernorm.weight"@)))
        &&& copied(self.post_attention_layernorm, old.post_attention_layernorm, weights.lookup(indexed("transformer.h."@, idx, ".post_attention_layernorm.weight"@)))
    }

    /// Every tensor that loading from `weights` would transpose has at least
    /// two dimensions.
    pub closed spec fn loadable(&self, weights: ModelWeights, idx: int) -> bool {
        &&& transposable(weights.lookup(indexed("transformer.h."@, idx, ".self_attention.query_key_value.weight"@)))
        &&& transposable(weights.lookup(indexed("transformer.h."@, idx, ".self_attention.dense.weight"@)))
        &&& transposable(weights.lookup(indexed("transformer.h."@, idx, ".mlp.dense_h_to_4h.weight"@)))
        &&& transposable(weights.lookup(indexed("transformer.h."@, idx, ".mlp.dense_4h_to_h.weight"@)))
    }

    /// Loads the weights of `weights` that this part names.
    fn load_weights(&mut self, weights: &ModelWeights, layer_idx: usize) -> (r: Result<(), ModelError>)
        ensures
            r is Ok <==> old(self).loadable(*weights, layer_idx as int),
            r is Ok ==> final(self).loaded(*old(self), *weights, layer_idx as int),
            r matches Err(e) ==> is_transpose_error(e),
    {
        load_transposed(&mut self.self_attention.query_key_value, weights, indexed_name("transformer.h.", layer_idx, ".self_attention.query_key_value.weight").as_str())?;
        load_transposed(&mut self.self_attention.dense, weights, indexed_name("transformer.h.", layer_idx, ".self_attention.dense.weight").as_str())?;
        load_transposed(&mut self.mlp.dense_h_to_4h, weights, indexed_name("transformer.h.", layer_idx, ".mlp.dense_h_to_4h.weight").as_str())?;
        load_transposed(&mut self.mlp.dense_4h_to_h, weights, indexed_name("transformer.h.", layer_idx, ".mlp.dense_4h_to_h.weight").as_str())?;
        load_copy(&mut self.input_layernorm, weights, indexed_name("transformer.h.", layer_idx, ".input_layernorm.weight").as_str());
        load_copy(&mut self.post_attention_layernorm, weights, indexed_name("transformer.h.", layer_idx, ".post_attention_layernorm.weight").as_str());
        Ok(())
    }
}


impl BLOOMModelV2 {
    /// Builds the model for `config` as `new` does and loads the weights that
    /// `weights` holds under their checkpoint names: the result is the built
    /// model with those weights taken, and an error exactly when a tensor that
    /// must be transposed has fewer than two dimensions.
    pub fn from_weights(config: BLOOMConfig, weights: ModelWeights) -> (r: Result<Self, ModelError>)
        requires
            config.num_attention_heads > 0,
            3 * config.hidden_size <= usize::MAX,
        ensures
            exists|built: Self| #[trigger] built.built_for(config, Device::CPU) && built.spec_config() == config
                && built.spec_device() == Device::CPU && (r is Ok <==> built.loadable(weights))
                && (r matches Ok(m) ==> m.spec_config() == config && m.spec_device() == Device::CPU && m.loaded(built, weights))
                && (r matches Err(e) ==> is_transpose_error(e)),
    {
        let mut model = match Self::new(config) {
            Ok(m) => m,
            Err(e) => {
                return Err(e);
            },
        };
        let ghost built = model;
        match model.load_weights(&weights) {
            Ok(()) => {
                assert(built.built_for(config, Device::CPU));
                Ok(model)
            },
            Err(e) => {
                assert(built.built_for(config, Device::CPU));
                Err(e)
            },
        }
    }
}

impl BLOOMModelV2 {
    /// Moving to `d1` and then to `d2` leaves the model as a single move to
    /// `d2` would: the second move overrides the first.
    pub proof fn lemma_moves_compose(first: Self, second: Self, third: Self, d1: Device, d2: Device)
        requires
            second.moved_from(first, d1),
            third.moved_from(second, d2),
        ensures
            third.moved_from(first, d2),
    {
        assert forall|k: int| 0 <= k < third.layers@.len() implies #[trigger] third.layers@[k].moved_from(first.layers@[k], d2) by {
            BLOOMLayer::lemma_moves_compose(first.layers@[k], second.layers@[k], third.layers@[k], d1, d2);
        }
    }
}

impl BLOOMLayer {
    /// A move to `d1` followed by a move to `d2` is a move to `d2`.
    proof fn lemma_moves_compose(first: Self, second: Self, third: Self, d1: Device, d2: Device)
        requires
            second.moved_from(first, d1),
            third.moved_from(second, d2),
        ensures
            third.moved_from(first, d2),
    {
        BLOOMAttention::lemma_moves_compose(first.self_attention, second.self_attention, third.self_attention, d1, d2);
        BLOOMMLP::lemma_moves_compose(first.mlp, second.mlp, third.mlp, d1, d2);
    }
}

impl BLOOMAttention {
    /// A move to `d1` followed by a move to `d2` is a move to `d2`.
    proof fn lemma_moves_compose(first: Self, second: Self, third: Self, d1: Device, d2: Device)
        requires
            second.moved_from(first, d1),
            third.moved_from(second, d2),
        ensures
            third.moved_from(first, d2),
    {
    }
}

impl BLOOMMLP {
    /// A move to `d1` followed by a move to `d2` is a move to `d2`.
    proof fn lemma_moves_compose(first: Self, second: Self, third: Self, d1: Device, d2: Device)
        requires
            second.moved_from(first, d1),
            third.moved_from(second, d2),
        ensures
            third.moved_from(first, d2),
    {
    }
}

} // verus!

verus! {

impl BLOOMConfig {
    /// The default configuration has these sizes: the clauses below.
    pub proof fn lemma_default_sizes(&self)
        requires
            self.gguf_fields_default(),
        ensures
            self.vocab_size == 250880,
            self.hidden_size == 2048,
            self.intermediate_size == 8192,
            self.num_hidden_layers == 24,
            self.num_attention_heads == 16,
            self.num_key_value_heads == 16,
            self.max_position_embeddings == 2048,
    {
    }

    /// The default configuration has these remaining settings: the clauses below.
    pub proof fn lemma_default_settings(&self)
        requires
            self.other_fields_default(),
        ensures
            self.hidden_act@ == "gelu"@,
            self.initializer_range.bits == 0x3ca3d70a,
            self.layer_norm_eps.bits == 0x3727c5ac,
            self.use_cache == true,
            self.pad_token_id == 3,
            self.bos_token_id == 1,
            self.eos_token_id == 2,
            self.tie_word_embeddings == true,
            self.apply_residual_connection_post_layernorm == false,
    {
    }

    /// The default configuration is the one with the default sizes and settings: the clauses below.
    pub proof fn lemma_default_parts(&self)
        requires
            self.is_default(),
        ensures
            ({
            self.gguf_fields_default() && self.other_fields_default()
        }),
    {
    }
}

impl BLOOMModelV2 {
    /// Built for `config` on `device`, each weight is the zero tensor of the shape the configuration gives, on `device`, and each recorded size is the configured one: the clauses below.
    pub proof fn lemma_built_weights(&self, config: BLOOMConfig, device: Device)
        requires
            self.built_for(config, device),
        ensures
            self.word_embeddings.is_f32(seq![config.vocab_size, config.hidden_size], device),
            self.word_embeddings_layernorm.is_f32(seq![config.hidden_size], device),
            self.layers@.len() == config.num_hidden_layers,
            forall|k: int| 0 <= k < self.layers@.len() ==> #[trigger] self.layers@[k].built_for(config, device),
            self.ln_f.is_f32(seq![config.hidden_size], device),
            self.lm_head.same(self.word_embeddings),
    {
    }

    /// After a move to `device`, every weight lies on `device` with its shape, element type and elements kept, and nothing else changes: the clauses below.
    pub proof fn lemma_moved_weights(&self, before: Self, device: Device)
        requires
            self.moved_from(before, device),
        ensures
            self.config == before.config,
            self.device == device,
            self.word_embeddings.is_placed(before.word_embeddings, device),
            self.word_embeddings_layernorm.is_placed(before.word_embeddings_layernorm, device),
            self.layers@.len() == before.layers@.len(),
            forall|k: int| 0 <= k < self.layers@.len() ==> #[trigger] self.layers@[k].moved_from(before.layers@[k], device),
            self.ln_f.is_placed(before.ln_f, device),
            self.lm_head.is_placed(before.lm_head, device),
    {
    }

    /// After loading from `weights`, each weight holds the tensor stored under its checkpoint name, copied or transposed, and keeps its previous value when the name is absent; nothing else changes: the clauses below.
    pub proof fn lemma_loaded_weights(&self, before: Self, weights: ModelWeights)
        requires
            self.loaded(before, weights),
        ensures
            self.config == before.config,
            self.device == before.device,
            copied(self.word_embeddings, before.word_embeddings, weights.lookup("transformer.word_embeddings.weight"@)),
            copied(self.word_embeddings_layernorm, before.word_embeddings_layernorm, weights.lookup("transformer.word_embeddings_layernorm.weight"@)),
            self.layers@.len() == before.layers@.len(),
            forall|k: int| 0 <= k < before.layers@.len() ==> #[trigger] self.layers@[k].loaded(before.layers@[k], weights, k),
            copied(self.ln_f, before.ln_f, weights.lookup("transformer.ln_f.weight"@)),
            copied(self.lm_head, before.lm_head, first_found(weights, seq!["lm_head.weight"@, "transformer.word_embeddings.weight"@])),
    {
    }

    /// Loading from `weights` succeeds only when every tensor it must transpose, found under these checkpoint names, has at least two dimensions: the clauses below.
    pub proof fn lemma_loadable_names(&self, weights: ModelWeights)
        requires
            self.loadable(weights),
        ensures
            forall|k: int| 0 <= k < self.layers@.len() ==> #[trigger] self.layers@[k].loadable(weights, k),
    {
    }
}

impl BLOOMLayer {
    /// Built for `config` on `device`, each weight is the zero tensor of the shape the configuration gives, on `device`, and each recorded size is the configured one: the clauses below.
    pub proof fn lemma_built_weights(&self, config: BLOOMConfig, device: Device)
        requires
            self.built_for(config, device),
        ensures
            self.self_attention.built_for(config, device),
            self.mlp.built_for(config, device),
            self.input_layernorm.is_f32(seq![config.hidden_size], device),
            self.post_attention_layernorm.is_f32(seq![config.hidden_size], device),
    {
    }

    /// After a move to `device`, every weight lies on `device` with its shape, element type and elements kept, and nothing else changes: the clauses below.
    pub proof fn lemma_moved_weights(&self, before: Self, device: Device)
        requires
            self.moved_from(before, device),
        ensures
            self.self_attention.moved_from(before.self_attention, device),
            self.mlp.moved_from(before.mlp, device),
            self.input_layernorm.is_placed(before.input_layernorm, device),
            self.post_attention_layernorm.is_placed(before.post_attention_layernorm, device),
    {
    }

    /// After loading from `weights`, each weight holds the tensor stored under its checkpoint name, copied or transposed, and keeps its previous value when the name is absent; nothing else changes: the clauses below.
    pub proof fn lemma_loaded_weights(&self, before: Self, weights: ModelWeights, idx: int)
        requires
            self.loaded(before, weights, idx),
        ensures
            transposed(self.self_attention.query_key_value, before.self_attention.query_key_value, weights.lookup(indexed("transformer.h."@, idx, ".self_attention.query_key_value.weight"@))),
            transposed(self.self_attention.dense, before.self_attention.dense, weights.lookup(indexed("transformer.h."@, idx, ".self_attention.dense.weight"@))),
            self.self_attention.num_heads == before.self_attention.num_heads,
            self.self_attention.head_dim == before.self_attention.head_dim,
            transposed(self.mlp.dense_h_to_4h, before.mlp.dense_h_to_4h, weights.lookup(indexed("transformer.h."@, idx, ".mlp.dense_h_to_4h.weight"@))),
            transposed(self.mlp.dense_4h_to_h, before.mlp.dense_4h_to_h, weights.lookup(indexed("transformer.h."@, idx, ".mlp.dense_4h_to_h.weight"@))),
            copied(self.input_layernorm, before.input_layernorm, weights.lookup(indexed("transformer.h."@, idx, ".input_layernorm.weight"@))),
            copied(self.post_attention_layernorm, before.post_attention_layernorm, weights.lookup(indexed("transformer.h."@, idx, ".post_attention_layernorm.weight"@))),
    {
    }

    /// Loading from `weights` succeeds only when every tensor it must transpose, found under these checkpoint names, has at least two dimensions: the clauses below.
    pub proof fn lemma_loadable_names(&self, weights: ModelWeights, idx: int)
        requires
            self.loadable(weights, idx),
        ensures
            transposable(weights.lookup(indexed("transformer.h."@, idx, ".self_attention.query_key_value.weight"@))),
            transposable(weights.lookup(indexed("transformer.h."@, idx, ".self_attention.dense.weight"@))),
            transposable(weights.lookup(indexed("transformer.h."@, idx, ".mlp.dense_h_to_4h.weight"@))),
            transposable(weights.lookup(indexed("transformer.h."@, idx, ".mlp.dense_4h_to_h.weight"@))),
    {
    }
}

impl BLOOMAttention {
    /// Built for `config` on `device`, each weight is the zero tensor of the shape the configuration gives, on `device`, and each recorded size is the configured one: the clauses below.
    pub proof fn lemma_built_weights(&self, config: BLOOMConfig, device: Device)
        requires
            self.built_for(config, device),
        ensures
            self.query_key_value.is_f32(seq![config.hidden_size, (3 * config.hidden_size) as usize], device),
            self.dense.is_f32(seq![config.hidden_size, config.hidden_size], device),
            self.num_heads == config.num_attention_heads,
            self.head_dim == config.hidden_size / config.num_attention_heads,
    {
    }

    /// After a move to `device`, every weight lies on `device` with its shape, element type and elements kept, and nothing else changes: the clauses below.
    pub proof fn lemma_moved_weights(&self, before: Self, device: Device)
        requires
            self.moved_from(before, device),
        ensures
            self.query_key_value.is_placed(before.query_key_value, device),
            self.dense.is_placed(before.dense, device),
            self.num_heads == before.num_heads,
            self.head_dim == before.head_dim,
    {
    }
}

impl BLOOMMLP {
    /// Built for `config` on `device`, each weight is the zero tensor of the shape the configuration gives, on `device`, and each recorded size is the configured one: the clauses below.
    pub proof fn lemma_built_weights(&self, config: BLOOMConfig, device: Device)
        requires
            self.built_for(config, device),
        ensures
            self.dense_h_to_4h.is_f32(seq![config.hidden_size, config.intermediate_size], device),
            self.dense_4h_to_h.is_f32(seq![config.intermediate_size, config.hidden_size], device),
    {
    }

    /// After a move to `device`, every weight lies on `device` with its shape, element type and elements kept, and nothing else changes: the clauses below.
    pub proof fn lemma_moved_weights(&self, before: Self, device: Device)
        requires
            self.moved_from(before, device),
        ensures
            self.dense_h_to_4h.is_placed(before.dense_h_to_4h, device),
            self.dense_4h_to_h.is_placed(before.dense_4h_to_h, device),
    {
    }
}

/// `bloom_param_count` is, for every configuration, the formula below.
pub proof fn lemma_bloom_param_count_formula(c: BLOOMConfig)
    ensures
        bloom_param_count(c) == (c.vocab_size * c.hidden_size + c.num_hidden_layers * 8 * (c.hidden_size * c.hidden_size)),
{
}

/// `bloom_kv_cache_bytes` is, for every configuration, the formula below.
pub proof fn lemma_bloom_kv_cache_bytes_formula(c: BLOOMConfig)
    ensures
        bloom_kv_cache_bytes(c) == (2 * c.num_hidden_layers * c.max_position_embeddings * c.hidden_size * 4),
{
}

} // verus!
