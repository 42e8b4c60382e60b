//! The GPT-2 model.
use vstd::prelude::*;
use crate::common::F32Bits;
use crate::gguf::GGUFModelConfig;
use crate::common::{MemoryRequirements, ModelError};
use crate::tensor::{zeros1, zeros2, Device, Tensor};
use crate::weights::{copied, transposed, transposable, is_transpose_error, indexed, indexed_name, load_copy, load_transposed, ModelWeights};

verus! {

/// Hyperparameters of the GPT-2 model.
#[derive(Clone, Debug)]
pub struct GPT2Config {
    pub vocab_size: usize,
    pub hidden_size: usize,
    pub intermediate_size: usize,
    pub num_hidden_layers: usize,
    pub num_attention_heads: usize,
    pub num_key_value_heads: usize,
    pub hidden_act: String,
    pub max_position_embeddings: usize,
    pub initializer_range: F32Bits,
    pub layer_norm_eps: F32Bits,
    pub use_cache: bool,
    pub pad_token_id: i64,
    pub bos_token_id: i64,
    pub eos_token_id: i64,
    pub tie_word_embeddings: bool,
    pub attention_dropout: F32Bits,
    pub residual_dropout: F32Bits,
}

impl GPT2Config {
    /// The fields that a GGUF file supplies hold their default values.
    pub open spec fn gguf_fields_default(&self) -> bool {
        &&& self.vocab_size == 50257
        &&& self.hidden_size == 768
        &&& self.intermediate_size == 3072
        &&& self.num_hidden_layers == 12
        &&& self.num_attention_heads == 12
        &&& self.num_key_value_heads == 12
        &&& self.max_position_embeddings == 1024
    }

    /// The fields that a GGUF file does not supply hold their default values.
    pub open spec fn other_fields_default(&self) -> bool {
        &&& self.hidden_act@ == "gelu"@
        &&& self.initializer_range.bits == 0x3ca3d70a
        &&& self.layer_norm_eps.bits == 0x3727c5ac
        &&& self.use_cache == true
        &&& self.pad_token_id == 50256
        &&& self.bos_token_id == 50256
        &&& self.eos_token_id == 50256
        &&& self.tie_word_embeddings == true
        &&& self.attention_dropout.bits == 0x3dcccccd
        &&& self.residual_dropout.bits == 0x3dcccccd
    }

    /// Every field holds its default value.
    pub open spec fn is_default(&self) -> bool {
        self.gguf_fields_default() && self.other_fields_default()
    }

    /// The configuration described by a GGUF file: the architecture fields it
    /// carries, and the defaults for the rest.
    pub fn from_gguf_config(gguf: &GGUFModelConfig) -> (r: Self)
        ensures
            r.vocab_size == gguf.vocab_size,
            r.hidden_size == gguf.hidden_size,
            r.intermediate_size == gguf.intermediate_size,
            r.num_hidden_layers == gguf.num_hidden_layers,
            r.num_attention_heads == gguf.num_attention_heads,
            r.num_key_value_heads == gguf.num_key_value_heads,
            r.max_position_embeddings == gguf.max_position_embeddings,
            r.other_fields_default(),
    {
        let d = Self::default();
        Self {
            vocab_size: gguf.vocab_size,
            hidden_size: gguf.hidden_size,
            intermediate_size: gguf.intermediate_size,
            num_hidden_layers: gguf.num_hidden_layers,
            num_attention_heads: gguf.num_attention_heads,
            num_key_value_heads: gguf.num_key_value_heads,
            max_position_embeddings: gguf.max_position_embeddings,
            ..d
        }
    }

    /// Size of the token vocabulary.
    pub fn vocab_size(&self) -> (r: usize)
        ensures
            r == self.vocab_size,
    {
        self.vocab_size
    }

    /// Width of the hidden states.
    pub fn hidden_size(&self) -> (r: usize)
        ensures
            r == self.hidden_size,
    {
        self.hidden_size
    }

    /// Number of transformer (or state-space) layers.
    pub fn num_layers(&self) -> (r: usize)
        ensures
            r == self.num_hidden_layers,
    {
        self.num_hidden_layers
    }
}

impl Default for GPT2Config {
    fn default() -> (r: Self)
        ensures
            r.is_default(),
    {
        Self {
            vocab_size: 50257,
            hidden_size: 768,
            intermediate_size: 3072,
            num_hidden_layers: 12,
            num_attention_heads: 12,
            num_key_value_heads: 12,
            hidden_act: String::from_str("gelu"),
            max_position_embeddings: 1024,
            initializer_range: F32Bits::from_bits(0x3ca3d70a),
            layer_norm_eps: F32Bits::from_bits(0x3727c5ac),
            use_cache: true,
            pad_token_id: 50256,
            bos_token_id: 50256,
            eos_token_id: 50256,
            tie_word_embeddings: true,
            attention_dropout: F32Bits::from_bits(0x3dcccccd),
            residual_dropout: F32Bits::from_bits(0x3dcccccd),
        }
    }
}

/// The GPT-2 decoder: token and position embeddings, the layers, a final norm, and the output head (the token embeddings themselves when tied).
pub struct GPT2ModelV2 {
    pub config: GPT2Config,
    pub device: Device,
    pub wte: Tensor,
    pub wpe: Tensor,
    pub layers: Vec<GPT2Layer>,
    pub ln_f: Tensor,
    pub lm_head: Tensor,
}

/// A GPT-2 layer: attention and MLP, each after a layer norm.
pub struct GPT2Layer {
    pub attn: GPT2Attention,
    pub mlp: GPT2MLP,
    pub ln_1: Tensor,
    pub ln_2: Tensor,
}

/// GPT-2 attention: a combined query-key-value projection and an output projection.
pub struct GPT2Attention {
    pub c_attn: Tensor,
    pub c_proj: Tensor,
    pub num_heads: usize,
    pub head_dim: usize,
}

/// GPT-2 feed-forward block: up to the intermediate width and back.
pub struct GPT2MLP {
    pub c_fc: Tensor,
    pub c_proj: Tensor,
}

impl GPT2ModelV2 {
    /// The model as built for `config` on `device`: zero token embeddings `[vocab_size, hidden_size]`, position embeddings `[max_position_embeddings, hidden_size]`, `num_hidden_layers` layers, the final norm, and a head that describes the embeddings when `tie_word_embeddings` and is a zero `[hidden_size, vocab_size]` matrix otherwise.
    pub closed spec fn built_for(&self, config: GPT2Config, device: Device) -> bool {
        &&& self.wte.is_f32(seq![config.vocab_size, config.hidden_size], device)
        &&& self.wpe.is_f32(seq![config.max_position_embeddings, config.hidden_size], device)
        &&& self.layers@.len() == config.num_hidden_layers
        &&& forall|k: int| 0 <= k < self.layers@.len() ==> #[trigger] self.layers@[k].built_for(config, device)
        &&& self.ln_f.is_f32(seq![config.hidden_size], device)
        &&& (if config.tie_word_embeddings { self.lm_head.same(self.wte) } else { self.lm_head.is_f32(seq![config.hidden_size, config.vocab_size], device) })
    }

    /// `self` is `old` moved to `device`: every weight placed there and the device recorded.
    pub closed spec fn moved_from(&self, old: Self, device: Device) -> bool {
        &&& self.config == old.config
        &&& self.device == device
        &&& self.wte.is_placed(old.wte, device)
        &&& self.wpe.is_placed(old.wpe, device)
        &&& self.layers@.len() == old.layers@.len()
        &&& forall|k: int| 0 <= k < self.layers@.len() ==> #[trigger] self.layers@[k].moved_from(old.layers@[k], device)
        &&& self.ln_f.is_placed(old.ln_f, device)
        &&& self.lm_head.is_placed(old.lm_head, device)
    }

    /// The configuration the model was built with.
    pub closed spec fn spec_config(&self) -> GPT2Config {
        self.config
    }

    /// The device the model reports.
    pub closed spec fn spec_device(&self) -> Device {
        self.device
    }

    /// Builds the model for `config` on the CPU, with zero weights.
    pub fn new(config: GPT2Config) -> (r: Result<Self, ModelError>)
        requires
            config.num_attention_heads > 0,
            3 * config.hidden_size <= usize::MAX,
        ensures
            r matches Ok(m) && m.spec_config() == config && m.spec_device() == Device::CPU
                && m.built_for(config, Device::CPU),
    {
        let device = Device::CPU;
        let wte = zeros2(config.vocab_size, config.hidden_size, &device);
        let wpe = zeros2(config.max_position_embeddings, config.hidden_size, &device);
        let mut layers: Vec<GPT2Layer> = Vec::new();
        let mut n: usize = 0;
        while n < config.num_hidden_layers
            invariant
                n <= config.num_hidden_layers,
                config.num_attention_heads > 0,
                3 * config.hidden_size <= usize::MAX,
                layers@.len() == n,
                forall|k: int| 0 <= k < n ==> #[trigger] layers@[k].built_for(config, device),
            decreases config.num_hidden_layers - n,
        {
            layers.push(GPT2Layer::new(&config, &device));
            n += 1;
        }
        let ln_f = zeros1(config.hidden_size, &device);
        let lm_head = if config.tie_word_embeddings { wte.duplicate() } else { zeros2(config.hidden_size, config.vocab_size, &device) };
        Ok(GPT2ModelV2 { config, device, wte, wpe, layers, ln_f, lm_head })
    }

    /// The configuration the model was built with.
    pub fn config(&self) -> (r: &GPT2Config)
        ensures
            *r == self.spec_config(),
    {
        &self.config
    }

    /// Moves the model to `device`.
    pub fn to_device(&mut self, device: &Device) -> (r: Result<(), ModelError>)
        ensures
            r is Ok,
            final(self).moved_from(*old(self), *device),
    {
        self.wte = self.wte.to_device(device);
        self.wpe = self.wpe.to_device(device);
        let mut taken_layers: Vec<GPT2Layer> = Vec::new();
        std::mem::swap(&mut taken_layers, &mut self.layers);
        self.layers = GPT2Layer::all_to_device(taken_layers, device);
        self.ln_f = self.ln_f.to_device(device);
        self.lm_head = self.lm_head.to_device(device);
        self.device = *device;
        Ok(())
    }
}

impl GPT2Layer {
    /// The weights as built for `config` on `device`, all zero.
    pub closed spec fn built_for(&self, config: GPT2Config, device: Device) -> bool {
        &&& self.attn.built_for(config, device)
        &&& self.mlp.built_for(config, device)
        &&& self.ln_1.is_f32(seq![config.hidden_size], device)
        &&& self.ln_2.is_f32(seq![config.hidden_size], device)
    }

    /// `self` is `old` with its weights placed on `device`.
    pub closed spec fn moved_from(&self, old: Self, device: Device) -> bool {
        &&& self.attn.moved_from(old.attn, device)
        &&& self.mlp.moved_from(old.mlp, device)
        &&& self.ln_1.is_placed(old.ln_1, device)
        &&& self.ln_2.is_placed(old.ln_2, device)
    }

    fn new(config: &GPT2Config, device: &Device) -> (r: Self)
        requires
            config.num_attention_heads > 0,
            3 * config.hidden_size <= usize::MAX,
        ensures
            r.built_for(*config, *device),
    {
        let attn = GPT2Attention::new(config, device);
        let mlp = GPT2MLP::new(config, device);
        let ln_1 = zeros1(config.hidden_size, device);
        let ln_2 = zeros1(config.hidden_size, device);
        GPT2Layer { attn, mlp, ln_1, ln_2 }
    }

    /// Places the weights on `device`.
    fn to_device(&mut self, device: &Device)
        ensures
            final(self).moved_from(*old(self), *device),
    {
        self.attn.to_device(device);
        self.mlp.to_device(device);
        self.ln_1 = self.ln_1.to_device(device);
        self.ln_2 = self.ln_2.to_device(device);
    }

    /// The layers, in order, each with its weights placed on `device`.
    fn all_to_device(layers: Vec<GPT2Layer>, device: &Device) -> (r: Vec<GPT2Layer>)
        ensures
            r@.len() == layers@.len(),
            forall|k: int| 0 <= k < r@.len() ==> #[trigger] r@[k].moved_from(layers@[k], *device),
    {
        let mut rest = layers;
        let mut moved: Vec<GPT2Layer> = Vec::new();
        while rest.len() > 0
            invariant
                moved@.len() + rest@.len() == layers@.len(),
                rest@ == layers@.subrange(moved@.len() as int, layers@.len() as int),
                forall|k: int| 0 <= k < moved@.len() ==> #[trigger] moved@[k].moved_from(layers@[k], *device),
            decreases rest@.len(),
        {
            let mut layer = rest.remove(0);
            assert(layer == layers@[moved@.len() as int]);
            layer.to_device(device);
            moved.push(layer);
            assert(rest@ =~= layers@.subrange(moved@.len() as int, layers@.len() as int));
        }
        moved
    }
}

impl GPT2Attention {
    /// The weights as built for `config` on `device`, all zero.
    pub closed spec fn built_for(&self, config: GPT2Config, device: Device) -> bool {
        &&& self.c_attn.is_f32(seq![config.hidden_size, (3 * config.hidden_size) as usize], device)
        &&& self.c_proj.is_f32(seq![config.hidden_size, config.hidden_size], device)
        &&& self.num_heads == config.num_attention_heads
        &&& self.head_dim == config.hidden_size / config.num_attention_heads
    }

    /// `self` is `old` with its weights placed on `device`.
    pub closed spec fn moved_from(&self, old: Self, device: Device) -> bool {
        &&& self.c_attn.is_placed(old.c_attn, device)
        &&& self.c_proj.is_placed(old.c_proj, device)
        &&& self.num_heads == old.num_heads
        &&& self.head_dim == old.head_dim
    }

    fn new(config: &GPT2Config, device: &Device) -> (r: Self)
        requires
            config.num_attention_heads > 0,
            3 * config.hidden_size <= usize::MAX,
        ensures
            r.built_for(*config, *device),
    {
        let c_attn = zeros2(config.hidden_size, 3 * config.hidden_size, device);
        let c_proj = zeros2(config.hidden_size, config.hidden_size, device);
        let num_heads = config.num_attention_heads;
        let head_dim = config.hidden_size / config.num_attention_heads;
        GPT2Attention { c_attn, c_proj, num_heads, head_dim }
    }

    /// Places the weights on `device`.
    fn to_device(&mut self, device: &Device)
        ensures
            final(self).moved_from(*old(self), *device),
    {
        self.c_attn = self.c_attn.to_device(device);
        self.c_proj = self.c_proj.to_device(device);
    }
}

impl GPT2MLP {
    /// The weights as built for `config` on `device`, all zero.
    pub closed spec fn built_for(&self, config: GPT2Config, device: Device) -> bool {
        &&& self.c_fc.is_f32(seq![config.hidden_size, config.intermediate_size], device)
        &&& self.c_proj.is_f32(seq![config.intermediate_size, config.hidden_size], device)
    }

    /// `self` is `old` with its weights placed on `device`.
    pub closed spec fn moved_from(&self, old: Self, device: Device) -> bool {
        &&& self.c_fc.is_placed(old.c_fc, device)
        &&& self.c_proj.is_placed(old.c_proj, device)
    }

    fn new(config: &GPT2Config, device: &Device) -> (r: Self)
        ensures
            r.built_for(*config, *device),
    {
        let c_fc = zeros2(config.hidden_size, config.intermediate_size, device);
        let c_proj = zeros2(config.intermediate_size, config.hidden_size, device);
        GPT2MLP { c_fc, c_proj }
    }

    /// Places the weights on `device`.
    fn to_device(&mut self, device: &Device)
        ensures
            final(self).moved_from(*old(self), *device),
    {
        self.c_fc = self.c_fc.to_device(device);
        self.c_proj = self.c_proj.to_device(device);
    }
}
/// Parameter count of the estimate: token and position embeddings, and per layer three attention and two MLP matrices.
pub open spec fn gpt2_param_count(c: GPT2Config) -> int {
    c.vocab_size * c.hidden_size + c.max_position_embeddings * c.hidden_size + c.num_hidden_layers * (3 * c.hidden_size * c.hidden_size + 2 * c.hidden_size * c.intermediate_size)
}

/// Parameter bytes: four per parameter.
pub open spec fn gpt2_param_bytes(c: GPT2Config) -> int {
    gpt2_param_count(c) * 4
}

/// Bytes of the key and value caches at full context.
pub open spec fn gpt2_kv_cache_bytes(c: GPT2Config) -> int {
    2 * c.num_hidden_layers * c.max_position_embeddings * c.hidden_size * 4
}

/// No step of the memory estimate for `GPT2Config` leaves the range of `usize`
/// or divides by zero.
pub open spec fn gpt2_memory_fits(c: GPT2Config) -> bool {
    &&& c.vocab_size * c.hidden_size <= usize::MAX
    &&& c.max_position_embeddings * c.hidden_size <= usize::MAX
    &&& c.vocab_size * c.hidden_size + c.max_position_embeddings * c.hidden_size <= usize::MAX
    &&& 3 * c.hidden_size <= usize::MAX
    &&& 3 * c.hidden_size * c.hidden_size <= usize::MAX
    &&& 2 * c.hidden_size <= usize::MAX
    &&& 2 * c.hidden_size * c.intermediate_size <= usize::MAX
    &&& 3 * c.hidden_size * c.hidden_size + 2 * c.hidden_size * c.intermediate_size <= usize::MAX
    &&& c.num_hidden_layers * (3 * c.hidden_size * c.hidden_size + 2 * c.hidden_size * c.intermediate_size) <= usize::MAX
    &&& c.vocab_size * c.hidden_size + c.max_position_embeddings * c.hidden_size + c.num_hidden_layers * (3 * c.hidden_size * c.hidden_size + 2 * c.hidden_size * c.intermediate_size) <= usize::MAX
    &&& (c.vocab_size * c.hidden_size + c.max_position_embeddings * c.hidden_size + c.num_hidden_layers * (3 * c.hidden_size * c.hidden_size + 2 * c.hidden_size * c.intermediate_size)) * 4 <= usize::MAX
    &&& 2 * c.num_hidden_layers <= usize::MAX
    &&& 2 * c.num_hidden_layers * c.max_position_embeddings <= usize::MAX
    &&& 2 * c.num_hidden_layers * c.max_position_embeddings * c.hidden_size <= usize::MAX
    &&& 2 * c.num_hidden_layers * c.max_position_embeddings * c.hidden_size * 4 <= usize::MAX
    &&& (c.vocab_size * c.hidden_size + c.max_position_embeddings * c.hidden_size + c.num_hidden_layers * (3 * c.hidden_size * c.hidden_size + 2 * c.hidden_size * c.intermediate_size)) * 4 + 2 * c.num_hidden_layers * c.max_position_embeddings * c.hidden_size * 4 <= usize::MAX
}

impl GPT2ModelV2 {
    /// Estimated memory: the parameter bytes on the GPU, a quarter of them on the CPU, the full key-value cache, and parameters plus cache at peak.
    pub fn memory_requirements(&self) -> (r: MemoryRequirements)
        requires
            gpt2_memory_fits(self.spec_config()),
        ensures
            r.gpu_memory == gpt2_param_bytes(self.spec_config()),
            r.cpu_memory == gpt2_param_bytes(self.spec_config()) / 4,
            r.kv_cache_memory == gpt2_kv_cache_bytes(self.spec_config()),
            r.peak_memory == gpt2_param_bytes(self.spec_config()) + gpt2_kv_cache_bytes(self.spec_config()),
    {
        let c = &self.config;
        let param_count = c.vocab_size * c.hidden_size + c.max_position_embeddings * c.hidden_size + c.num_hidden_layers * (3 * c.hidden_size * c.hidden_size + 2 * c.hidden_size * c.intermediate_size);
        let param_bytes = param_count * 4;
        let kv_cache_bytes = 2 * c.num_hidden_layers * c.max_position_embeddings * c.hidden_size * 4;
        MemoryRequirements {
            gpu_memory: param_bytes,
            cpu_memory: param_bytes / 4,
            kv_cache_memory: kv_cache_bytes,
            peak_memory: param_bytes + kv_cache_bytes,
        }
    }
}

impl GPT2Layer {
    /// `self` is `old` after loading from `weights`: each weight whose
    /// checkpoint name `weights` holds takes that tensor's shape, element
    /// type, device and elements (as is, or transposed for a matrix product),
    /// and nothing else changes.
    pub closed spec fn loaded(&self, old: Self, weights: ModelWeights, idx: int) -> bool {
        &&& transposed(self.attn.c_attn, old.attn.c_attn, weights.lookup(indexed("h."@, idx, ".attn.c_attn.weight"@)))
        &&& transposed(self.attn.c_proj, old.attn.c_proj, weights.lookup(indexed("h."@, idx, ".attn.c_proj.weight"@)))
        &&& self.attn.num_heads == old.attn.num_heads
        &&& self.attn.head_dim == old.attn.head_dim
        &&& transposed(self.mlp.c_fc, old.mlp.c_fc, weights.lookup(indexed("h."@, idx, ".mlp.c_fc.weight"@)))
        &&& transposed(self.mlp.c_proj, old.mlp.c_proj, weights.lookup(indexed("h."@, idx, ".mlp.c_proj.weight"@)))
        &&& copied(self.ln_1, old.ln_1, weights.lookup(indexed("h."@, idx, ".ln_1.weight"@)))
        &&& copied(self.ln_2, old.ln_2, weights.lookup(indexed("h."@, idx, ".ln_2.weight"@)))
    }

    /// Every tensor that loading from `weights` would transpose has at least
    /// two dimensions.
    pub closed spec fn loadable(&self, weights: ModelWeights, idx: int) -> bool {
        &&& transposable(weights.lookup(indexed("h."@, idx, ".attn.c_attn.weight"@)))
        &&& transposable(weights.lookup(indexed("h."@, idx, ".attn.c_proj.weight"@)))
        &&& transposable(weights.lookup(indexed("h."@, idx, ".mlp.c_fc.weight"@)))
        &&& transposable(weights.lookup(indexed("h."@, idx, ".mlp.c_proj.weight"@)))
    }

    /// Loads the weights of `weights` that this part names.
    fn load_weights(&mut self, weights: &ModelWeights, layer_idx: usize) -> (r: Result<(), ModelError>)
        ensures
            r is Ok <==> old(self).loadable(*weights, layer_idx as int),
            r is Ok ==> final(self).loaded(*old(self), *weights, layer_idx as int),
            r matches Err(e) ==> is_transpose_error(e),
    {
        load_transposed(&mut self.attn.c_attn, weights, indexed_name("h.", layer_idx, ".attn.c_attn.weight").as_str())?;
        load_transposed(&mut self.attn.c_proj, weights, indexed_name("h.", layer_idx, ".attn.c_proj.weight").as_str())?;
        load_transposed(&mut self.mlp.c_fc, weights, indexed_name("h.", layer_idx, ".mlp.c_fc.weight").as_str())?;
        load_transposed(&mut self.mlp.c_proj, weights, indexed_name("h.", layer_idx, ".mlp.c_proj.weight").as_str())?;
        load_copy(&mut self.ln_1, weights, indexed_name("h.", layer_idx, ".ln_1.weight").as_str());
        load_copy(&mut self.ln_2, weights, indexed_name("h.", layer_idx, ".ln_2.weight").as_str());
        Ok(())
    }
    /// Loads each of `items`, in order, from `weights`.
    fn load_all(items: Vec<GPT2Layer>, weights: &ModelWeights) -> (r: Result<Vec<GPT2Layer>, ModelError>)
        ensures
            r is Ok <==> forall|k: int| 0 <= k < items@.len() ==> #[trigger] items@[k].loadable(*weights, k),
            r matches Ok(v) ==> v@.len() == items@.len() && forall|k: int| 0 <= k < items@.len() ==> #[trigger] v@[k].loaded(items@[k], *weights, k),
            r matches Err(e) ==> is_transpose_error(e),
    {
        let mut rest = items;
        let mut done: Vec<GPT2Layer> = Vec::new();
        while rest.len() > 0
            invariant
                done@.len() + rest@.len() == items@.len(),
                rest@ == items@.subrange(done@.len() as int, items@.len() as int),
                forall|k: int| 0 <= k < done@.len() ==> #[trigger] done@[k].loaded(items@[k], *weights, k),
                forall|k: int| 0 <= k < done@.len() ==> #[trigger] items@[k].loadable(*weights, k),
            decreases rest@.len(),
        {
            let n = done.len();
            let mut item = rest.remove(0);
            assert(item == items@[n as int]);
            match item.load_weights(weights, n) {
                Ok(()) => {},
                Err(e) => {
                    assert(!items@[n as int].loadable(*weights, n as int));
                    return Err(e);
                },
            }
            done.push(item);
            assert(rest@ =~= items@.subrange(done@.len() as int, items@.len() as int));
        }
        Ok(done)
    }
}

impl GPT2ModelV2 {
    /// `self` is `old` after loading from `weights`: the token and position
    /// embeddings and the final norm copied from their checkpoint names when
    /// `weights` holds them; the head a copy of the token embeddings when the
    /// embeddings are tied, else transposed from `lm_head.weight` when
    /// `weights` holds it; each layer loaded; nothing else changed.
    /// Copying or transposing a tensor takes its shape, element type,
    /// device and elements.
    pub closed spec fn loaded(&self, old: Self, weights: ModelWeights) -> bool {
        &&& self.config == old.config
        &&& self.device == old.device
        &&& copied(self.wte, old.wte, weights.lookup("wte.weight"@))
        &&& copied(self.wpe, old.wpe, weights.lookup("wpe.weight"@))
        &&& copied(self.ln_f, old.ln_f, weights.lookup("ln_f.weight"@))
        &&& if old.config.tie_word_embeddings {
            self.lm_head.same(self.wte)
        } else {
            transposed(self.lm_head, old.lm_head, weights.lookup("lm_head.weight"@))
        }
        &&& self.layers@.len() == old.layers@.len()
        &&& forall|k: int| 0 <= k < old.layers@.len() ==> #[trigger] self.layers@[k].loaded(old.layers@[k], weights, k)
    }

    /// Every tensor that loading from `weights` would transpose has at least
    /// two dimensions.
    pub closed spec fn loadable(&self, weights: ModelWeights) -> bool {
        &&& !self.config.tie_word_embeddings ==> transposable(weights.lookup("lm_head.weight"@))
        &&& forall|k: int| 0 <= k < self.layers@.len() ==> #[trigger] self.layers@[k].loadable(weights, k)
    }

    /// Loads the weights of `weights` that this model names.
    fn load_weights(&mut self, weights: &ModelWeights) -> (r: Result<(), ModelError>)
        ensures
            r is Ok <==> old(self).loadable(*weights),
            r is Ok ==> final(self).loaded(*old(self), *weights),
            r matches Err(e) ==> is_transpose_error(e),
    {
        load_copy(&mut self.wte, weights, "wte.weight");
        load_copy(&mut self.wpe, weights, "wpe.weight");
        load_copy(&mut self.ln_f, weights, "ln_f.weight");
        if self.config.tie_word_embeddings {
            self.lm_head = self.wte.duplicate();
        } else {
            load_transposed(&mut self.lm_head, weights, "lm_head.weight")?;
        }
        let mut taken_layers: Vec<GPT2Layer> = Vec::new();
        std::mem::swap(&mut taken_layers, &mut self.layers);
        self.layers = GPT2Layer::load_all(taken_layers, weights)?;
        Ok(())
    }
}

impl GPT2ModelV2 {
    /// Builds the model for `config` as `new` does and loads the weights that
    /// `weights` holds under their checkpoint names: the result is the built
    /// model with those weights taken, and an error exactly when a tensor that
    /// must be transposed has fewer than two dimensions.
    pub fn from_weights(config: GPT2Config, weights: ModelWeights) -> (r: Result<Self, ModelError>)
        requires
            config.num_attention_heads > 0,
            3 * config.hidden_size <= usize::MAX,
        ensures
            exists|built: Self| #[trigger] built.built_for(config, Device::CPU) && built.spec_config() == config
                && built.spec_device() == Device::CPU && (r is Ok <==> built.loadable(weights))
                && (r matches Ok(m) ==> m.spec_config() == config && m.spec_device() == Device::CPU && m.loaded(built, weights))
                && (r matches Err(e) ==> is_transpose_error(e)),
    {
        let mut model = match Self::new(config) {
            Ok(m) => m,
            Err(e) => {
                return Err(e);
            },
        };
        let ghost built = model;
        match model.load_weights(&weights) {
            Ok(()) => {
                assert(built.built_for(config, Device::CPU));
                Ok(model)
            },
            Err(e) => {
                assert(built.built_for(config, Device::CPU));
                Err(e)
            },
        }
    }
}

impl GPT2ModelV2 {
    /// Moving to `d1` and then to `d2` leaves the model as a single move to
    /// `d2` would: the second move overrides the first.
    pub proof fn lemma_moves_compose(first: Self, second: Self, third: Self, d1: Device, d2: Device)
        requires
            second.moved_from(first, d1),
            third.moved_from(second, d2),
        ensures
            third.moved_from(first, d2),
    {
        assert forall|k: int| 0 <= k < third.layers@.len() implies #[trigger] third.layers@[k].moved_from(first.layers@[k], d2) by {
            GPT2Layer::lemma_moves_compose(first.layers@[k], second.layers@[k], third.layers@[k], d1, d2);
        }
    }
}

impl GPT2Layer {
    /// A move to `d1` followed by a move to `d2` is a move to `d2`.
    proof fn lemma_moves_compose(first: Self, second: Self, third: Self, d1: Device, d2: Device)
        requires
            second.moved_from(first, d1),
            third.moved_from(second, d2),
        ensures
            third.moved_from(first, d2),
    {
        GPT2Attention::lemma_moves_compose(first.attn, second.attn, third.attn, d1, d2);
        GPT2MLP::lemma_moves_compose(first.mlp, second.mlp, third.mlp, d1, d2);
    }
}

impl GPT2Attention {
    /// A move to `d1` followed by a move to `d2` is a move to `d2`.
    proof fn lemma_moves_compose(first: Self, second: Self, third: Self, d1: Device, d2: Device)
        requires
            second.moved_from(first, d1),
            third.moved_from(second, d2),
        ensures
            third.moved_from(first, d2),
    {
    }
}

impl GPT2MLP {
    /// A move to `d1` followed by a move to `d2` is a move to `d2`.
    proof fn lemma_moves_compose(first: Self, second: Self, third: Self, d1: Device, d2: Device)
        requires
            second.moved_from(first, d1),
            third.moved_from(second, d2),
        ensures
            third.moved_from(first, d2),
    {
    }
}

} // verus!

verus! {

impl GPT2Config {
    /// The default configuration has these sizes: the clauses below.
    pub proof fn lemma_default_sizes(&self)
        requires
            self.gguf_fields_default(),
        ensures
            self.vocab_size == 50257,
            self.hidden_size == 768,
            self.intermediate_size == 3072,
            self.num_hidden_layers == 12,
            self.num_attention_heads == 12,
            self.num_key_value_heads == 12,
            self.max_position_embeddings == 1024,
    {
    }

    /// The default configuration has these remaining settings: the clauses below.
    pub proof fn lemma_default_settings(&self)
        requires
            self.other_fields_default(),
        ensures
            self.hidden_act@ == "gelu"@,
            self.initializer_range.bits == 0x3ca3d70a,
            self.layer_norm_eps.bits == 0x3727c5ac,
            self.use_cache == true,
            self.pad_token_id == 50256,
            self.bos_token_id == 50256,
            self.eos_token_id == 50256,
            self.tie_word_embeddings == true,
            self.attention_dropout.bits == 0x3dcccccd,
            self.residual_dropout.bits == 0x3dcccccd,
    {
    }

    /// The default configuration is the one with the default sizes and settings: the clauses below.
    pub proof fn lemma_default_parts(&self)
        requires
            self.is_default(),
        ensures
            ({
            self.gguf_fields_default() && self.other_fields_default()
        }),
    {
    }
}

impl GPT2ModelV2 {
    /// Built for `config` on `device`, each weight is the zero tensor of the shape the configuration gives, on `device`, and each recorded size is the configured one: the clauses below.
    pub proof fn lemma_built_weights(&self, config: GPT2Config, device: Device)
        requires
            self.built_for(config, device),
        ensures
            self.wte.is_f32(seq![config.vocab_size, config.hidden_size], device),
            self.wpe.is_f32(seq![config.max_position_embeddings, config.hidden_size], device),
            self.layers@.len() == config.num_hidden_layers,
            forall|k: int| 0 <= k < self.layers@.len() ==> #[trigger] self.layers@[k].built_for(config, device),
            self.ln_f.is_f32(seq![config.hidden_size], device),
            (if config.tie_word_embeddings { self.lm_head.same(self.wte) } else { self.lm_head.is_f32(seq![config.hidden_size, config.vocab_size], device) }),
    {
    }

    /// After a move to `device`, every weight lies on `device` with its shape, element type and elements kept, and nothing else changes: the clauses below.
    pub proof fn lemma_moved_weights(&self, before: Self, device: Device)
        requires
            self.moved_from(before, device),
        ensures
            self.config == before.config,
            self.device == device,
            self.wte.is_placed(before.wte, device),
            self.wpe.is_placed(before.wpe, device),
            self.layers@.len() == before.layers@.len(),
            forall|k: int| 0 <= k < self.layers@.len() ==> #[trigger] self.layers@[k].moved_from(before.layers@[k], device),
            self.ln_f.is_placed(before.ln_f, device),
            self.lm_head.is_placed(before.lm_head, device),
    {
    }

    /// After loading from `weights`, each weight holds the tensor stored under its checkpoint name, copied or transposed, and keeps its previous value when the name is absent; nothing else changes: the clauses below.
    pub proof fn lemma_loaded_weights(&self, before: Self, weights: ModelWeights)
        requires
            self.loaded(before, weights),
        ensures
            self.config == before.config,
            self.device == before.device,
            copied(self.wte, before.wte, weights.lookup("wte.weight"@)),
            copied(self.wpe, before.wpe, weights.lookup("wpe.weight"@)),
            copied(self.ln_f, before.ln_f, weights.lookup("ln_f.weight"@)),
            if before.config.tie_word_embeddings {
                self.lm_head.same(self.wte)
            } else {
                transposed(self.lm_head, before.lm_head, weights.lookup("lm_head.weight"@))
            },
            self.layers@.len() == before.layers@.len(),
            forall|k: int| 0 <= k < before.layers@.len() ==> #[trigger] self.layers@[k].loaded(before.layers@[k], weights, k),
    {
    }

    /// Loading from `weights` succeeds only when every tensor it must transpose, found under these checkpoint names, has at least two dimensions: the clauses below.
    pub proof fn lemma_loadable_names(&self, weights: ModelWeights)
        requires
            self.loadable(weights),
        ensures
            !self.config.tie_word_embeddings ==> transposable(weights.lookup("lm_head.weight"@)),
            forall|k: int| 0 <= k < self.layers@.len() ==> #[trigger] self.layers@[k].loadable(weights, k),
    {
    }
}

impl GPT2Layer {
    /// Built for `config` on `device`, each weight is the zero tensor of the shape the configuration gives, on `device`, and each recorded size is the configured one: the clauses below.
    pub proof fn lemma_built_weights(&self, config: GPT2Config, device: Device)
        requires
            self.built_for(config, device),
        ensures
            self.attn.built_for(config, device),
            self.mlp.built_for(config, device),
            self.ln_1.is_f32(seq![config.hidden_size], device),
            self.ln_2.is_f32(seq![config.hidden_size], device),
    {
    }

    /// After a move to `device`, every weight lies on `device` with its shape, element type and elements kept, and nothing else changes: the clauses below.
    pub proof fn lemma_moved_weights(&self, before: Self, device: Device)
        requires
            self.moved_from(before, device),
        ensures
            self.attn.moved_from(before.attn, device),
            self.mlp.moved_from(before.mlp, device),
            self.ln_1.is_placed(before.ln_1, device),
            self.ln_2.is_placed(before.ln_2, device),
    {
    }

    /// After loading from `weights`, each weight holds the tensor stored under its checkpoint name, copied or transposed, and keeps its previous value when the name is absent; nothing else changes: the clauses below.
    pub proof fn lemma_loaded_weights(&self, before: Self, weights: ModelWeights, idx: int)
        requires
            self.loaded(before, weights, idx),
        ensures
            transposed(self.attn.c_attn, before.attn.c_attn, weights.lookup(indexed("h."@, idx, ".attn.c_attn.weight"@))),
            transposed(self.attn.c_proj, before.attn.c_proj, weights.lookup(indexed("h."@, idx, ".attn.c_proj.weight"@))),
            self.attn.num_heads == before.attn.num_heads,
            self.attn.head_dim == before.attn.head_dim,
            transposed(self.mlp.c_fc, before.mlp.c_fc, weights.lookup(indexed("h."@, idx, ".mlp.c_fc.weight"@))),
            transposed(self.mlp.c_proj, before.mlp.c_proj, weights.lookup(indexed("h."@, idx, ".mlp.c_proj.weight"@))),
            copied(self.ln_1, before.ln_1, weights.lookup(indexed("h."@, idx, ".ln_1.weight"@))),
            copied(self.ln_2, before.ln_2, weights.lookup(indexed("h."@, idx, ".ln_2.weight"@))),
    {
    }

    /// Loading from `weights` succeeds only when every tensor it must transpose, found under these checkpoint names, has at least two dimensions: the clauses below.
    pub proof fn lemma_loadable_names(&self, weights: ModelWeights, idx: int)
        requires
            self.loadable(weights, idx),
        ensures
            transposable(weights.lookup(indexed("h."@, idx, ".attn.c_attn.weight"@))),
            transposable(weights.lookup(indexed("h."@, idx, ".attn.c_proj.weight"@))),
            transposable(weights.lookup(indexed("h."@, idx, ".mlp.c_fc.weight"@))),
            transposable(weights.lookup(indexed("h."@, idx, ".mlp.c_proj.weight"@))),
    {
    }
}

impl GPT2Attention {
    /// Built for `config` on `device`, each weight is the zero tensor of the shape the configuration gives, on `device`, and each recorded size is the configured one: the clauses below.
    pub proof fn lemma_built_weights(&self, config: GPT2Config, device: Device)
        requires
            self.built_for(config, device),
        ensures
            self.c_attn.is_f32(seq![config.hidden_size, (3 * config.hidden_size) as usize], device),
            self.c_proj.is_f32(seq![config.hidden_size, config.hidden_size], device),
            self.num_heads == config.num_attention_heads,
            self.head_dim == config.hidden_size / config.num_attention_heads,
    {
    }

    /// After a move to `device`, every weight lies on `device` with its shape, element type and elements kept, and nothing else changes: the clauses below.
    pub proof fn lemma_moved_weights(&self, before: Self, device: Device)
        requires
            self.moved_from(before, device),
        ensures
            self.c_attn.is_placed(before.c_attn, device),
            self.c_proj.is_placed(before.c_proj, device),
            self.num_heads == before.num_heads,
            self.head_dim == before.head_dim,
    {
    }
}

impl GPT2MLP {
    /// Built for `config` on `device`, each weight is the zero tensor of the shape the configuration gives, on `device`, and each recorded size is the configured one: the clauses below.
    pub proof fn lemma_built_weights(&self, config: GPT2Config, device: Device)
        requires
            self.built_for(config, device),
        ensures
            self.c_fc.is_f32(seq![config.hidden_size, config.intermediate_size], device),
            self.c_proj.is_f32(seq![config.intermediate_size, config.hidden_size], device),
    {
    }

    /// After a move to `device`, every weight lies on `device` with its shape, element type and elements kept, and nothing else changes: the clauses below.
    pub proof fn lemma_moved_weights(&self, before: Self, device: Device)
        requires
            self.moved_from(before, device),
        ensures
            self.c_fc.is_placed(before.c_fc, device),
            self.c_proj.is_placed(before.c_proj, device),
    {
    }
}

/// `gpt2_param_count` is, for every configuration, the formula below.
pub proof fn lemma_gpt2_param_count_formula(c: GPT2Config)
    ensures
        gpt2_param_count(c) == (c.vocab_size * c.hidden_size + c.max_position_embeddings * c.hidden_size + c.num_hidden_layers * (3 * c.hidden_size * c.hidden_size + 2 * c.hidden_size * c.intermediate_size)),
{
}

/// `gpt2_param_bytes` is, for every configuration, the formula below.
pub proof fn lemma_gpt2_param_bytes_formula(c: GPT2Config)
    ensures
        gpt2_param_bytes(c) == (gpt2_param_count(c) * 4),
{
}

/// `gpt2_kv_cache_bytes` is, for every configuration, the formula below.
pub proof fn lemma_gpt2_kv_cache_bytes_formula(c: GPT2Config)
    ensures
        gpt2_kv_cache_bytes(c) == (2 * c.num_hidden_layers * c.max_position_embeddings * c.hidden_size * 4),
{
}

} // verus!
