//! The GPT-J model.
use vstd::prelude::*;
use crate::common::F32Bits;
use crate::gguf::GGUFModelConfig;
use crate::common::{MemoryRequirements, ModelError};
use crate::tensor::{zeros1, zeros2, Device, Tensor};
use crate::weights::{copied, transposed, transposable, is_transpose_error, indexed, indexed_name, load_copy, load_transposed, ModelWeights};

verus! {

/// Hyperparameters of the GPT-J model.
#[derive(Clone, Debug)]
pub struct GPTJConfig {
    pub vocab_size: usize,
    pub hidden_size: usize,
    pub intermediate_size: usize,
    pub num_hidden_layers: usize,
    pub num_attention_heads: usize,
    pub num_key_value_heads: usize,
    pub hidden_act: String,
    pub max_position_embeddings: usize,
    pub initializer_range: F32Bits,
    pub layer_norm_eps: F32Bits,
    pub use_cache: bool,
    pub pad_token_id: i64,
    pub bos_token_id: i64,
    pub eos_token_id: i64,
    pub tie_word_embeddings: bool,
    pub rope_theta: F32Bits,
    pub rotary_dim: usize,
}

impl GPTJConfig {
    /// The fields that a GGUF file supplies hold their default values.
    pub open spec fn gguf_fields_default(&self) -> bool {
        &&& self.vocab_size == 50400
        &&& self.hidden_size == 4096
        &&& self.intermediate_size == 16384
        &&& self.num_hidden_layers == 28
        &&& self.num_attention_heads == 16
        &&& self.num_key_value_heads == 16
        &&& self.max_position_embeddings == 2048
        &&& self.rope_theta.bits == 0x461c4000
    }

    /// The fields that a GGUF file does not supply hold their default values.
    pub open spec fn other_fields_default(&self) -> bool {
        &&& self.hidden_act@ == "gelu"@
        &&& self.initializer_range.bits == 0x3ca3d70a
        &&& self.layer_norm_eps.bits == 0x3727c5ac
        &&& self.use_cache == true
        &&& self.pad_token_id == 50256
        &&& self.bos_token_id == 50256
        &&& self.eos_token_id == 50256
        &&& self.tie_word_embeddings == true
        &&& self.rotary_dim == 64
    }

    /// Every field holds its default value.
    pub open spec fn is_default(&self) -> bool {
        self.gguf_fields_default() && self.other_fields_default()
    }

    /// The configuration described by a GGUF file: the architecture fields it
    /// carries, and the defaults for the rest.
    pub fn from_gguf_config(gguf: &GGUFModelConfig) -> (r: Self)
        ensures
            r.vocab_size == gguf.vocab_size,
            r.hidden_size == gguf.hidden_size,
            r.intermediate_size == gguf.intermediate_size,
            r.num_hidden_layers == gguf.num_hidden_layers,
            r.num_attention_heads == gguf.num_attention_heads,
            r.num_key_value_heads == gguf.num_key_value_heads,
            r.rope_theta == gguf.rope_theta,
            r.max_position_embeddings == gguf.max_position_embeddings,
            r.other_fields_default(),
    {
        let d = Self::default();
        Self {
            vocab_size: gguf.vocab_size,
            hidden_size: gguf.hidden_size,
            intermediate_size: gguf.intermediate_size,
            num_hidden_layers: gguf.num_hidden_layers,
            num_attention_heads: gguf.num_attention_heads,
            num_key_value_heads: gguf.num_key_value_heads,
            rope_theta: gguf.rope_theta,
            max_position_embeddings: gguf.max_position_embeddings,
            ..d
        }
    }

    /// Size of the token vocabulary.
    pub fn vocab_size(&self) -> (r: usize)
        ensures
            r == self.vocab_size,
    {
        self.vocab_size
    }

    /// Width of the hidden states.
    pub fn hidden_size(&self) -> (r: usize)
        ensures
            r == self.hidden_size,
    {
        self.hidden_size
    }

    /// Number of transformer (or state-space) layers.
    pub fn num_layers(&self) -> (r: usize)
        ensures
            r == self.num_hidden_layers,
    {
        self.num_hidden_layers
    }
}

impl Default for GPTJConfig {
    fn default() -> (r: Self)
        ensures
            r.is_default(),
    {
        Self {
            vocab_size: 50400,
            hidden_size: 4096,
            intermediate_size: 16384,
            num_hidden_layers: 28,
            num_attention_heads: 16,
            num_key_value_heads: 16,
            hidden_act: String::from_str("gelu"),
            max_position_embeddings: 2048,
            initializer_range: F32Bits::from_bits(0x3ca3d70a),
            layer_norm_eps: F32Bits::from_bits(0x3727c5ac),
            use_cache: true,
            pad_token_id: 50256,
            bos_token_id: 50256,
            eos_token_id: 50256,
            tie_word_embeddings: true,
            rope_theta: F32Bits::from_bits(0x461c4000),
            rotary_dim: 64,
        }
    }
}

/// The GPT-J decoder: token embeddings, the layers, a final norm, and the output head (the embeddings themselves when tied).
pub struct GPTJModelV2 {
    pub config: GPTJConfig,
    pub device: Device,
    pub wte: Tensor,
    pub layers: Vec<GPTJLayer>,
    pub ln_f: Tensor,
    pub lm_head: Tensor,
}

/// A GPT-J layer: attention and MLP in parallel after one layer norm.
pub struct GPTJLayer {
    pub attn: GPTJAttention,
    pub mlp: GPTJMLP,
    pub ln_1: Tensor,
}

/// GPT-J attention: square query, key, value and output projections, with rotary embedding on the first `rotary_dim` dimensions of each head.
pub struct GPTJAttention {
    pub q_proj: Tensor,
    pub k_proj: Tensor,
    pub v_proj: Tensor,
    pub o_proj: Tensor,
    pub num_heads: usize,
    pub head_dim: usize,
    pub rotary_dim: usize,
}

/// GPT-J feed-forward block: up to the intermediate width and back.
pub struct GPTJMLP {
    pub fc_in: Tensor,
    pub fc_out: Tensor,
}

impl GPTJModelV2 {
    /// The model as built for `config` on `device`: zero embeddings `[vocab_size, hidden_size]`, `num_hidden_layers` layers, the final norm, and a head that describes the embeddings when `tie_word_embeddings` and is a zero `[hidden_size, vocab_size]` matrix otherwise.
    pub closed spec fn built_for(&self, config: GPTJConfig, device: Device) -> bool {
        &&& self.wte.is_f32(seq![config.vocab_size, config.hidden_size], device)
        &&& self.layers@.len() == config.num_hidden_layers
        &&& forall|k: int| 0 <= k < self.layers@.len() ==> #[trigger] self.layers@[k].built_for(config, device)
        &&& self.ln_f.is_f32(seq![config.hidden_size], device)
        &&& (if config.tie_word_embeddings { self.lm_head.same(self.wte) } else { self.lm_head.is_f32(seq![config.hidden_size, config.vocab_size], device) })
    }

    /// `self` is `old` moved to `device`: every weight placed there and the device recorded.
    pub closed spec fn moved_from(&self, old: Self, device: Device) -> bool {
        &&& self.config == old.config
        &&& self.device == device
        &&& self.wte.is_placed(old.wte, device)
        &&& self.layers@.len() == old.layers@.len()
        &&& forall|k: int| 0 <= k < self.layers@.len() ==> #[trigger] self.layers@[k].moved_from(old.layers@[k], device)
        &&& self.ln_f.is_placed(old.ln_f, device)
        &&& self.lm_head.is_placed(old.lm_head, device)
    }

    /// The configuration the model was built with.
    pub closed spec fn spec_config(&self) -> GPTJConfig {
        self.config
    }

    /// The device the model reports.
    pub closed spec fn spec_device(&self) -> Device {
        self.device
    }

    /// Builds the model for `config` on the CPU, with zero weights.
    pub fn new(config: GPTJConfig) -> (r: Result<Self, ModelError>)
        requires
            config.num_attention_heads > 0,
        ensures
            r matches Ok(m) && m.spec_config() == config && m.spec_device() == Device::CPU
                && m.built_for(config, Device::CPU),
    {
        let device = Device::CPU;
        let wte = zeros2(config.vocab_size, config.hidden_size, &device);
        let mut layers: Vec<GPTJLayer> = Vec::new();
        let mut n: usize = 0;
        while n < config.num_hidden_layers
            invariant
                n <= config.num_hidden_layers,
                config.num_attention_heads > 0,
                layers@.len() == n,
                forall|k: int| 0 <= k < n ==> #[trigger] layers@[k].built_for(config, device),
            decreases config.num_hidden_layers - n,
        {
            layers.push(GPTJLayer::new(&config, &device));
            n += 1;
        }
        let ln_f = zeros1(config.hidden_size, &device);
        let lm_head = if config.tie_word_embeddings { wte.duplicate() } else { zeros2(config.hidden_size, config.vocab_size, &device) };
        Ok(GPTJModelV2 { config, device, wte, layers, ln_f, lm_head })
    }

    /// The configuration the model was built with.
    pub fn config(&self) -> (r: &GPTJConfig)
        ensures
            *r == self.spec_config(),
    {
        &self.config
    }

    /// Moves the model to `device`.
    pub fn to_device(&mut self, device: &Device) -> (r: Result<(), ModelError>)
        ensures
            r is Ok,
            final(self).moved_from(*old(self), *device),
    {
        self.wte = self.wte.to_device(device);
        let mut taken_layers: Vec<GPTJLayer> = Vec::new();
        std::mem::swap(&mut taken_layers, &mut self.layers);
        self.layers = GPTJLayer::all_to_device(taken_layers, device);
        self.ln_f = self.ln_f.to_device(device);
        self.lm_head = self.lm_head.to_device(device);
        self.device = *device;
        Ok(())
    }
}

impl GPTJLayer {
    /// The weights as built for `config` on `device`, all zero.
    pub closed spec fn built_for(&self, config: GPTJConfig, device: Device) -> bool {
        &&& self.attn.built_for(config, device)
        &&& self.mlp.built_for(config, device)
        &&& self.ln_1.is_f32(seq![config.hidden_size], device)
    }

    /// `self` is `old` with its weights placed on `device`.
    pub closed spec fn moved_from(&self, old: Self, device: Device) -> bool {
        &&& self.attn.moved_from(old.attn, device)
        &&& self.mlp.moved_from(old.mlp, device)
        &&& self.ln_1.is_placed(old.ln_1, device)
    }

    fn new(config: &GPTJConfig, device: &Device) -> (r: Self)
        requires
            config.num_attention_heads > 0,
        ensures
            r.built_for(*config, *device),
    {
        let attn = GPTJAttention::new(config, device);
        let mlp = GPTJMLP::new(config, device);
        let ln_1 = zeros1(config.hidden_size, device);
        GPTJLayer { attn, mlp, ln_1 }
    }

    /// Places the weights on `device`.
    fn to_device(&mut self, device: &Device)
        ensures
            final(self).moved_from(*old(self), *device),
    {
        self.attn.to_device(device);
        self.mlp.to_device(device);
        self.ln_1 = self.ln_1.to_device(device);
    }

    /// The layers, in order, each with its weights placed on `device`.
    fn all_to_device(layers: Vec<GPTJLayer>, device: &Device) -> (r: Vec<GPTJLayer>)
        ensures
            r@.len() == layers@.len(),
            forall|k: int| 0 <= k < r@.len() ==> #[trigger] r@[k].moved_from(layers@[k], *device),
    {
        let mut rest = layers;
        let mut moved: Vec<GPTJLayer> = Vec::new();
        while rest.len() > 0
            invariant
                moved@.len() + rest@.len() == layers@.len(),
                rest@ == layers@.subrange(moved@.len() as int, layers@.len() as int),
                forall|k: int| 0 <= k < moved@.len() ==> #[trigger] moved@[k].moved_from(layers@[k], *device),
            decreases rest@.len(),
        {
            let mut layer = rest.remove(0);
            assert(layer == layers@[moved@.len() as int]);
            layer.to_device(device);
            moved.push(layer);
            assert(rest@ =~= layers@.subrange(moved@.len() as int, layers@.len() as int));
        }
        moved
    }
}

impl GPTJAttention {
    /// The weights as built for `config` on `device`, all zero.
    pub closed spec fn built_for(&self, config: GPTJConfig, device: Device) -> bool {
        &&& self.q_proj.is_f32(seq![config.hidden_size, config.hidden_size], device)
        &&& self.k_proj.is_f32(seq![config.hidden_size, config.hidden_size], device)
        &&& self.v_proj.is_f32(seq![config.hidden_size, config.hidden_size], device)
        &&& self.o_proj.is_f32(seq![config.hidden_size, config.hidden_size], device)
        &&& self.num_heads == config.num_attention_heads
        &&& self.head_dim == config.hidden_size / config.num_attention_heads
        &&& self.rotary_dim == config.rotary_dim
    }

    /// `self` is `old` with its weights placed on `device`.
    pub closed spec fn moved_from(&self, old: Self, device: Device) -> bool {
        &&& self.q_proj.is_placed(old.q_proj, device)
        &&& self.k_proj.is_placed(old.k_proj, device)
        &&& self.v_proj.is_placed(old.v_proj, device)
        &&& self.o_proj.is_placed(old.o_proj, device)
        &&& self.num_heads == old.num_heads
        &&& self.head_dim == old.head_dim
        &&& self.rotary_dim == old.rotary_dim
    }

    fn new(config: &GPTJConfig, device: &Device) -> (r: Self)
        requires
            config.num_attention_heads > 0,
        ensures
            r.built_for(*config, *device),
    {
        let q_proj = zeros2(config.hidden_size, config.hidden_size, device);
        let k_proj = zeros2(config.hidden_size, config.hidden_size, device);
        let v_proj = zeros2(config.hidden_size, config.hidden_size, device);
        let o_proj = zeros2(config.hidden_size, config.hidden_size, device);
        let num_heads = config.num_attention_heads;
        let head_dim = config.hidden_size / config.num_attention_heads;
        let rotary_dim = config.rotary_dim;
        GPTJAttention { q_proj, k_proj, v_proj, o_proj, num_heads, head_dim, rotary_dim }
    }

    /// Places the weights on `device`.
    fn to_device(&mut self, device: &Device)
        ensures
            final(self).moved_from(*old(self), *device),
    {
        self.q_proj = self.q_proj.to_device(device);
        self.k_proj = self.k_proj.to_device(device);
        self.v_proj = self.v_proj.to_device(device);
        self.o_proj = self.o_proj.to_device(device);
    }
}

impl GPTJMLP {
    /// The weights as built for `config` on `device`, all zero.
    pub closed spec fn built_for(&self, config: GPTJConfig, device: Device) -> bool {
        &&& self.fc_in.is_f32(seq![config.hidden_size, config.intermediate_size], device)
        &&& self.fc_out.is_f32(seq![config.intermediate_size, config.hidden_size], device)
    }

    /// `self` is `old` with its weights placed on `device`.
    pub closed spec fn moved_from(&self, old: Self, device: Device) -> bool {
        &&& self.fc_in.is_placed(old.fc_in, device)
        &&& self.fc_out.is_placed(old.fc_out, device)
    }

    fn new(config: &GPTJConfig, device: &Device) -> (r: Self)
        ensures
            r.built_for(*config, *device),
    {
        let fc_in = zeros2(config.hidden_size, config.intermediate_size, device);
        let fc_out = zeros2(config.intermediate_size, config.hidden_size, device);
        GPTJMLP { fc_in, fc_out }
    }

    /// Places the weights on `device`.
    fn to_device(&mut self, device: &Device)
        ensures
            final(self).moved_from(*old(self), *device),
    {
        self.fc_in = self.fc_in.to_device(device);
        self.fc_out = self.fc_out.to_device(device);
    }
}
/// Parameter count of the estimate: embeddings, and per layer four attention and two MLP matrices.
pub open spec fn gptj_param_count(c: GPTJConfig) -> int {
    c.vocab_size * c.hidden_size + c.num_hidden_layers * (4 * (c.hidden_size * c.hidden_size) + 2 * c.hidden_size * c.intermediate_size)
}

/// No step of the memory estimate for `GPTJConfig` leaves the range of `usize`
/// or divides by zero.
pub open spec fn gptj_memory_fits(c: GPTJConfig) -> bool {
    &&& c.vocab_size * c.hidden_size <= usize::MAX
    &&& c.hidden_size * c.hidden_size <= usize::MAX
    &&& 4 * (c.hidden_size * c.hidden_size) <= usize::MAX
    &&& 2 * c.hidden_size <= usize::MAX
    &&& 2 * c.hidden_size * c.intermediate_size <= usize::MAX
    &&& 4 * (c.hidden_size * c.hidden_size) + 2 * c.hidden_size * c.intermediate_size <= usize::MAX
    &&& c.num_hidden_layers * (4 * (c.hidden_size * c.hidden_size) + 2 * c.hidden_size * c.intermediate_size) <= usize::MAX
    &&& c.vocab_size * c.hidden_size + c.num_hidden_layers * (4 * (c.hidden_size * c.hidden_size) + 2 * c.hidden_size * c.intermediate_size) <= usize::MAX
    &&& (c.vocab_size * c.hidden_size + c.num_hidden_layers * (4 * (c.hidden_size * c.hidden_size) + 2 * c.hidden_size * c.intermediate_size)) * 4 <= usize::MAX
    &&& 2 * c.num_hidden_layers <= usize::MAX
    &&& 2 * c.num_hidden_layers * c.max_position_embeddings <= usize::MAX
    &&& 2 * c.num_hidden_layers * c.max_position_embeddings * c.hidden_size <= usize::MAX
    &&& 2 * c.num_hidden_layers * c.max_position_embeddings * c.hidden_size * 4 <= usize::MAX
    &&& (c.vocab_size * c.hidden_size + c.num_hidden_layers * (4 * (c.hidden_size * c.hidden_size) + 2 * c.hidden_size * c.intermediate_size)) * 5 <= usize::MAX
}

impl GPTJModelV2 {
    /// Estimated memory: four bytes per parameter on the GPU, one per parameter on the CPU, the full key-value cache, and five bytes per parameter at peak.
    pub fn memory_requirements(&self) -> (r: MemoryRequirements)
        requires
            gptj_memory_fits(self.spec_config()),
        ensures
            r.gpu_memory == gptj_param_count(self.spec_config()) * 4,
            r.cpu_memory == gptj_param_count(self.spec_config()),
            r.kv_cache_memory == 2 * self.spec_config().num_hidden_layers * self.spec_config().max_position_embeddings * self.spec_config().hidden_size * 4,
            r.peak_memory == gptj_param_count(self.spec_config()) * 5,
    {
        let c = &self.config;
        let param_count = c.vocab_size * c.hidden_size + c.num_hidden_layers * (4 * (c.hidden_size * c.hidden_size) + 2 * c.hidden_size * c.intermediate_size);
        MemoryRequirements {
            gpu_memory: param_count * 4,
            cpu_memory: param_count,
            kv_cache_memory: 2 * c.num_hidden_layers * c.max_position_embeddings * c.hidden_size * 4,
            peak_memory: param_count * 5,
        }
    }
}

impl GPTJModelV2 {
    /// `self` is `old` after loading from `weights`: each weight whose
    /// checkpoint name `weights` holds takes that tensor's shape, element
    /// type, device and elements (as is, or transposed for a matrix product),
    /// and nothing else changes.
    pub closed spec fn loaded(&self, old: Self, weights: ModelWeights) -> bool {
        &&& self.config == old.config
        &&& self.device == old.device
        &&& copied(self.wte, old.wte, weights.lookup("transformer.wte.weight"@))
        &&& self.layers@.len() == old.layers@.len()
        &&& forall|k: int| 0 <= k < old.layers@.len() ==> #[trigger] self.layers@[k].loaded(old.layers@[k], weights, k)
        &&& copied(self.ln_f, old.ln_f, weights.lookup("transformer.ln_f.weight"@))
        &&& (if !old.config.tie_word_embeddings { transposed(self.lm_head, old.lm_head, weights.lookup("lm_head.weight"@)) } else { self.lm_head == old.lm_head })
    }

    /// Every tensor that loading from `weights` would transpose has at least
    /// two dimensions.
    pub closed spec fn loadable(&self, weights: ModelWeights) -> bool {
        &&& (!self.config.tie_word_embeddings ==> transposable(weights.lookup("lm_head.weight"@)))
        &&& forall|k: int| 0 <= k < self.layers@.len() ==> #[trigger] self.layers@[k].loadable(weights, k)
    }

    /// Loads the weights of `weights` that this part names.
    fn load_weights(&mut self, weights: &ModelWeights) -> (r: Result<(), ModelError>)
        ensures
            r is Ok <==> old(self).loadable(*weights),
            r is Ok ==> final(self).loaded(*old(self), *weights),
            r matches Err(e) ==> is_transpose_error(e),
    {
        load_copy(&mut self.wte, weights, "transformer.wte.weight");
        load_copy(&mut self.ln_f, weights, "transformer.ln_f.weight");
        if !self.config.tie_word_embeddings {
            load_transposed(&mut self.lm_head, weights, "lm_head.weight")?;
        }
        let mut taken_layers: Vec<GPTJLayer> = Vec::new();
        std::mem::swap(&mut taken_layers, &mut self.layers);
        self.layers = Self::load_layers(taken_layers, weights)?;
        Ok(())
    }

    /// Loads each of `items`, in order, from `weights`.
    fn load_layers(items: Vec<GPTJLayer>, weights: &ModelWeights) -> (r: Result<Vec<GPTJLayer>, ModelError>)
        ensures
            r is Ok <==> forall|k: int| 0 <= k < items@.len() ==> #[trigger] items@[k].loadable(*weights, k),
            r matches Ok(v) ==> v@.len() == items@.len() && forall|k: int| 0 <= k < items@.len() ==> #[trigger] v@[k].loaded(items@[k], *weights, k),
            r matches Err(e) ==> is_transpose_error(e),
    {
        let mut rest = items;
        let mut done: Vec<GPTJLayer> = Vec::new();
        while rest.len() > 0
            invariant
                done@.len() + rest@.len() == items@.len(),
                rest@ == items@.subrange(done@.len() as int, items@.len() as int),
                forall|k: int| 0 <= k < done@.len() ==> #[trigger] done@[k].loaded(items@[k], *weights, k),
                forall|k: int| 0 <= k < done@.len() ==> #[trigger] items@[k].loadable(*weights, k),
            decreases rest@.len(),
        {
            let n = done.len();
            let mut item = rest.remove(0);
            assert(item == items@[n as int]);
            match item.load_weights(weights, n) {
                Ok(()) => {},
                Err(e) => {
                    assert(!items@[n as int].loadable(*weights, n as int));
                    return Err(e);
                },
            }
            done.push(item);
            assert(rest@ =~= items@.subrange(done@.len() as int, items@.len() as int));
        }
        Ok(done)
    }
}

impl GPTJLayer {
    /// `self` is `old` after loading from `weights`: each weight whose
    /// checkpoint name `weights` holds takes that tensor's shape, element
    /// type, device and elements (as is, or transposed for a matrix product),
    /// and nothing else changes.
    pub closed spec fn loaded(&self, old: Self, weights: ModelWeights, idx: int) -> bool {
        &&& transposed(self.attn.q_proj, old.attn.q_proj, weights.lookup(indexed("transformer.h."@, idx, ".attn.q_proj.weight"@)))
        &&& transposed(self.attn.k_proj, old.attn.k_proj, weights.lookup(indexed("transformer.h."@, idx, ".attn.k_proj.weight"@)))
        &&& transposed(self.attn.v_proj, old.attn.v_proj, weights.lookup(indexed("transformer.h."@, idx, ".attn.v_proj.weight"@)))
        &&& transposed(self.attn.o_proj, old.attn.o_proj, weights.lookup(indexed("transformer.h."@, idx, ".attn.out_proj.weight"@)))
        &&& self.attn.num_heads == old.attn.num_heads
        &&& self.attn.head_dim == old.attn.head_dim
        &&& self.attn.rotary_dim == old.attn.rotary_dim
        &&& transposed(self.mlp.fc_in, old.mlp.fc_in, weights.lookup(indexed("transformer.h."@, idx, ".mlp.fc_in.weight"@)))
        &&& transposed(self.mlp.fc_out, old.mlp.fc_out, weights.lookup(indexed("transformer.h."@, idx, ".mlp.fc_out.weight"@)))
        &&& copied(self.ln_1, old.ln_1, weights.lookup(indexed("transformer.h."@, idx, ".ln_1.weight"@)))
    }

    /// Every tensor that loading from `weights` would transpose has at least
    /// two dimensions.
    pub closed spec fn loadable(&self, weights: ModelWeights, idx: int) -> bool {
        &&& transposable(weights.lookup(indexed("transformer.h."@, idx, ".attn.q_proj.weight"@)))
        &&& transposable(weights.lookup(indexed("transformer.h."@, idx, ".attn.k_proj.weight"@)))
        &&& transposable(weights.lookup(indexed("transformer.h."@, idx, ".attn.v_proj.weight"@)))
        &&& transposable(weights.lookup(indexed("transformer.h."@, idx, ".attn.out_proj.weight"@)))
        &&& transposable(weights.lookup(indexed("transformer.h."@, idx, ".mlp.fc_in.weight"@)))
        &&& transposable(weights.lookup(indexed("transformer.h."@, idx, ".mlp.fc_out.weight"@)))
    }

    /// Loads the weights of `weights` that this part names.
    fn load_weights(&mut self, weights: &ModelWeights, layer_idx: usize) -> (r: Result<(), ModelError>)
        ensures
            r is Ok <==> old(self).loadable(*weights, layer_idx as int),
            r is Ok ==> final(self).loaded(*old(self), *weights, layer_idx as int),
            r matches Err(e) ==> is_transpose_error(e),
    {
        load_transposed(&mut self.attn.q_proj, weights, indexed_name("transformer.h.", layer_idx, ".attn.q_proj.weight").as_str())?;
        load_transposed(&mut self.attn.k_proj, weights, indexed_name("transformer.h.", layer_idx, ".attn.k_proj.weight").as_str())?;
        load_transposed(&mut self.attn.v_proj, weights, indexed_name("transformer.h.", layer_idx, ".attn.v_proj.weight").as_str())?;
        load_transposed(&mut self.attn.o_proj, weights, indexed_name("transformer.h.", layer_idx, ".attn.out_proj.weight").as_str())?;
        load_transposed(&mut self.mlp.fc_in, weights, indexed_name("transformer.h.", layer_idx, ".mlp.fc_in.weight").as_str())?;
        load_transposed(&mut self.mlp.fc_out, weights, indexed_name("transformer.h.", layer_idx, ".mlp.fc_out.weight").as_str())?;
        load_copy(&mut self.ln_1, weights, indexed_name("transformer.h.", layer_idx, ".ln_1.weight").as_str());
        Ok(())
    }
}


impl GPTJModelV2 {
    /// Builds the model for `config` as `new` does and loads the weights that
    /// `weights` holds under their checkpoint names: the result is the built
    /// model with those weights taken, and an error exactly when a tensor that
    /// must be transposed has fewer than two dimensions.
    pub fn from_weights(config: GPTJConfig, weights: ModelWeights) -> (r: Result<Self, ModelError>)
        requires
            config.num_attention_heads > 0,
        ensures
            exists|built: Self| #[trigger] built.built_for(config, Device::CPU) && built.spec_config() == config
                && built.spec_device() == Device::CPU && (r is Ok <==> built.loadable(weights))
                && (r matches Ok(m) ==> m.spec_config() == config && m.spec_device() == Device::CPU && m.loaded(built, weights))
                && (r matches Err(e) ==> is_transpose_error(e)),
    {
        let mut model = match Self::new(config) {
            Ok(m) => m,
            Err(e) => {
                return Err(e);
            },
        };
        let ghost built = model;
        match model.load_weights(&weights) {
            Ok(()) => {
                assert(built.built_for(config, Device::CPU));
                Ok(model)
            },
            Err(e) => {
                assert(built.built_for(config, Device::CPU));
                Err(e)
            },
        }
    }
}

impl GPTJModelV2 {
    /// Moving to `d1` and then to `d2` leaves the model as a single move to
    /// `d2` would: the second move overrides the first.
    pub proof fn lemma_moves_compose(first: Self, second: Self, third: Self, d1: Device, d2: Device)
        requires
            second.moved_from(first, d1),
            third.moved_from(second, d2),
        ensures
            third.moved_from(first, d2),
    {
        assert forall|k: int| 0 <= k < third.layers@.len() implies #[trigger] third.layers@[k].moved_from(first.layers@[k], d2) by {
            GPTJLayer::lemma_moves_compose(first.layers@[k], second.layers@[k], third.layers@[k], d1, d2);
        }
    }
}

impl GPTJLayer {
    /// A move to `d1` followed by a move to `d2` is a move to `d2`.
    proof fn lemma_moves_compose(first: Self, second: Self, third: Self, d1: Device, d2: Device)
        requires
            second.moved_from(first, d1),
            third.moved_from(second, d2),
        ensures
            third.moved_from(first, d2),
    {
        GPTJAttention::lemma_moves_compose(first.attn, second.attn, third.attn, d1, d2);
        GPTJMLP::lemma_moves_compose(first.mlp, second.mlp, third.mlp, d1, d2);
    }
}

impl GPTJAttention {
    /// A move to `d1` followed by a move to `d2` is a move to `d2`.
    proof fn lemma_moves_compose(first: Self, second: Self, third: Self, d1: Device, d2: Device)
        requires
            second.moved_from(first, d1),
            third.moved_from(second, d2),
        ensures
            third.moved_from(first, d2),
    {
    }
}

impl GPTJMLP {
    /// A move to `d1` followed by a move to `d2` is a move to `d2`.
    proof fn lemma_moves_compose(first: Self, second: Self, third: Self, d1: Device, d2: Device)
        requires
            second.moved_from(first, d1),
            third.moved_from(second, d2),
        ensures
            third.moved_from(first, d2),
    {
    }
}

} // verus!

verus! {

impl GPTJConfig {
    /// The default configuration has these sizes: the clauses below.
    pub proof fn lemma_default_sizes(&self)
        requires
            self.gguf_fields_default(),
        ensures
            self.vocab_size == 50400,
            self.hidden_size == 4096,
            self.intermediate_size == 16384,
            self.num_hidden_layers == 28,
            self.num_attention_heads == 16,
            self.num_key_value_heads == 16,
            self.max_position_embeddings == 2048,
            self.rope_theta.bits == 0x461c4000,
    {
    }

    /// The default configuration has these remaining settings: the clauses below.
    pub proof fn lemma_default_settings(&self)
        requires
            self.other_fields_default(),
        ensures
            self.hidden_act@ == "gelu"@,
            self.initializer_range.bits == 0x3ca3d70a,
            self.layer_norm_eps.bits == 0x3727c5ac,
            self.use_cache == true,
            self.pad_token_id == 50256,
            self.bos_token_id == 50256,
            self.eos_token_id == 50256,
            self.tie_word_embeddings == true,
            self.rotary_dim == 64,
    {
    }

    /// The default configuration is the one with the default sizes and settings: the clauses below.
    pub proof fn lemma_default_parts(&self)
        requires
            self.is_default(),
        ensures
            ({
            self.gguf_fields_default() && self.other_fields_default()
        }),
    {
    }
}

impl GPTJModelV2 {
    /// Built for `config` on `device`, each weight is the zero tensor of the shape the configuration gives, on `device`, and each recorded size is the configured one: the clauses below.
    pub proof fn lemma_built_weights(&self, config: GPTJConfig, device: Device)
        requires
            self.built_for(config, device),
        ensures
            self.wte.is_f32(seq![config.vocab_size, config.hidden_size], device),
            self.layers@.len() == config.num_hidden_layers,
            forall|k: int| 0 <= k < self.layers@.len() ==> #[trigger] self.layers@[k].built_for(config, device),
            self.ln_f.is_f32(seq![config.hidden_size], device),
            (if config.tie_word_embeddings { self.lm_head.same(self.wte) } else { self.lm_head.is_f32(seq![config.hidden_size, config.vocab_size], device) }),
    {
    }

    /// After a move to `device`, every weight lies on `device` with its shape, element type and elements kept, and nothing else changes: the clauses below.
    pub proof fn lemma_moved_weights(&self, before: Self, device: Device)
        requires
            self.moved_from(before, device),
        ensures
            self.config == before.config,
            self.device == device,
            self.wte.is_placed(before.wte, device),
            self.layers@.len() == before.layers@.len(),
            forall|k: int| 0 <= k < self.layers@.len() ==> #[trigger] self.layers@[k].moved_from(before.layers@[k], device),
            self.ln_f.is_placed(before.ln_f, device),
            self.lm_head.is_placed(before.lm_head, device),
    {
    }

    /// After loading from `weights`, each weight holds the tensor stored under its checkpoint name, copied or transposed, and keeps its previous value when the name is absent; nothing else changes: the clauses below.
    pub proof fn lemma_loaded_weights(&self, before: Self, weights: ModelWeights)
        requires
            self.loaded(before, weights),
        ensures
            self.config == before.config,
            self.device == before.device,
            copied(self.wte, before.wte, weights.lookup("transformer.wte.weight"@)),
            self.layers@.len() == before.layers@.len(),
            forall|k: int| 0 <= k < before.layers@.len() ==> #[trigger] self.layers@[k].loaded(before.layers@[k], weights, k),
            copied(self.ln_f, before.ln_f, weights.lookup("transformer.ln_f.weight"@)),
            (if !before.config.tie_word_embeddings { transposed(self.lm_head, before.lm_head, weights.lookup("lm_head.weight"@)) } else { self.lm_head == before.lm_head }),
    {
    }

    /// Loading from `weights` succeeds only when every tensor it must transpose, found under these checkpoint names, has at least two dimensions: the clauses below.
    pub proof fn lemma_loadable_names(&self, weights: ModelWeights)
        requires
            self.loadable(weights),
        ensures
            (!self.config.tie_word_embeddings ==> transposable(weights.lookup("lm_head.weight"@))),
            forall|k: int| 0 <= k < self.layers@.len() ==> #[trigger] self.layers@[k].loadable(weights, k),
    {
    }
}

impl GPTJLayer {
    /// Built for `config` on `device`, each weight is the zero tensor of the shape the configuration gives, on `device`, and each recorded size is the configured one: the clauses below.
    pub proof fn lemma_built_weights(&self, config: GPTJConfig, device: Device)
        requires
            self.built_for(config, device),
        ensures
            self.attn.built_for(config, device),
            self.mlp.built_for(config, device),
            self.ln_1.is_f32(seq![config.hidden_size], device),
    {
    }

    /// After a move to `device`, every weight lies on `device` with its shape, element type and elements kept, and nothing else changes: the clauses below.
    pub proof fn lemma_moved_weights(&self, before: Self, device: Device)
        requires
            self.moved_from(before, device),
        ensures
            self.attn.moved_from(before.attn, device),
            self.mlp.moved_from(before.mlp, device),
            self.ln_1.is_placed(before.ln_1, device),
    {
    }

    /// After loading from `weights`, each weight holds the tensor stored under its checkpoint name, copied or transposed, and keeps its previous value when the name is absent; nothing else changes: the clauses below.
    pub proof fn lemma_loaded_weights(&self, before: Self, weights: ModelWeights, idx: int)
        requires
            self.loaded(before, weights, idx),
        ensures
            transposed(self.attn.q_proj, before.attn.q_proj, weights.lookup(indexed("transformer.h."@, idx, ".attn.q_proj.weight"@))),
            transposed(self.attn.k_proj, before.attn.k_proj, weights.lookup(indexed("transformer.h."@, idx, ".attn.k_proj.weight"@))),
            transposed(self.attn.v_proj, before.attn.v_proj, weights.lookup(indexed("transformer.h."@, idx, ".attn.v_proj.weight"@))),
            transposed(self.attn.o_proj, before.attn.o_proj, weights.lookup(indexed("transformer.h."@, idx, ".attn.out_proj.weight"@))),
            self.attn.num_heads == before.attn.num_heads,
            self.attn.head_dim == before.attn.head_dim,
            self.attn.rotary_dim == before.attn.rotary_dim,
            transposed(self.mlp.fc_in, before.mlp.fc_in, weights.lookup(indexed("transformer.h."@, idx, ".mlp.fc_in.weight"@))),
            transposed(self.mlp.fc_out, before.mlp.fc_out, weights.lookup(indexed("transformer.h."@, idx, ".mlp.fc_out.weight"@))),
            copied(self.ln_1, before.ln_1, weights.lookup(indexed("transformer.h."@, idx, ".ln_1.weight"@))),
    {
    }

    /// Loading from `weights` succeeds only when every tensor it must transpose, found under these checkpoint names, has at least two dimensions: the clauses below.
    pub proof fn lemma_loadable_names(&self, weights: ModelWeights, idx: int)
        requires
            self.loadable(weights, idx),
        ensures
            transposable(weights.lookup(indexed("transformer.h."@, idx, ".attn.q_proj.weight"@))),
            transposable(weights.lookup(indexed("transformer.h."@, idx, ".attn.k_proj.weight"@))),
            transposable(weights.lookup(indexed("transformer.h."@, idx, ".attn.v_proj.weight"@))),
            transposable(weights.lookup(indexed("transformer.h."@, idx, ".attn.out_proj.weight"@))),
            transposable(weights.lookup(indexed("transformer.h."@, idx, ".mlp.fc_in.weight"@))),
            transposable(weights.lookup(indexed("transformer.h."@, idx, ".mlp.fc_out.weight"@))),
    {
    }
}

impl GPTJAttention {
    /// Built for `config` on `device`, each weight is the zero tensor of the shape the configuration gives, on `device`, and each recorded size is the configured one: the clauses below.
    pub proof fn lemma_built_weights(&self, config: GPTJConfig, device: Device)
        requires
            self.built_for(config, device),
        ensures
            self.q_proj.is_f32(seq![config.hidden_size, config.hidden_size], device),
            self.k_proj.is_f32(seq![config.hidden_size, config.hidden_size], device),
            self.v_proj.is_f32(seq![config.hidden_size, config.hidden_size], device),
            self.o_proj.is_f32(seq![config.hidden_size, config.hidden_size], device),
            self.num_heads == config.num_attention_heads,
            self.head_dim == config.hidden_size / config.num_attention_heads,
            self.rotary_dim == config.rotary_dim,
    {
    }

    /// After a move to `device`, every weight lies on `device` with its shape, element type and elements kept, and nothing else changes: the clauses below.
    pub proof fn lemma_moved_weights(&self, before: Self, device: Device)
        requires
            self.moved_from(before, device),
        ensures
            self.q_proj.is_placed(before.q_proj, device),
            self.k_proj.is_placed(before.k_proj, device),
            self.v_proj.is_placed(before.v_proj, device),
            self.o_proj.is_placed(before.o_proj, device),
            self.num_heads == before.num_heads,
            self.head_dim == before.head_dim,
            self.rotary_dim == before.rotary_dim,
    {
    }
}

impl GPTJMLP {
    /// Built for `config` on `device`, each weight is the zero tensor of the shape the configuration gives, on `device`, and each recorded size is the configured one: the clauses below.
    pub proof fn lemma_built_weights(&self, config: GPTJConfig, device: Device)
        requires
            self.built_for(config, device),
        ensures
            self.fc_in.is_f32(seq![config.hidden_size, config.intermediate_size], device),
            self.fc_out.is_f32(seq![config.intermediate_size, config.hidden_size], device),
    {
    }

    /// After a move to `device`, every weight lies on `device` with its shape, element type and elements kept, and nothing else changes: the clauses below.
    pub proof fn lemma_moved_weights(&self, before: Self, device: Device)
        requires
            self.moved_from(before, device),
        ensures
            self.fc_in.is_placed(before.fc_in, device),
            self.fc_out.is_placed(before.fc_out, device),
    {
    }
}

/// `gptj_param_count` is, for every configuration, the formula below.
pub proof fn lemma_gptj_param_count_formula(c: GPTJConfig)
    ensures
        gptj_param_count(c) == (c.vocab_size * c.hidden_size + c.num_hidden_layers * (4 * (c.hidden_size * c.hidden_size) + 2 * c.hidden_size * c.intermediate_size)),
{
}

} // verus!
