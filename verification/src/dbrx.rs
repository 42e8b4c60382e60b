//! The DBRX (mixture of experts) model.
use vstd::prelude::*;
use crate::common::F32Bits;
use crate::gguf::GGUFModelConfig;
use crate::common::{MemoryRequirements, ModelError};
use crate::tensor::{zeros1, zeros2, Device, Tensor};
use crate::weights::{copied, transposed, transposable, is_transpose_error, indexed, indexed_name, load_copy, load_transposed, ModelWeights};

verus! {

/// Hyperparameters of the DBRX (mixture of experts) model.
#[derive(Clone, Debug)]
pub struct DbrxConfig {
    pub vocab_size: usize,
    pub hidden_size: usize,
    pub intermediate_size: usize,
    pub num_hidden_layers: usize,
    pub num_attention_heads: usize,
    pub num_key_value_heads: usize,
    pub hidden_act: String,
    pub max_position_embeddings: usize,
    pub rms_norm_eps: F32Bits,
    pub use_cache: bool,
    pub pad_token_id: i64,
    pub bos_token_id: i64,
    pub eos_token_id: i64,
    pub tie_word_embeddings: bool,
    pub rope_theta: F32Bits,
    pub num_experts: usize,
    pub num_experts_per_tok: usize,
}

impl DbrxConfig {
    /// The fields that a GGUF file supplies hold their default values.
    pub open spec fn gguf_fields_default(&self) -> bool {
        &&& self.vocab_size == 100352
        &&& self.hidden_size == 6144
        &&& self.intermediate_size == 10752
        &&& self.num_hidden_layers == 40
        &&& self.num_attention_heads == 48
        &&& self.num_key_value_heads == 8
        &&& self.max_position_embeddings == 32768
        &&& self.rope_theta.bits == 0x48f42400
    }

    /// The fields that a GGUF file does not supply hold their default values.
    pub open spec fn other_fields_default(&self) -> bool {
        &&& self.hidden_act@ == "silu"@
        &&& self.rms_norm_eps.bits == 0x3727c5ac
        &&& self.use_cache == true
        &&& self.pad_token_id == 0
        &&& self.bos_token_id == 1
        &&& self.eos_token_id == 2
        &&& self.tie_word_embeddings == false
        &&& self.num_experts == 16
        &&& self.num_experts_per_tok == 4
    }

    /// Every field holds its default value.
    pub open spec fn is_default(&self) -> bool {
        self.gguf_fields_default() && self.other_fields_default()
    }

    /// The configuration described by a GGUF file: the architecture fields it
    /// carries, and the defaults for the rest.
    pub fn from_gguf_config(gguf: &GGUFModelConfig) -> (r: Self)
        ensures
            r.vocab_size == gguf.vocab_size,
            r.hidden_size == gguf.hidden_size,
            r.intermediate_size == gguf.intermediate_size,
            r.num_hidden_layers == gguf.num_hidden_layers,
            r.num_attention_heads == gguf.num_attention_heads,
            r.num_key_value_heads == gguf.num_key_value_heads,
            r.max_position_embeddings == gguf.max_position_embeddings,
            r.rope_theta == gguf.rope_theta,
            r.other_fields_default(),
    {
        let d = Self::default();
        Self {
            vocab_size: gguf.vocab_size,
            hidden_size: gguf.hidden_size,
            intermediate_size: gguf.intermediate_size,
            num_hidden_layers: gguf.num_hidden_layers,
            num_attention_heads: gguf.num_attention_heads,
            num_key_value_heads: gguf.num_key_value_heads,
            max_position_embeddings: gguf.max_position_embeddings,
            rope_theta: gguf.rope_theta,
            ..d
        }
    }

    /// Size of the token vocabulary.
    pub fn vocab_size(&self) -> (r: usize)
        ensures
            r == self.vocab_size,
    {
        self.vocab_size
    }

    /// Width of the hidden states.
    pub fn hidden_size(&self) -> (r: usize)
        ensures
            r == self.hidden_size,
    {
        self.hidden_size
    }

    /// Number of transformer (or state-space) layers.
    pub fn num_layers(&self) -> (r: usize)
        ensures
            r == self.num_hidden_layers,
    {
        self.num_hidden_layers
    }
}

impl Default for DbrxConfig {
    fn default() -> (r: Self)
        ensures
            r.is_default(),
    {
        Self {
            vocab_size: 100352,
            hidden_size: 6144,
            intermediate_size: 10752,
            num_hidden_layers: 40,
            num_attention_heads: 48,
            num_key_value_heads: 8,
            hidden_act: String::from_str("silu"),
            max_position_embeddings: 32768,
            rms_norm_eps: F32Bits::from_bits(0x3727c5ac),
            use_cache: true,
            pad_token_id: 0,
            bos_token_id: 1,
            eos_token_id: 2,
            tie_word_embeddings: false,
            rope_theta: F32Bits::from_bits(0x48f42400),
            num_experts: 16,
            num_experts_per_tok: 4,
        }
    }
}

/// The DBRX decoder: token embeddings, the layers (attention and a mixture of experts), a final norm and an output head laid out like the embeddings.
pub struct DbrxModelV2 {
    pub config: DbrxConfig,
    pub device: Device,
    pub embed_tokens: Tensor,
    pub layers: Vec<DbrxLayer>,
    pub norm: Tensor,
    pub lm_head: Tensor,
}

/// A DBRX layer: attention and a mixture of experts, each after a norm.
pub struct DbrxLayer {
    pub self_attn: DbrxAttention,
    pub moe: DbrxMoE,
    pub input_layernorm: Tensor,
    pub post_attention_layernorm: Tensor,
}

/// DBRX attention: a fused projection to queries and grouped keys and values, and a square output projection.
pub struct DbrxAttention {
    pub qkv_proj: Tensor,
    pub o_proj: Tensor,
    pub num_heads: usize,
    pub num_kv_heads: usize,
    pub head_dim: usize,
}

/// DBRX mixture of experts: a router over `num_experts` experts, `num_experts_per_tok` of which serve each token.
pub struct DbrxMoE {
    pub router: Tensor,
    pub experts: Vec<DbrxExpert>,
    pub num_experts_per_tok: usize,
}

/// One DBRX expert: a gated feed-forward block.
pub struct DbrxExpert {
    pub gate_proj: Tensor,
    pub up_proj: Tensor,
    pub down_proj: Tensor,
}

impl DbrxModelV2 {
    /// The model as built for `config` on `device`: zero embeddings `[vocab_size, hidden_size]`, `num_hidden_layers` layers, the final norm and a head `[vocab_size, hidden_size]`.
    pub closed spec fn built_for(&self, config: DbrxConfig, device: Device) -> bool {
        &&& self.embed_tokens.is_f32(seq![config.vocab_size, config.hidden_size], device)
        &&& self.layers@.len() == config.num_hidden_layers
        &&& forall|k: int| 0 <= k < self.layers@.len() ==> #[trigger] self.layers@[k].built_for(config, device)
        &&& self.norm.is_f32(seq![config.hidden_size], device)
        &&& self.lm_head.is_f32(seq![config.vocab_size, config.hidden_size], device)
    }

    /// `self` is `old` moved to `device`: every weight placed there and the device recorded.
    pub closed spec fn moved_from(&self, old: Self, device: Device) -> bool {
        &&& self.config == old.config
        &&& self.device == device
        &&& self.embed_tokens.is_placed(old.embed_tokens, device)
        &&& self.layers@.len() == old.layers@.len()
        &&& forall|k: int| 0 <= k < self.layers@.len() ==> #[trigger] self.layers@[k].moved_from(old.layers@[k], device)
        &&& self.norm.is_placed(old.norm, device)
        &&& self.lm_head.is_placed(old.lm_head, device)
    }

    /// The configuration the model was built with.
    pub closed spec fn spec_config(&self) -> DbrxConfig {
        self.config
    }

    /// The device the model reports.
    pub closed spec fn spec_device(&self) -> Device {
        self.device
    }

    /// Builds the model for `config` on the CPU, with zero weights.
    pub fn new(config: DbrxConfig) -> (r: Result<Self, ModelError>)
        requires
            config.num_attention_heads > 0,
            config.num_attention_heads * (config.hidden_size / config.num_attention_heads) <= usize::MAX,
            2 * config.num_key_value_heads <= usize::MAX,
            2 * config.num_key_value_heads * (config.hidden_size / config.num_attention_heads) <= usize::MAX,
            config.num_attention_heads * (config.hidden_size / config.num_attention_heads) + 2 * config.num_key_value_heads * (config.hidden_size / config.num_attention_heads) <= usize::MAX,
        ensures
            r matches Ok(m) && m.spec_config() == config && m.spec_device() == Device::CPU
                && m.built_for(config, Device::CPU),
    {
        let device = Device::CPU;
        let embed_tokens = zeros2(config.vocab_size, config.hidden_size, &device);
        let mut layers: Vec<DbrxLayer> = Vec::new();
        let mut n: usize = 0;
        while n < config.num_hidden_layers
            invariant
                n <= config.num_hidden_layers,
                config.num_attention_heads > 0,
                config.num_attention_heads * (config.hidden_size / config.num_attention_heads) <= usize::MAX,
                2 * config.num_key_value_heads <= usize::MAX,
                2 * config.num_key_value_heads * (config.hidden_size / config.num_attention_heads) <= usize::MAX,
                config.num_attention_heads * (config.hidden_size / config.num_attention_heads) + 2 * config.num_key_value_heads * (config.hidden_size / config.num_attention_heads) <= usize::MAX,
                layers@.len() == n,
                forall|k: int| 0 <= k < n ==> #[trigger] layers@[k].built_for(config, device),
            decreases config.num_hidden_layers - n,
        {
            layers.push(DbrxLayer::new(&config, &device));
            n += 1;
        }
        let norm = zeros1(config.hidden_size, &device);
        let lm_head = zeros2(config.vocab_size, config.hidden_size, &device);
        Ok(DbrxModelV2 { config, device, embed_tokens, layers, norm, lm_head })
    }

    /// The configuration the model was built with.
    pub fn config(&self) -> (r: &DbrxConfig)
        ensures
            *r == self.spec_config(),
    {
        &self.config
    }

    /// Moves the model to `device`.
    pub fn to_device(&mut self, device: &Device) -> (r: Result<(), ModelError>)
        ensures
            r is Ok,
            final(self).moved_from(*old(self), *device),
    {
        self.embed_tokens = self.embed_tokens.to_device(device);
        let mut taken_layers: Vec<DbrxLayer> = Vec::new();
        std::mem::swap(&mut taken_layers, &mut self.layers);
        self.layers = DbrxLayer::all_to_device(taken_layers, device);
        self.norm = self.norm.to_device(device);
        self.lm_head = self.lm_head.to_device(device);
        self.device = *device;
        Ok(())
    }
}

impl DbrxLayer {
    /// The weights as built for `config` on `device`, all zero.
    pub closed spec fn built_for(&self, config: DbrxConfig, device: Device) -> bool {
        &&& self.self_attn.built_for(config, device)
        &&& self.moe.built_for(config, device)
        &&& self.input_layernorm.is_f32(seq![config.hidden_size], device)
        &&& self.post_attention_layernorm.is_f32(seq![config.hidden_size], device)
    }

    /// `self` is `old` with its weights placed on `device`.
    pub closed spec fn moved_from(&self, old: Self, device: Device) -> bool {
        &&& self.self_attn.moved_from(old.self_attn, device)
        &&& self.moe.moved_from(old.moe, device)
        &&& self.input_layernorm.is_placed(old.input_layernorm, device)
        &&& self.post_attention_layernorm.is_placed(old.post_attention_layernorm, device)
    }

    fn new(config: &DbrxConfig, device: &Device) -> (r: Self)
        requires
            config.num_attention_heads > 0,
            config.num_attention_heads * (config.hidden_size / config.num_attention_heads) <= usize::MAX,
            2 * config.num_key_value_heads <= usize::MAX,
            2 * config.num_key_value_heads * (config.hidden_size / config.num_attention_heads) <= usize::MAX,
            config.num_attention_heads * (config.hidden_size / config.num_attention_heads) + 2 * config.num_key_value_heads * (config.hidden_size / config.num_attention_heads) <= usize::MAX,
        ensures
            r.built_for(*config, *device),
    {
        let self_attn = DbrxAttention::new(config, device);
        let moe = DbrxMoE::new(config, device);
        let input_layernorm = zeros1(config.hidden_size, device);
        let post_attention_layernorm = zeros1(config.hidden_size, device);
        DbrxLayer { self_attn, moe, input_layernorm, post_attention_layernorm }
    }

    /// Places the weights on `device`.
    fn to_device(&mut self, device: &Device)
        ensures
            final(self).moved_from(*old(self), *device),
    {
        self.self_attn.to_device(device);
        self.moe.to_device(device);
        self.input_layernorm = self.input_layernorm.to_device(device);
        self.post_attention_layernorm = self.post_attention_layernorm.to_device(device);
    }

    /// The layers, in order, each with its weights placed on `device`.
    fn all_to_device(layers: Vec<DbrxLayer>, device: &Device) -> (r: Vec<DbrxLayer>)
        ensures
            r@.len() == layers@.len(),
            forall|k: int| 0 <= k < r@.len() ==> #[trigger] r@[k].moved_from(layers@[k], *device),
    {
        let mut rest = layers;
        let mut moved: Vec<DbrxLayer> = Vec::new();
        while rest.len() > 0
            invariant
                moved@.len() + rest@.len() == layers@.len(),
                rest@ == layers@.subrange(moved@.len() as int, layers@.len() as int),
                forall|k: int| 0 <= k < moved@.len() ==> #[trigger] moved@[k].moved_from(layers@[k], *device),
            decreases rest@.len(),
        {
            let mut layer = rest.remove(0);
            assert(layer == layers@[moved@.len() as int]);
            layer.to_device(device);
            moved.push(layer);
            assert(rest@ =~= layers@.subrange(moved@.len() as int, layers@.len() as int));
        }
        moved
    }
}

impl DbrxAttention {
    /// Built for `config`: with `head_dim = hidden_size / heads`, the fused projection is `[hidden_size, heads * head_dim + 2 * kv_heads * head_dim]` and the output projection `[hidden_size, hidden_size]`.
    pub closed spec fn built_for(&self, config: DbrxConfig, device: Device) -> bool {
        let head_dim = config.hidden_size / config.num_attention_heads;
        let qkv_size = (config.num_attention_heads * head_dim + 2 * config.num_key_value_heads * head_dim) as usize;
        &&& self.qkv_proj.is_f32(seq![config.hidden_size, qkv_size], device)
        &&& self.o_proj.is_f32(seq![config.hidden_size, config.hidden_size], device)
        &&& self.num_heads == config.num_attention_heads
        &&& self.num_kv_heads == config.num_key_value_heads
        &&& self.head_dim == head_dim
    }

    /// `self` is `old` with its weights placed on `device`.
    pub closed spec fn moved_from(&self, old: Self, device: Device) -> bool {
        &&& self.qkv_proj.is_placed(old.qkv_proj, device)
        &&& self.o_proj.is_placed(old.o_proj, device)
        &&& self.num_heads == old.num_heads
        &&& self.num_kv_heads == old.num_kv_heads
        &&& self.head_dim == old.head_dim
    }

    fn new(config: &DbrxConfig, device: &Device) -> (r: Self)
        requires
            config.num_attention_heads > 0,
            config.num_attention_heads * (config.hidden_size / config.num_attention_heads) <= usize::MAX,
            2 * config.num_key_value_heads <= usize::MAX,
            2 * config.num_key_value_heads * (config.hidden_size / config.num_attention_heads) <= usize::MAX,
            config.num_attention_heads * (config.hidden_size / config.num_attention_heads) + 2 * config.num_key_value_heads * (config.hidden_size / config.num_attention_heads) <= usize::MAX,
        ensures
            r.built_for(*config, *device),
    {
        let head_dim = config.hidden_size / config.num_attention_heads;
        let qkv_size = config.num_attention_heads * head_dim + 2 * config.num_key_value_heads * head_dim;
        let qkv_proj = zeros2(config.hidden_size, qkv_size, device);
        let o_proj = zeros2(config.hidden_size, config.hidden_size, device);
        let num_heads = config.num_attention_heads;
        let num_kv_heads = config.num_key_value_heads;
        DbrxAttention { qkv_proj, o_proj, num_heads, num_kv_heads, head_dim }
    }

    /// Places the weights on `device`.
    fn to_device(&mut self, device: &Device)
        ensures
            final(self).moved_from(*old(self), *device),
    {
        self.qkv_proj = self.qkv_proj.to_device(device);
        self.o_proj = self.o_proj.to_device(device);
    }
}

impl DbrxMoE {
    /// Built for `config`: a router `[hidden_size, num_experts]` and `num_experts` experts.
    pub closed spec fn built_for(&self, config: DbrxConfig, device: Device) -> bool {
        &&& self.router.is_f32(seq![config.hidden_size, config.num_experts], device)
        &&& self.experts@.len() == config.num_experts
        &&& forall|k: int| 0 <= k < self.experts@.len() ==> #[trigger] self.experts@[k].built_for(config, device)
        &&& self.num_experts_per_tok == config.num_experts_per_tok
    }

    /// `self` is `old` with its weights placed on `device`.
    pub closed spec fn moved_from(&self, old: Self, device: Device) -> bool {
        &&& self.router.is_placed(old.router, device)
        &&& self.experts@.len() == old.experts@.len()
        &&& forall|k: int| 0 <= k < self.experts@.len() ==> #[trigger] self.experts@[k].moved_from(old.experts@[k], device)
        &&& self.num_experts_per_tok == old.num_experts_per_tok
    }

    fn new(config: &DbrxConfig, device: &Device) -> (r: Self)
        ensures
            r.built_for(*config, *device),
    {
        let router = zeros2(config.hidden_size, config.num_experts, device);
        let mut experts: Vec<DbrxExpert> = Vec::new();
        let mut n: usize = 0;
        while n < config.num_experts
            invariant
                n <= config.num_experts,
                experts@.len() == n,
                forall|k: int| 0 <= k < n ==> #[trigger] experts@[k].built_for(*config, *device),
            decreases config.num_experts - n,
        {
            experts.push(DbrxExpert::new(config, device));
            n += 1;
        }
        let num_experts_per_tok = config.num_experts_per_tok;
        DbrxMoE { router, experts, num_experts_per_tok }
    }

    /// Places the weights on `device`.
    fn to_device(&mut self, device: &Device)
        ensures
            final(self).moved_from(*old(self), *device),
    {
        self.router = self.router.to_device(device);
        let mut taken_experts: Vec<DbrxExpert> = Vec::new();
        std::mem::swap(&mut taken_experts, &mut self.experts);
        self.experts = DbrxExpert::all_to_device(taken_experts, device);
    }
}

impl DbrxExpert {
    /// The weights as built for `config` on `device`, all zero.
    pub closed spec fn built_for(&self, config: DbrxConfig, device: Device) -> bool {
        &&& self.gate_proj.is_f32(seq![config.hidden_size, config.intermediate_size], device)
        &&& self.up_proj.is_f32(seq![config.hidden_size, config.intermediate_size], device)
        &&& self.down_proj.is_f32(seq![config.intermediate_size, config.hidden_size], device)
    }

    /// `self` is `old` with its weights placed on `device`.
    pub closed spec fn moved_from(&self, old: Self, device: Device) -> bool {
        &&& self.gate_proj.is_placed(old.gate_proj, device)
        &&& self.up_proj.is_placed(old.up_proj, device)
        &&& self.down_proj.is_placed(old.down_proj, device)
    }

    fn new(config: &DbrxConfig, device: &Device) -> (r: Self)
        ensures
            r.built_for(*config, *device),
    {
        let gate_proj = zeros2(config.hidden_size, config.intermediate_size, device);
        let up_proj = zeros2(config.hidden_size, config.intermediate_size, device);
        let down_proj = zeros2(config.intermediate_size, config.hidden_size, device);
        DbrxExpert { gate_proj, up_proj, down_proj }
    }

    /// Places the weights on `device`.
    fn to_device(&mut self, device: &Device)
        ensures
            final(self).moved_from(*old(self), *device),
    {
        self.gate_proj = self.gate_proj.to_device(device);
        self.up_proj = self.up_proj.to_device(device);
        self.down_proj = self.down_proj.to_device(device);
    }

    /// The layers, in order, each with its weights placed on `device`.
    fn all_to_device(layers: Vec<DbrxExpert>, device: &Device) -> (r: Vec<DbrxExpert>)
        ensures
            r@.len() == layers@.len(),
            forall|k: int| 0 <= k < r@.len() ==> #[trigger] r@[k].moved_from(layers@[k], *device),
    {
        let mut rest = layers;
        let mut moved: Vec<DbrxExpert> = Vec::new();
        while rest.len() > 0
            invariant
                moved@.len() + rest@.len() == layers@.len(),
                rest@ == layers@.subrange(moved@.len() as int, layers@.len() as int),
                forall|k: int| 0 <= k < moved@.len() ==> #[trigger] moved@[k].moved_from(layers@[k], *device),
            decreases rest@.len(),
        {
            let mut layer = rest.remove(0);
            assert(layer == layers@[moved@.len() as int]);
            layer.to_device(device);
            moved.push(layer);
            assert(rest@ =~= layers@.subrange(moved@.len() as int, layers@.len() as int));
        }
        moved
    }
}
/// Parameter count of the estimate: embeddings and eight `hidden_size` squared blocks per layer.
pub open spec fn dbrx_param_count(c: DbrxConfig) -> int {
    c.vocab_size * c.hidden_size + c.num_hidden_layers * 8 * (c.hidden_size * c.hidden_size)
}

/// No step of the memory estimate for `DbrxConfig` leaves the range of `usize`
/// or divides by zero.
pub open spec fn dbrx_memory_fits(c: DbrxConfig) -> bool {
    &&& c.vocab_size * c.hidden_size <= usize::MAX
    &&& c.num_hidden_layers * 8 <= usize::MAX
    &&& c.hidden_size * c.hidden_size <= usize::MAX
    &&& c.num_hidden_layers * 8 * (c.hidden_size * c.hidden_size) <= usize::MAX
    &&& c.vocab_size * c.hidden_size + c.num_hidden_layers * 8 * (c.hidden_size * c.hidden_size) <= usize::MAX
    &&& (c.vocab_size * c.hidden_size + c.num_hidden_layers * 8 * (c.hidden_size * c.hidden_size)) * 4 <= usize::MAX
    &&& 2 * c.num_hidden_layers <= usize::MAX
    &&& 2 * c.num_hidden_layers * c.max_position_embeddings <= usize::MAX
    &&& 2 * c.num_hidden_layers * c.max_position_embeddings * c.hidden_size <= usize::MAX
    &&& 2 * c.num_hidden_layers * c.max_position_embeddings * c.hidden_size * 4 <= usize::MAX
    &&& (c.vocab_size * c.hidden_size + c.num_hidden_layers * 8 * (c.hidden_size * c.hidden_size)) * 5 <= usize::MAX
}

impl DbrxModelV2 {
    /// Estimated memory: four bytes per parameter on the GPU, one per parameter on the CPU, the full key-value cache, and five bytes per parameter at peak.
    pub fn memory_requirements(&self) -> (r: MemoryRequirements)
        requires
            dbrx_memory_fits(self.spec_config()),
        ensures
            r.gpu_memory == dbrx_param_count(self.spec_config()) * 4,
            r.cpu_memory == dbrx_param_count(self.spec_config()),
            r.kv_cache_memory == 2 * self.spec_config().num_hidden_layers * self.spec_config().max_position_embeddings * self.spec_config().hidden_size * 4,
            r.peak_memory == dbrx_param_count(self.spec_config()) * 5,
    {
        let c = &self.config;
        let param_count = c.vocab_size * c.hidden_size + c.num_hidden_layers * 8 * (c.hidden_size * c.hidden_size);
        MemoryRequirements {
            gpu_memory: param_count * 4,
            cpu_memory: param_count,
            kv_cache_memory: 2 * c.num_hidden_layers * c.max_position_embeddings * c.hidden_size * 4,
            peak_memory: param_count * 5,
        }
    }
}

impl DbrxModelV2 {
    /// `self` is `old` after loading from `weights`: each weight whose
    /// checkpoint name `weights` holds takes that tensor's shape, element
    /// type, device and elements (as is, or transposed for a matrix product),
    /// and nothing else changes.
    pub closed spec fn loaded(&self, old: Self, weights: ModelWeights) -> bool {
        &&& self.config == old.config
        &&& self.device == old.device
        &&& copied(self.embed_tokens, old.embed_tokens, weights.lookup("model.embed_tokens.weight"@))
        &&& self.layers@.len() == old.layers@.len()
        &&& forall|k: int| 0 <= k < old.layers@.len() ==> #[trigger] self.layers@[k].loaded(old.layers@[k], weights, k)
        &&& copied(self.norm, old.norm, weights.lookup("model.norm.weight"@))
        &&& copied(self.lm_head, old.lm_head, weights.lookup("lm_head.weight"@))
    }

    /// Every tensor that loading from `weights` would transpose has at least
    /// two dimensions.
    pub closed spec fn loadable(&self, weights: ModelWeights) -> bool {
        &&& forall|k: int| 0 <= k < self.layers@.len() ==> #[trigger] self.layers@[k].loadable(weights, k)
    }

    /// Loads the weights of `weights` that this part names.
    fn load_weights(&mut self, weights: &ModelWeights) -> (r: Result<(), ModelError>)
        ensures
            r is Ok <==> old(self).loadable(*weights),
            r is Ok ==> final(self).loaded(*old(self), *weights),
            r matches Err(e) ==> is_transpose_error(e),
    {
        load_copy(&mut self.embed_tokens, weights, "model.embed_tokens.weight");
        load_copy(&mut self.norm, weights, "model.norm.weight");
        load_copy(&mut self.lm_head, weights, "lm_head.weight");
        let mut taken_layers: Vec<DbrxLayer> = Vec::new();
        std::mem::swap(&mut taken_layers, &mut self.layers);
        self.layers = Self::load_layers(taken_layers, weights)?;
        Ok(())
    }

    /// Loads each of `items`, in order, from `weights`.
    fn load_layers(items: Vec<DbrxLayer>, weights: &ModelWeights) -> (r: Result<Vec<DbrxLayer>, ModelError>)
        ensures
            r is Ok <==> forall|k: int| 0 <= k < items@.len() ==> #[trigger] items@[k].loadable(*weights, k),
            r matches Ok(v) ==> v@.len() == items@.len() && forall|k: int| 0 <= k < items@.len() ==> #[trigger] v@[k].loaded(items@[k], *weights, k),
            r matches Err(e) ==> is_transpose_error(e),
    {
        let mut rest = items;
        let mut done: Vec<DbrxLayer> = Vec::new();
        while rest.len() > 0
            invariant
                done@.len() + rest@.len() == items@.len(),
                rest@ == items@.subrange(done@.len() as int, items@.len() as int),
                forall|k: int| 0 <= k < done@.len() ==> #[trigger] done@[k].loaded(items@[k], *weights, k),
                forall|k: int| 0 <= k < done@.len() ==> #[trigger] items@[k].loadable(*weights, k),
            decreases rest@.len(),
        {
            let n = done.len();
            let mut item = rest.remove(0);
            assert(item == items@[n as int]);
            match item.load_weights(weights, n) {
                Ok(()) => {},
                Err(e) => {
                    assert(!items@[n as int].loadable(*weights, n as int));
                    return Err(e);
                },
            }
            done.push(item);
            assert(rest@ =~= items@.subrange(done@.len() as int, items@.len() as int));
        }
        Ok(done)
    }
}

impl DbrxLayer {
    /// `self` is `old` after loading from `weights`: each weight whose
    /// checkpoint name `weights` holds takes that tensor's shape, element
    /// type, device and elements (as is, or transposed for a matrix product),
    /// and nothing else changes.
    pub closed spec fn loaded(&self, old: Self, weights: ModelWeights, idx: int) -> bool {
        &&& transposed(self.self_attn.qkv_proj, old.self_attn.qkv_proj, weights.lookup(indexed("model.layers."@, idx, ".self_attn.Wqkv.weight"@)))
        &&& transposed(self.self_attn.o_proj, old.self_attn.o_proj, weights.lookup(indexed("model.layers."@, idx, ".self_attn.out_proj.weight"@)))
        &&& self.self_attn.num_heads == old.self_attn.num_heads
        &&& self.self_attn.num_kv_heads == old.self_attn.num_kv_heads
        &&& self.self_attn.head_dim == old.self_attn.head_dim
        &&& self.moe == old.moe
        &&& copied(self.input_layernorm, old.input_layernorm, weights.lookup(indexed("model.layers."@, idx, ".input_layernorm.weight"@)))
        &&& copied(self.post_attention_layernorm, old.post_attention_layernorm, weights.lookup(indexed("model.layers."@, idx, ".post_attention_layernorm.weight"@)))
    }

    /// Every tensor that loading from `weights` would transpose has at least
    /// two dimensions.
    pub closed spec fn loadable(&self, weights: ModelWeights, idx: int) -> bool {
        &&& transposable(weights.lookup(indexed("model.layers."@, idx, ".self_attn.Wqkv.weight"@)))
        &&& transposable(weights.lookup(indexed("model.layers."@, idx, ".self_attn.out_proj.weight"@)))
    }

    /// Loads the weights of `weights` that this part names.
    fn load_weights(&mut self, weights: &ModelWeights, layer_idx: usize) -> (r: Result<(), ModelError>)
        ensures
            r is Ok <==> old(self).loadable(*weights, layer_idx as int),
            r is Ok ==> final(self).loaded(*old(self), *weights, layer_idx as int),
            r matches Err(e) ==> is_transpose_error(e),
    {
        load_transposed(&mut self.self_attn.qkv_proj, weights, indexed_name("model.layers.", layer_idx, ".self_attn.Wqkv.weight").as_str())?;
        load_transposed(&mut self.self_attn.o_proj, weights, indexed_name("model.layers.", layer_idx, ".self_attn.out_proj.weight").as_str())?;
        load_copy(&mut self.input_layernorm, weights, indexed_name("model.layers.", layer_idx, ".input_layernorm.weight").as_str());
        load_copy(&mut self.post_attention_layernorm, weights, indexed_name("model.layers.", layer_idx, ".post_attention_layernorm.weight").as_str());
        Ok(())
    }
}


impl DbrxModelV2 {
    /// Builds the model for `config` as `new` does and loads the weights that
    /// `weights` holds under their checkpoint names: the result is the built
    /// model with those weights taken, and an error exactly when a tensor that
    /// must be transposed has fewer than two dimensions.
    pub fn from_weights(config: DbrxConfig, weights: ModelWeights) -> (r: Result<Self, ModelError>)
        requires
            config.num_attention_heads > 0,
            config.num_attention_heads * (config.hidden_size / config.num_attention_heads) <= usize::MAX,
            2 * config.num_key_value_heads <= usize::MAX,
            2 * config.num_key_value_heads * (config.hidden_size / config.num_attention_heads) <= usize::MAX,
            config.num_attention_heads * (config.hidden_size / config.num_attention_heads) + 2 * config.num_key_value_heads * (config.hidden_size / config.num_attention_heads) <= usize::MAX,
        ensures
            exists|built: Self| #[trigger] built.built_for(config, Device::CPU) && built.spec_config() == config
                && built.spec_device() == Device::CPU && (r is Ok <==> built.loadable(weights))
                && (r matches Ok(m) ==> m.spec_config() == config && m.spec_device() == Device::CPU && m.loaded(built, weights))
                && (r matches Err(e) ==> is_transpose_error(e)),
    {
        let mut model = match Self::new(config) {
            Ok(m) => m,
            Err(e) => {
                return Err(e);
            },
        };
        let ghost built = model;
        match model.load_weights(&weights) {
            Ok(()) => {
                assert(built.built_for(config, Device::CPU));
                Ok(model)
            },
            Err(e) => {
                assert(built.built_for(config, Device::CPU));
                Err(e)
            },
        }
    }
}

impl DbrxModelV2 {
    /// Moving to `d1` and then to `d2` leaves the model as a single move to
    /// `d2` would: the second move overrides the first.
    pub proof fn lemma_moves_compose(first: Self, second: Self, third: Self, d1: Device, d2: Device)
        requires
            second.moved_from(first, d1),
            third.moved_from(second, d2),
        ensures
            third.moved_from(first, d2),
    {
        assert forall|k: int| 0 <= k < third.layers@.len() implies #[trigger] third.layers@[k].moved_from(first.layers@[k], d2) by {
            DbrxLayer::lemma_moves_compose(first.layers@[k], second.layers@[k], third.layers@[k], d1, d2);
        }
    }
}

impl DbrxLayer {
    /// A move to `d1` followed by a move to `d2` is a move to `d2`.
    proof fn lemma_moves_compose(first: Self, second: Self, third: Self, d1: Device, d2: Device)
        requires
            second.moved_from(first, d1),
            third.moved_from(second, d2),
        ensures
            third.moved_from(first, d2),
    {
        DbrxAttention::lemma_moves_compose(first.self_attn, second.self_attn, third.self_attn, d1, d2);
        DbrxMoE::lemma_moves_compose(first.moe, second.moe, third.moe, d1, d2);
    }
}

impl DbrxAttention {
    /// A move to `d1` followed by a move to `d2` is a move to `d2`.
    proof fn lemma_moves_compose(first: Self, second: Self, third: Self, d1: Device, d2: Device)
        requires
            second.moved_from(first, d1),
            third.moved_from(second, d2),
        ensures
            third.moved_from(first, d2),
    {
    }
}

impl DbrxMoE {
    /// A move to `d1` followed by a move to `d2` is a move to `d2`.
    proof fn lemma_moves_compose(first: Self, second: Self, third: Self, d1: Device, d2: Device)
        requires
            second.moved_from(first, d1),
            third.moved_from(second, d2),
        ensures
            third.moved_from(first, d2),
    {
        assert forall|k: int| 0 <= k < third.experts@.len() implies #[trigger] third.experts@[k].moved_from(first.experts@[k], d2) by {
            DbrxExpert::lemma_moves_compose(first.experts@[k], second.experts@[k], third.experts@[k], d1, d2);
        }
    }
}

impl DbrxExpert {
    /// A move to `d1` followed by a move to `d2` is a move to `d2`.
    proof fn lemma_moves_compose(first: Self, second: Self, third: Self, d1: Device, d2: Device)
        requires
            second.moved_from(first, d1),
            third.moved_from(second, d2),
        ensures
            third.moved_from(first, d2),
    {
    }
}

} // verus!

verus! {

impl DbrxConfig {
    /// The default configuration has these sizes: the clauses below.
    pub proof fn lemma_default_sizes(&self)
        requires
            self.gguf_fields_default(),
        ensures
            self.vocab_size == 100352,
            self.hidden_size == 6144,
            self.intermediate_size == 10752,
            self.num_hidden_layers == 40,
            self.num_attention_heads == 48,
            self.num_key_value_heads == 8,
            self.max_position_embeddings == 32768,
            self.rope_theta.bits == 0x48f42400,
    {
    }

    /// The default configuration has these remaining settings: the clauses below.
    pub proof fn lemma_default_settings(&self)
        requires
            self.other_fields_default(),
        ensures
            self.hidden_act@ == "silu"@,
            self.rms_norm_eps.bits == 0x3727c5ac,
            self.use_cache == true,
            self.pad_token_id == 0,
            self.bos_token_id == 1,
            self.eos_token_id == 2,
            self.tie_word_embeddings == false,
            self.num_experts == 16,
            self.num_experts_per_tok == 4,
    {
    }

    /// The default configuration is the one with the default sizes and settings: the clauses below.
    pub proof fn lemma_default_parts(&self)
        requires
            self.is_default(),
        ensures
            ({
            self.gguf_fields_default() && self.other_fields_default()
        }),
    {
    }
}

impl DbrxModelV2 {
    /// Built for `config` on `device`, each weight is the zero tensor of the shape the configuration gives, on `device`, and each recorded size is the configured one: the clauses below.
    pub proof fn lemma_built_weights(&self, config: DbrxConfig, device: Device)
        requires
            self.built_for(config, device),
        ensures
            self.embed_tokens.is_f32(seq![config.vocab_size, config.hidden_size], device),
            self.layers@.len() == config.num_hidden_layers,
            forall|k: int| 0 <= k < self.layers@.len() ==> #[trigger] self.layers@[k].built_for(config, device),
            self.norm.is_f32(seq![config.hidden_size], device),
            self.lm_head.is_f32(seq![config.vocab_size, config.hidden_size], device),
    {
    }

    /// After a move to `device`, every weight lies on `device` with its shape, element type and elements kept, and nothing else changes: the clauses below.
    pub proof fn lemma_moved_weights(&self, before: Self, device: Device)
        requires
            self.moved_from(before, device),
        ensures
            self.config == before.config,
            self.device == device,
            self.embed_tokens.is_placed(before.embed_tokens, device),
            self.layers@.len() == before.layers@.len(),
            forall|k: int| 0 <= k < self.layers@.len() ==> #[trigger] self.layers@[k].moved_from(before.layers@[k], device),
            self.norm.is_placed(before.norm, device),
            self.lm_head.is_placed(before.lm_head, device),
    {
    }

    /// After loading from `weights`, each weight holds the tensor stored under its checkpoint name, copied or transposed, and keeps its previous value when the name is absent; nothing else changes: the clauses below.
    pub proof fn lemma_loaded_weights(&self, before: Self, weights: ModelWeights)
        requires
            self.loaded(before, weights),
        ensures
            self.config == before.config,
            self.device == before.device,
            copied(self.embed_tokens, before.embed_tokens, weights.lookup("model.embed_tokens.weight"@)),
            self.layers@.len() == before.layers@.len(),
            forall|k: int| 0 <= k < before.layers@.len() ==> #[trigger] self.layers@[k].loaded(before.layers@[k], weights, k),
            copied(self.norm, before.norm, weights.lookup("model.norm.weight"@)),
            copied(self.lm_head, before.lm_head, weights.lookup("lm_head.weight"@)),
    {
    }

    /// Loading from `weights` succeeds only when every tensor it must transpose, found under these checkpoint names, has at least two dimensions: the clauses below.
    pub proof fn lemma_loadable_names(&self, weights: ModelWeights)
        requires
            self.loadable(weights),
        ensures
            forall|k: int| 0 <= k < self.layers@.len() ==> #[trigger] self.layers@[k].loadable(weights, k),
    {
    }
}

impl DbrxLayer {
    /// Built for `config` on `device`, each weight is the zero tensor of the shape the configuration gives, on `device`, and each recorded size is the configured one: the clauses below.
    pub proof fn lemma_built_weights(&self, config: DbrxConfig, device: Device)
        requires
            self.built_for(config, device),
        ensures
            self.self_attn.built_for(config, device),
            self.moe.built_for(config, device),
            self.input_layernorm.is_f32(seq![config.hidden_size], device),
            self.post_attention_layernorm.is_f32(seq![config.hidden_size], device),
    {
    }

    /// After a move to `device`, every weight lies on `device` with its shape, element type and elements kept, and nothing else changes: the clauses below.
    pub proof fn lemma_moved_weights(&self, before: Self, device: Device)
        requires
            self.moved_from(before, device),
        ensures
            self.self_attn.moved_from(before.self_attn, device),
            self.moe.moved_from(before.moe, device),
            self.input_layernorm.is_placed(before.input_layernorm, device),
            self.post_attention_layernorm.is_placed(before.post_attention_layernorm, device),
    {
    }

    /// After loading from `weights`, each weight holds the tensor stored under its checkpoint name, copied or transposed, and keeps its previous value when the name is absent; nothing else changes: the clauses below.
    pub proof fn lemma_loaded_weights(&self, before: Self, weights: ModelWeights, idx: int)
        requires
            self.loaded(before, weights, idx),
        ensures
            transposed(self.self_attn.qkv_proj, before.self_attn.qkv_proj, weights.lookup(indexed("model.layers."@, idx, ".self_attn.Wqkv.weight"@))),
            transposed(self.self_attn.o_proj, before.self_attn.o_proj, weights.lookup(indexed("model.layers."@, idx, ".self_attn.out_proj.weight"@))),
            self.self_attn.num_heads == before.self_attn.num_heads,
            self.self_attn.num_kv_heads == before.self_attn.num_kv_heads,
            self.self_attn.head_dim == before.self_attn.head_dim,
            self.moe == before.moe,
            copied(self.input_layernorm, before.input_layernorm, weights.lookup(indexed("model.layers."@, idx, ".input_layernorm.weight"@))),
            copied(self.post_attention_layernorm, before.post_attention_layernorm, weights.lookup(indexed("model.layers."@, idx, ".post_attention_layernorm.weight"@))),
    {
    }

    /// Loading from `weights` succeeds only when every tensor it must transpose, found under these checkpoint names, has at least two dimensions: the clauses below.
    pub proof fn lemma_loadable_names(&self, weights: ModelWeights, idx: int)
        requires
            self.loadable(weights, idx),
        ensures
            transposable(weights.lookup(indexed("model.layers."@, idx, ".self_attn.Wqkv.weight"@))),
            transposable(weights.lookup(indexed("model.layers."@, idx, ".self_attn.out_proj.weight"@))),
    {
    }
}

impl DbrxAttention {
    /// Built for `config` on `device`, each weight is the zero tensor of the shape the configuration gives, on `device`, and each recorded size is the configured one: the clauses below.
    pub proof fn lemma_built_weights(&self, config: DbrxConfig, device: Device)
        requires
            self.built_for(config, device),
        ensures
            ({
            let head_dim = config.hidden_size / config.num_attention_heads;
            let qkv_size = (config.num_attention_heads * head_dim + 2 * config.num_key_value_heads * head_dim) as usize;
            &&& self.qkv_proj.is_f32(seq![config.hidden_size, qkv_size], device)
            &&& self.o_proj.is_f32(seq![config.hidden_size, config.hidden_size], device)
            &&& self.num_heads == config.num_attention_heads
            &&& self.num_kv_heads == config.num_key_value_heads
            &&& self.head_dim == head_dim
        }),
    {
    }

    /// After a move to `device`, every weight lies on `device` with its shape, element type and elements kept, and nothing else changes: the clauses below.
    pub proof fn lemma_moved_weights(&self, before: Self, device: Device)
        requires
            self.moved_from(before, device),
        ensures
            self.qkv_proj.is_placed(before.qkv_proj, device),
            self.o_proj.is_placed(before.o_proj, device),
            self.num_heads == before.num_heads,
            self.num_kv_heads == before.num_kv_heads,
            self.head_dim == before.head_dim,
    {
    }
}

impl DbrxMoE {
    /// Built for `config` on `device`, each weight is the zero tensor of the shape the configuration gives, on `device`, and each recorded size is the configured one: the clauses below.
    pub proof fn lemma_built_weights(&self, config: DbrxConfig, device: Device)
        requires
            self.built_for(config, device),
        ensures
            self.router.is_f32(seq![config.hidden_size, config.num_experts], device),
            self.experts@.len() == config.num_experts,
            forall|k: int| 0 <= k < self.experts@.len() ==> #[trigger] self.experts@[k].built_for(config, device),
            self.num_experts_per_tok == config.num_experts_per_tok,
    {
    }

    /// After a move to `device`, every weight lies on `device` with its shape, element type and elements kept, and nothing else changes: the clauses below.
    pub proof fn lemma_moved_weights(&self, before: Self, device: Device)
        requires
            self.moved_from(before, device),
        ensures
            self.router.is_placed(before.router, device),
            self.experts@.len() == before.experts@.len(),
            forall|k: int| 0 <= k < self.experts@.len() ==> #[trigger] self.experts@[k].moved_from(before.experts@[k], device),
            self.num_experts_per_tok == before.num_experts_per_tok,
    {
    }
}

impl DbrxExpert {
    /// Built for `config` on `device`, each weight is the zero tensor of the shape the configuration gives, on `device`, and each recorded size is the configured one: the clauses below.
    pub proof fn lemma_built_weights(&self, config: DbrxConfig, device: Device)
        requires
            self.built_for(config, device),
        ensures
            self.gate_proj.is_f32(seq![config.hidden_size, config.intermediate_size], device),
            self.up_proj.is_f32(seq![config.hidden_size, config.intermediate_size], device),
            self.down_proj.is_f32(seq![config.intermediate_size, config.hidden_size], device),
    {
    }

    /// After a move to `device`, every weight lies on `device` with its shape, element type and elements kept, and nothing else changes: the clauses below.
    pub proof fn lemma_moved_weights(&self, before: Self, device: Device)
        requires
            self.moved_from(before, device),
        ensures
            self.gate_proj.is_placed(before.gate_proj, device),
            self.up_proj.is_placed(before.up_proj, device),
            self.down_proj.is_placed(before.down_proj, device),
    {
    }
}

/// `dbrx_param_count` is, for every configuration, the formula below.
pub proof fn lemma_dbrx_param_count_formula(c: DbrxConfig)
    ensures
        dbrx_param_count(c) == (c.vocab_size * c.hidden_size + c.num_hidden_layers * 8 * (c.hidden_size * c.hidden_size)),
{
}

} // verus!
