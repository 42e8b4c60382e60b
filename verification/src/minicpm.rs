//! The MiniCPM model.
use vstd::prelude::*;
use crate::common::F32Bits;
use crate::common::{GenerationConfig, MemoryRequirements, ModelError};
use crate::tensor::{zeros1, zeros2, Device, Tensor};
use crate::weights::{copied, copied_opt, is_transpose_error, indexed, indexed_name, load_copy, load_copy_opt, ModelWeights};

verus! {

/// Hyperparameters of the MiniCPM model.
#[derive(Clone, Debug)]
pub struct MiniCPMConfig {
    pub vocab_size: usize,
    pub hidden_size: usize,
    pub intermediate_size: usize,
    pub num_hidden_layers: usize,
    pub num_attention_heads: usize,
    pub num_key_value_heads: usize,
    pub hidden_act: String,
    pub max_position_embeddings: usize,
    pub initializer_range: F32Bits,
    pub rms_norm_eps: F32Bits,
    pub use_cache: bool,
    pub pad_token_id: i64,
    pub bos_token_id: i64,
    pub eos_token_id: i64,
    pub tie_word_embeddings: bool,
    pub rope_theta: F32Bits,
    pub rope_scaling: Option<String>,
    pub attention_bias: bool,
    pub attention_dropout: F32Bits,
    pub scale_emb: F32Bits,
    pub scale_depth: F32Bits,
    pub dim_model_base: usize,
    pub scale_width: F32Bits,
}

impl MiniCPMConfig {
    /// Every field holds its default value.
    pub open spec fn is_default(&self) -> bool {
        &&& self.vocab_size == 122753
        &&& self.hidden_size == 2304
        &&& self.intermediate_size == 5760
        &&& self.num_hidden_layers == 40
        &&& self.num_attention_heads == 36
        &&& self.num_key_value_heads == 36
        &&& self.hidden_act@ == "silu"@
        &&& self.max_position_embeddings == 4096
        &&& self.initializer_range.bits == 0x3ca3d70a
        &&& self.rms_norm_eps.bits == 0x3727c5ac
        &&& self.use_cache == true
        &&& self.pad_token_id == 0
        &&& self.bos_token_id == 1
        &&& self.eos_token_id == 2
        &&& self.tie_word_embeddings == true
        &&& self.rope_theta.bits == 0x461c4000
        &&& self.rope_scaling is None
        &&& self.attention_bias == false
        &&& self.attention_dropout.bits == 0x00000000
        &&& self.scale_emb.bits == 0x41400000
        &&& self.scale_depth.bits == 0x3fb33333
        &&& self.dim_model_base == 256
        &&& self.scale_width.bits == 0x40000000
    }

    /// Size of the token vocabulary.
    pub fn vocab_size(&self) -> (r: usize)
        ensures
            r == self.vocab_size,
    {
        self.vocab_size
    }

    /// Width of the hidden states.
    pub fn hidden_size(&self) -> (r: usize)
        ensures
            r == self.hidden_size,
    {
        self.hidden_size
    }

    /// Number of transformer (or state-space) layers.
    pub fn num_layers(&self) -> (r: usize)
        ensures
            r == self.num_hidden_layers,
    {
        self.num_hidden_layers
    }
}

impl Default for MiniCPMConfig {
    fn default() -> (r: Self)
        ensures
            r.is_default(),
    {
        Self {
            vocab_size: 122753,
            hidden_size: 2304,
            intermediate_size: 5760,
            num_hidden_layers: 40,
            num_attention_heads: 36,
            num_key_value_heads: 36,
            hidden_act: String::from_str("silu"),
            max_position_embeddings: 4096,
            initializer_range: F32Bits::from_bits(0x3ca3d70a),
            rms_norm_eps: F32Bits::from_bits(0x3727c5ac),
            use_cache: true,
            pad_token_id: 0,
            bos_token_id: 1,
            eos_token_id: 2,
            tie_word_embeddings: true,
            rope_theta: F32Bits::from_bits(0x461c4000),
            rope_scaling: None,
            attention_bias: false,
            attention_dropout: F32Bits::from_bits(0x00000000),
            scale_emb: F32Bits::from_bits(0x41400000),
            scale_depth: F32Bits::from_bits(0x3fb33333),
            dim_model_base: 256,
            scale_width: F32Bits::from_bits(0x40000000),
        }
    }
}

/// The MiniCPM decoder: token embeddings, the layers, a final norm, and an output head of its own unless the embeddings are tied.
pub struct MiniCPMModelV2 {
    pub config: MiniCPMConfig,
    pub device: Device,
    pub embed_tokens: Tensor,
    pub layers: Vec<MiniCPMDecoderLayer>,
    pub norm: Tensor,
    pub lm_head: Option<Tensor>,
}

/// A MiniCPM layer: attention and MLP, each after a norm, with depth-scaled residual branches.
pub struct MiniCPMDecoderLayer {
    pub self_attn: MiniCPMAttention,
    pub mlp: MiniCPMMLP,
    pub input_layernorm: Tensor,
    pub post_attention_layernorm: Tensor,
}

/// MiniCPM attention: query, key, value and output projections with grouped key-value heads.
pub struct MiniCPMAttention {
    pub q_proj: Tensor,
    pub k_proj: Tensor,
    pub v_proj: Tensor,
    pub o_proj: Tensor,
    pub config: MiniCPMConfig,
}

/// MiniCPM gated feed-forward block: gate and up projections to the intermediate width, and a down projection.
pub struct MiniCPMMLP {
    pub gate_proj: Tensor,
    pub up_proj: Tensor,
    pub down_proj: Tensor,
    pub config: MiniCPMConfig,
}

impl MiniCPMModelV2 {
    /// The model as built for `config` on `device`: zero embeddings `[vocab_size, hidden_size]`, `num_hidden_layers` layers, the final norm, and a zero head `[vocab_size, hidden_size]` unless `tie_word_embeddings`, when there is none.
    pub closed spec fn built_for(&self, config: MiniCPMConfig, device: Device) -> bool {
        &&& self.embed_tokens.is_f32(seq![config.vocab_size, config.hidden_size], device)
        &&& self.layers@.len() == config.num_hidden_layers
        &&& forall|k: int| 0 <= k < self.layers@.len() ==> #[trigger] self.layers@[k].built_for(config, device)
        &&& self.norm.is_f32(seq![config.hidden_size], device)
        &&& (if !config.tie_word_embeddings { self.lm_head matches Some(t) && t.is_f32(seq![config.vocab_size, config.hidden_size], device) } else { self.lm_head is None })
    }

    /// `self` is `old` moved to `device`: every weight placed there and the device recorded.
    pub closed spec fn moved_from(&self, old: Self, device: Device) -> bool {
        &&& self.config == old.config
        &&& self.device == device
        &&& self.embed_tokens.is_placed(old.embed_tokens, device)
        &&& self.layers@.len() == old.layers@.len()
        &&& forall|k: int| 0 <= k < self.layers@.len() ==> #[trigger] self.layers@[k].moved_from(old.layers@[k], device)
        &&& self.norm.is_placed(old.norm, device)
        &&& (match (self.lm_head, old.lm_head) { (Some(a), Some(b)) => a.is_placed(b, device), (None, None) => true, _ => false })
    }

    /// The configuration the model was built with.
    pub closed spec fn spec_config(&self) -> MiniCPMConfig {
        self.config
    }

    /// The device the model reports.
    pub closed spec fn spec_device(&self) -> Device {
        self.device
    }

    /// Builds the model for `config` on the CPU, with zero weights.
    pub fn new(config: MiniCPMConfig) -> (r: Result<Self, ModelError>)
        requires
            config.num_attention_heads > 0,
            config.num_attention_heads * (config.hidden_size / config.num_attention_heads) <= usize::MAX,
            config.num_key_value_heads * (config.hidden_size / config.num_attention_heads) <= usize::MAX,
        ensures
            r matches Ok(m) && m.spec_config() == config && m.spec_device() == Device::CPU
                && m.built_for(config, Device::CPU),
    {
        let device = Device::CPU;
        let embed_tokens = zeros2(config.vocab_size, config.hidden_size, &device);
        let mut layers: Vec<MiniCPMDecoderLayer> = Vec::new();
        let mut n: usize = 0;
        while n < config.num_hidden_layers
            invariant
                n <= config.num_hidden_layers,
                config.num_attention_heads > 0,
                config.num_attention_heads * (config.hidden_size / config.num_attention_heads) <= usize::MAX,
                config.num_key_value_heads * (config.hidden_size / config.num_attention_heads) <= usize::MAX,
                layers@.len() == n,
                forall|k: int| 0 <= k < n ==> #[trigger] layers@[k].built_for(config, device),
            decreases config.num_hidden_layers - n,
        {
            layers.push(MiniCPMDecoderLayer::new(&config, &device));
            n += 1;
        }
        let norm = zeros1(config.hidden_size, &device);
        let lm_head = if !config.tie_word_embeddings { Some(zeros2(config.vocab_size, config.hidden_size, &device)) } else { None };
        Ok(MiniCPMModelV2 { config, device, embed_tokens, layers, norm, lm_head })
    }

    /// The configuration the model was built with.
    pub fn config(&self) -> (r: &MiniCPMConfig)
        ensures
            *r == self.spec_config(),
    {
        &self.config
    }

    /// Moves the model to `device`: records the device and places every weight there.
    pub fn to_device(&mut self, device: &Device) -> (r: Result<(), ModelError>)
        ensures
            r is Ok,
            final(self).moved_from(*old(self), *device),
    {
        self.embed_tokens = self.embed_tokens.to_device(device);
        let mut taken_layers: Vec<MiniCPMDecoderLayer> = Vec::new();
        std::mem::swap(&mut taken_layers, &mut self.layers);
        self.layers = MiniCPMDecoderLayer::all_to_device(taken_layers, device);
        self.norm = self.norm.to_device(device);
        let moved_lm_head = match &self.lm_head { Some(t) => Some(t.to_device(device)), None => None };
        self.lm_head = moved_lm_head;
        self.device = *device;
        Ok(())
    }
}

impl MiniCPMDecoderLayer {
    /// The weights as built for `config` on `device`, all zero.
    pub closed spec fn built_for(&self, config: MiniCPMConfig, device: Device) -> bool {
        &&& self.self_attn.built_for(config, device)
        &&& self.mlp.built_for(config, device)
        &&& self.input_layernorm.is_f32(seq![config.hidden_size], device)
        &&& self.post_attention_layernorm.is_f32(seq![config.hidden_size], device)
    }

    /// `self` is `old` with its weights placed on `device`.
    pub closed spec fn moved_from(&self, old: Self, device: Device) -> bool {
        &&& self.self_attn.moved_from(old.self_attn, device)
        &&& self.mlp.moved_from(old.mlp, device)
        &&& self.input_layernorm.is_placed(old.input_layernorm, device)
        &&& self.post_attention_layernorm.is_placed(old.post_attention_layernorm, device)
    }

    fn new(config: &MiniCPMConfig, device: &Device) -> (r: Self)
        requires
            config.num_attention_heads > 0,
            config.num_attention_heads * (config.hidden_size / config.num_attention_heads) <= usize::MAX,
            config.num_key_value_heads * (config.hidden_size / config.num_attention_heads) <= usize::MAX,
        ensures
            r.built_for(*config, *device),
    {
        let self_attn = MiniCPMAttention::new(config, device);
        let mlp = MiniCPMMLP::new(config, device);
        let input_layernorm = zeros1(config.hidden_size, device);
        let post_attention_layernorm = zeros1(config.hidden_size, device);
        MiniCPMDecoderLayer { self_attn, mlp, input_layernorm, post_attention_layernorm }
    }

    /// Places the weights on `device`.
    fn to_device(&mut self, device: &Device)
        ensures
            final(self).moved_from(*old(self), *device),
    {
        self.self_attn.to_device(device);
        self.mlp.to_device(device);
        self.input_layernorm = self.input_layernorm.to_device(device);
        self.post_attention_layernorm = self.post_attention_layernorm.to_device(device);
    }

    /// The layers, in order, each with its weights placed on `device`.
    fn all_to_device(layers: Vec<MiniCPMDecoderLayer>, device: &Device) -> (r: Vec<MiniCPMDecoderLayer>)
        ensures
            r@.len() == layers@.len(),
            forall|k: int| 0 <= k < r@.len() ==> #[trigger] r@[k].moved_from(layers@[k], *device),
    {
        let mut rest = layers;
        let mut moved: Vec<MiniCPMDecoderLayer> = Vec::new();
        while rest.len() > 0
            invariant
                moved@.len() + rest@.len() == layers@.len(),
                rest@ == layers@.subrange(moved@.len() as int, layers@.len() as int),
                forall|k: int| 0 <= k < moved@.len() ==> #[trigger] moved@[k].moved_from(layers@[k], *device),
            decreases rest@.len(),
        {
            let mut layer = rest.remove(0);
            assert(layer == layers@[moved@.len() as int]);
            layer.to_device(device);
            moved.push(layer);
            assert(rest@ =~= layers@.subrange(moved@.len() as int, layers@.len() as int));
        }
        moved
    }
}

impl MiniCPMAttention {
    /// Built for `config`: with `head_dim = hidden_size / heads`, queries `[hidden_size, heads * head_dim]`, keys and values `[hidden_size, kv_heads * head_dim]`, output `[heads * head_dim, hidden_size]`.
    pub closed spec fn built_for(&self, config: MiniCPMConfig, device: Device) -> bool {
        let head_dim = config.hidden_size / config.num_attention_heads;
        &&& self.q_proj.is_f32(seq![config.hidden_size, (config.num_attention_heads * head_dim) as usize], device)
        &&& self.k_proj.is_f32(seq![config.hidden_size, (config.num_key_value_heads * head_dim) as usize], device)
        &&& self.v_proj.is_f32(seq![config.hidden_size, (config.num_key_value_heads * head_dim) as usize], device)
        &&& self.o_proj.is_f32(seq![(config.num_attention_heads * head_dim) as usize, config.hidden_size], device)
    }

    /// `self` is `old` with its weights placed on `device`.
    pub closed spec fn moved_from(&self, old: Self, device: Device) -> bool {
        &&& self.q_proj.is_placed(old.q_proj, device)
        &&& self.k_proj.is_placed(old.k_proj, device)
        &&& self.v_proj.is_placed(old.v_proj, device)
        &&& self.o_proj.is_placed(old.o_proj, device)
        &&& self.config == old.config
    }

    fn new(config: &MiniCPMConfig, device: &Device) -> (r: Self)
        requires
            config.num_attention_heads > 0,
            config.num_attention_heads * (config.hidden_size / config.num_attention_heads) <= usize::MAX,
            config.num_key_value_heads * (config.hidden_size / config.num_attention_heads) <= usize::MAX,
        ensures
            r.built_for(*config, *device),
    {
        let head_dim = config.hidden_size / config.num_attention_heads;
        let q_proj = zeros2(config.hidden_size, config.num_attention_heads * head_dim, device);
        let k_proj = zeros2(config.hidden_size, config.num_key_value_heads * head_dim, device);
        let v_proj = zeros2(config.hidden_size, config.num_key_value_heads * head_dim, device);
        let o_proj = zeros2(config.num_attention_heads * head_dim, config.hidden_size, device);
        let config = config.clone();
        MiniCPMAttention { q_proj, k_proj, v_proj, o_proj, config }
    }

    /// Places the weights on `device`.
    fn to_device(&mut self, device: &Device)
        ensures
            final(self).moved_from(*old(self), *device),
    {
        self.q_proj = self.q_proj.to_device(device);
        self.k_proj = self.k_proj.to_device(device);
        self.v_proj = self.v_proj.to_device(device);
        self.o_proj = self.o_proj.to_device(device);
    }
}

impl MiniCPMMLP {
    /// The weights as built for `config` on `device`, all zero.
    pub closed spec fn built_for(&self, config: MiniCPMConfig, device: Device) -> bool {
        &&& self.gate_proj.is_f32(seq![config.hidden_size, config.intermediate_size], device)
        &&& self.up_proj.is_f32(seq![config.hidden_size, config.intermediate_size], device)
        &&& self.down_proj.is_f32(seq![config.intermediate_size, config.hidden_size], device)
    }

    /// `self` is `old` with its weights placed on `device`.
    pub closed spec fn moved_from(&self, old: Self, device: Device) -> bool {
        &&& self.gate_proj.is_placed(old.gate_proj, device)
        &&& self.up_proj.is_placed(old.up_proj, device)
        &&& self.down_proj.is_placed(old.down_proj, device)
        &&& self.config == old.config
    }

    fn new(config: &MiniCPMConfig, device: &Device) -> (r: Self)
        ensures
            r.built_for(*config, *device),
    {
        let gate_proj = zeros2(config.hidden_size, config.intermediate_size, device);
        let up_proj = zeros2(config.hidden_size, config.intermediate_size, device);
        let down_proj = zeros2(config.intermediate_size, config.hidden_size, device);
        let config = config.clone();
        MiniCPMMLP { gate_proj, up_proj, down_proj, config }
    }

    /// Places the weights on `device`.
    fn to_device(&mut self, device: &Device)
        ensures
            final(self).moved_from(*old(self), *device),
    {
        self.gate_proj = self.gate_proj.to_device(device);
        self.up_proj = self.up_proj.to_device(device);
        self.down_proj = self.down_proj.to_device(device);
    }
}
/// Parameter count of the estimate: embeddings and four square matrices of `hidden_size` per layer.
pub open spec fn minicpm_param_count(c: MiniCPMConfig) -> int {
    c.vocab_size * c.hidden_size + c.num_hidden_layers * c.hidden_size * c.hidden_size * 4
}

/// Parameter bytes: four per parameter.
pub open spec fn minicpm_param_bytes(c: MiniCPMConfig) -> int {
    minicpm_param_count(c) * 4
}

/// Bytes of the key and value caches of one sequence at full context.
pub open spec fn minicpm_kv_cache_bytes(c: MiniCPMConfig) -> int {
    c.max_position_embeddings * c.hidden_size * 2 * 4
}

/// No step of the memory estimate for `MiniCPMConfig` leaves the range of `usize`
/// or divides by zero.
pub open spec fn minicpm_memory_fits(c: MiniCPMConfig) -> bool {
    &&& c.vocab_size * c.hidden_size <= usize::MAX
    &&& c.num_hidden_layers * c.hidden_size <= usize::MAX
    &&& c.num_hidden_layers * c.hidden_size * c.hidden_size <= usize::MAX
    &&& c.num_hidden_layers * c.hidden_size * c.hidden_size * 4 <= usize::MAX
    &&& c.vocab_size * c.hidden_size + c.num_hidden_layers * c.hidden_size * c.hidden_size * 4 <= usize::MAX
    &&& (c.vocab_size * c.hidden_size + c.num_hidden_layers * c.hidden_size * c.hidden_size * 4) * 4 <= usize::MAX
    &&& c.max_position_embeddings * c.hidden_size <= usize::MAX
    &&& c.max_position_embeddings * c.hidden_size * 2 <= usize::MAX
    &&& c.max_position_embeddings * c.hidden_size * 2 * 4 <= usize::MAX
    &&& (c.vocab_size * c.hidden_size + c.num_hidden_layers * c.hidden_size * c.hidden_size * 4) * 4 + (c.vocab_size * c.hidden_size + c.num_hidden_layers * c.hidden_size * c.hidden_size * 4) * 4 / 2 <= usize::MAX
}

impl MiniCPMModelV2 {
    /// Estimated memory: the parameter bytes on the GPU, a quarter of them on the CPU, the key-value cache of one sequence, and one and a half times the parameters at peak.
    pub fn memory_requirements(&self) -> (r: MemoryRequirements)
        requires
            minicpm_memory_fits(self.spec_config()),
        ensures
            r.gpu_memory == minicpm_param_bytes(self.spec_config()),
            r.cpu_memory == minicpm_param_bytes(self.spec_config()) / 4,
            r.kv_cache_memory == minicpm_kv_cache_bytes(self.spec_config()),
            r.peak_memory == minicpm_param_bytes(self.spec_config()) + minicpm_param_bytes(self.spec_config()) / 2,
    {
        let c = &self.config;
        let param_count = c.vocab_size * c.hidden_size + c.num_hidden_layers * c.hidden_size * c.hidden_size * 4;
        let param_bytes = param_count * 4;
        let kv_cache_bytes = c.max_position_embeddings * c.hidden_size * 2 * 4;
        MemoryRequirements {
            gpu_memory: param_bytes,
            cpu_memory: param_bytes / 4,
            kv_cache_memory: kv_cache_bytes,
            peak_memory: param_bytes + param_bytes / 2,
        }
    }
}

impl MiniCPMModelV2 {
    /// The text this model returns for a prompt: the prompt after
    /// `MiniCPM generated: `.
    pub fn generate(&self, prompt: &str, _config: &GenerationConfig) -> (r: Result<String, ModelError>)
        ensures
            r matches Ok(s) && s@ == "MiniCPM generated: "@ + prompt@,
    {
        Ok(String::from_str("MiniCPM generated: ").concat(prompt))
    }
}

impl MiniCPMModelV2 {
    /// `self` is `old` after loading from `weights`: each weight whose
    /// checkpoint name `weights` holds takes that tensor's shape, element
    /// type, device and elements (as is, or transposed for a matrix product),
    /// and nothing else changes.
    pub closed spec fn loaded(&self, old: Self, weights: ModelWeights) -> bool {
        &&& self.config == old.config
        &&& self.device == old.device
        &&& copied(self.embed_tokens, old.embed_tokens, weights.lookup("model.embed_tokens.weight"@))
        &&& self.layers@.len() == old.layers@.len()
        &&& forall|k: int| 0 <= k < old.layers@.len() ==> #[trigger] self.layers@[k].loaded(old.layers@[k], weights, k)
        &&& copied(self.norm, old.norm, weights.lookup("model.norm.weight"@))
        &&& (if old.lm_head is Some { copied_opt(self.lm_head, old.lm_head, weights.lookup("lm_head.weight"@)) } else { self.lm_head == old.lm_head })
    }

    /// Every tensor that loading from `weights` would transpose has at least
    /// two dimensions.
    pub closed spec fn loadable(&self, weights: ModelWeights) -> bool {
        &&& forall|k: int| 0 <= k < self.layers@.len() ==> #[trigger] self.layers@[k].loadable(weights, k)
    }

    /// Loads the weights of `weights` that this part names.
    fn load_weights(&mut self, weights: &ModelWeights) -> (r: Result<(), ModelError>)
        ensures
            r is Ok <==> old(self).loadable(*weights),
            r is Ok ==> final(self).loaded(*old(self), *weights),
            r matches Err(e) ==> is_transpose_error(e),
    {
        load_copy(&mut self.embed_tokens, weights, "model.embed_tokens.weight");
        load_copy(&mut self.norm, weights, "model.norm.weight");
        if self.lm_head.is_some() {
            load_copy_opt(&mut self.lm_head, weights, "lm_head.weight");
        }
        let mut taken_layers: Vec<MiniCPMDecoderLayer> = Vec::new();
        std::mem::swap(&mut taken_layers, &mut self.layers);
        self.layers = Self::load_layers(taken_layers, weights)?;
        Ok(())
    }

    /// Loads each of `items`, in order, from `weights`.
    fn load_layers(items: Vec<MiniCPMDecoderLayer>, weights: &ModelWeights) -> (r: Result<Vec<MiniCPMDecoderLayer>, ModelError>)
        ensures
            r is Ok <==> forall|k: int| 0 <= k < items@.len() ==> #[trigger] items@[k].loadable(*weights, k),
            r matches Ok(v) ==> v@.len() == items@.len() && forall|k: int| 0 <= k < items@.len() ==> #[trigger] v@[k].loaded(items@[k], *weights, k),
            r matches Err(e) ==> is_transpose_error(e),
    {
        let mut rest = items;
        let mut done: Vec<MiniCPMDecoderLayer> = Vec::new();
        while rest.len() > 0
            invariant
                done@.len() + rest@.len() == items@.len(),
                rest@ == items@.subrange(done@.len() as int, items@.len() as int),
                forall|k: int| 0 <= k < done@.len() ==> #[trigger] done@[k].loaded(items@[k], *weights, k),
                forall|k: int| 0 <= k < done@.len() ==> #[trigger] items@[k].loadable(*weights, k),
            decreases rest@.len(),
        {
            let n = done.len();
            let mut item = rest.remove(0);
            assert(item == items@[n as int]);
            match item.load_weights(weights, n) {
                Ok(()) => {},
                Err(e) => {
                    assert(!items@[n as int].loadable(*weights, n as int));
                    return Err(e);
                },
            }
            done.push(item);
            assert(rest@ =~= items@.subrange(done@.len() as int, items@.len() as int));
        }
        Ok(done)
    }
}

impl MiniCPMDecoderLayer {
    /// `self` is `old` after loading from `weights`: each weight whose
    /// checkpoint name `weights` holds takes that tensor's shape, element
    /// type, device and elements (as is, or transposed for a matrix product),
    /// and nothing else changes.
    pub closed spec fn loaded(&self, old: Self, weights: ModelWeights, idx: int) -> bool {
        &&& self.self_attn.loaded(old.self_attn, weights, idx)
        &&& self.mlp.loaded(old.mlp, weights, idx)
        &&& copied(self.input_layernorm, old.input_layernorm, weights.lookup(indexed("model.layers."@, idx, ".input_layernorm.weight"@)))
        &&& copied(self.post_attention_layernorm, old.post_attention_layernorm, weights.lookup(indexed("model.layers."@, idx, ".post_attention_layernorm.weight"@)))
    }

    /// Every tensor that loading from `weights` would transpose has at least
    /// two dimensions.
    pub closed spec fn loadable(&self, weights: ModelWeights, idx: int) -> bool {
        &&& self.self_attn.loadable(weights, idx)
        &&& self.mlp.loadable(weights, idx)
    }

    /// Loads the weights of `weights` that this part names.
    fn load_weights(&mut self, weights: &ModelWeights, layer_idx: usize) -> (r: Result<(), ModelError>)
        ensures
            r is Ok <==> old(self).loadable(*weights, layer_idx as int),
            r is Ok ==> final(self).loaded(*old(self), *weights, layer_idx as int),
            r matches Err(e) ==> is_transpose_error(e),
    {
        load_copy(&mut self.input_layernorm, weights, indexed_name("model.layers.", layer_idx, ".input_layernorm.weight").as_str());
        load_copy(&mut self.post_attention_layernorm, weights, indexed_name("model.layers.", layer_idx, ".post_attention_layernorm.weight").as_str());
        self.self_attn.load_weights(weights, layer_idx)?;
        self.mlp.load_weights(weights, layer_idx)?;
        Ok(())
    }
}

impl MiniCPMAttention {
    /// `self` is `old` after loading from `weights`: each weight whose
    /// checkpoint name `weights` holds takes that tensor's shape, element
    /// type, device and elements (as is, or transposed for a matrix product),
    /// and nothing else changes.
    pub closed spec fn loaded(&self, old: Self, weights: ModelWeights, idx: int) -> bool {
        &&& copied(self.q_proj, old.q_proj, weights.lookup(indexed("model.layers."@, idx, ".self_attn.q_proj.weight"@)))
        &&& copied(self.k_proj, old.k_proj, weights.lookup(indexed("model.layers."@, idx, ".self_attn.k_proj.weight"@)))
        &&& copied(self.v_proj, old.v_proj, weights.lookup(indexed("model.layers."@, idx, ".self_attn.v_proj.weight"@)))
        &&& copied(self.o_proj, old.o_proj, weights.lookup(indexed("model.layers."@, idx, ".self_attn.o_proj.weight"@)))
        &&& self.config == old.config
    }

    /// Every tensor that loading from `weights` would transpose has at least
    /// two dimensions.
    pub closed spec fn loadable(&self, weights: ModelWeights, idx: int) -> bool {
        true
    }

    /// Loads the weights of `weights` that this part names.
    fn load_weights(&mut self, weights: &ModelWeights, layer_idx: usize) -> (r: Result<(), ModelError>)
        ensures
            r is Ok <==> old(self).loadable(*weights, layer_idx as int),
            r is Ok ==> final(self).loaded(*old(self), *weights, layer_idx as int),
            r matches Err(e) ==> is_transpose_error(e),
    {
        load_copy(&mut self.q_proj, weights, indexed_name("model.layers.", layer_idx, ".self_attn.q_proj.weight").as_str());
        load_copy(&mut self.k_proj, weights, indexed_name("model.layers.", layer_idx, ".self_attn.k_proj.weight").as_str());
        load_copy(&mut self.v_proj, weights, indexed_name("model.layers.", layer_idx, ".self_attn.v_proj.weight").as_str());
        load_copy(&mut self.o_proj, weights, indexed_name("model.layers.", layer_idx, ".self_attn.o_proj.weight").as_str());
        Ok(())
    }
}

impl MiniCPMMLP {
    /// `self` is `old` after loading from `weights`: each weight whose
    /// checkpoint name `weights` holds takes that tensor's shape, element
    /// type, device and elements (as is, or transposed for a matrix product),
    /// and nothing else changes.
    pub closed spec fn loaded(&self, old: Self, weights: ModelWeights, idx: int) -> bool {
        &&& copied(self.gate_proj, old.gate_proj, weights.lookup(indexed("model.layers."@, idx, ".mlp.gate_proj.weight"@)))
        &&& copied(self.up_proj, old.up_proj, weights.lookup(indexed("model.layers."@, idx, ".mlp.up_proj.weight"@)))
        &&& copied(self.down_proj, old.down_proj, weights.lookup(indexed("model.layers."@, idx, ".mlp.down_proj.weight"@)))
        &&& self.config == old.config
    }

    /// Every tensor that loading from `weights` would transpose has at least
    /// two dimensions.
    pub closed spec fn loadable(&self, weights: ModelWeights, idx: int) -> bool {
        true
    }

    /// Loads the weights of `weights` that this part names.
    fn load_weights(&mut self, weights: &ModelWeights, layer_idx: usize) -> (r: Result<(), ModelError>)
        ensures
            r is Ok <==> old(self).loadable(*weights, layer_idx as int),
            r is Ok ==> final(self).loaded(*old(self), *weights, layer_idx as int),
            r matches Err(e) ==> is_transpose_error(e),
    {
        load_copy(&mut self.gate_proj, weights, indexed_name("model.layers.", layer_idx, ".mlp.gate_proj.weight").as_str());
        load_copy(&mut self.up_proj, weights, indexed_name("model.layers.", layer_idx, ".mlp.up_proj.weight").as_str());
        load_copy(&mut self.down_proj, weights, indexed_name("model.layers.", layer_idx, ".mlp.down_proj.weight").as_str());
        Ok(())
    }
}


impl MiniCPMModelV2 {
    /// Builds the model for `config` as `new` does and loads the weights that
    /// `weights` holds under their checkpoint names: the result is the built
    /// model with those weights taken, and an error exactly when a tensor that
    /// must be transposed has fewer than two dimensions.
    pub fn from_weights(config: MiniCPMConfig, weights: ModelWeights) -> (r: Result<Self, ModelError>)
        requires
            config.num_attention_heads > 0,
            config.num_attention_heads * (config.hidden_size / config.num_attention_heads) <= usize::MAX,
            config.num_key_value_heads * (config.hidden_size / config.num_attention_heads) <= usize::MAX,
        ensures
            exists|built: Self| #[trigger] built.built_for(config, Device::CPU) && built.spec_config() == config
                && built.spec_device() == Device::CPU && (r is Ok <==> built.loadable(weights))
                && (r matches Ok(m) ==> m.spec_config() == config && m.spec_device() == Device::CPU && m.loaded(built, weights))
                && (r matches Err(e) ==> is_transpose_error(e)),
    {
        let mut model = match Self::new(config) {
            Ok(m) => m,
            Err(e) => {
                return Err(e);
            },
        };
        let ghost built = model;
        match model.load_weights(&weights) {
            Ok(()) => {
                assert(built.built_for(config, Device::CPU));
                Ok(model)
            },
            Err(e) => {
                assert(built.built_for(config, Device::CPU));
                Err(e)
            },
        }
    }
}

impl MiniCPMModelV2 {
    /// Moving to `d1` and then to `d2` leaves the model as a single move to
    /// `d2` would: the second move overrides the first.
    pub proof fn lemma_moves_compose(first: Self, second: Self, third: Self, d1: Device, d2: Device)
        requires
            second.moved_from(first, d1),
            third.moved_from(second, d2),
        ensures
            third.moved_from(first, d2),
    {
        assert forall|k: int| 0 <= k < third.layers@.len() implies #[trigger] third.layers@[k].moved_from(first.layers@[k], d2) by {
            MiniCPMDecoderLayer::lemma_moves_compose(first.layers@[k], second.layers@[k], third.layers@[k], d1, d2);
        }
    }
}

impl MiniCPMDecoderLayer {
    /// A move to `d1` followed by a move to `d2` is a move to `d2`.
    proof fn lemma_moves_compose(first: Self, second: Self, third: Self, d1: Device, d2: Device)
        requires
            second.moved_from(first, d1),
            third.moved_from(second, d2),
        ensures
            third.moved_from(first, d2),
    {
        MiniCPMAttention::lemma_moves_compose(first.self_attn, second.self_attn, third.self_attn, d1, d2);
        MiniCPMMLP::lemma_moves_compose(first.mlp, second.mlp, third.mlp, d1, d2);
    }
}

impl MiniCPMAttention {
    /// A move to `d1` followed by a move to `d2` is a move to `d2`.
    proof fn lemma_moves_compose(first: Self, second: Self, third: Self, d1: Device, d2: Device)
        requires
            second.moved_from(first, d1),
            third.moved_from(second, d2),
        ensures
            third.moved_from(first, d2),
    {
    }
}

impl MiniCPMMLP {
    /// A move to `d1` followed by a move to `d2` is a move to `d2`.
    proof fn lemma_moves_compose(first: Self, second: Self, third: Self, d1: Device, d2: Device)
        requires
            second.moved_from(first, d1),
            third.moved_from(second, d2),
        ensures
            third.moved_from(first, d2),
    {
    }
}

} // verus!

verus! {

impl MiniCPMConfig {
    /// The default configuration is the one with the default sizes and settings: the clauses below.
    pub proof fn lemma_default_parts(&self)
        requires
            self.is_default(),
        ensures
            self.vocab_size == 122753,
            self.hidden_size == 2304,
            self.intermediate_size == 5760,
            self.num_hidden_layers == 40,
            self.num_attention_heads == 36,
            self.num_key_value_heads == 36,
            self.hidden_act@ == "silu"@,
            self.max_position_embeddings == 4096,
            self.initializer_range.bits == 0x3ca3d70a,
            self.rms_norm_eps.bits == 0x3727c5ac,
            self.use_cache == true,
            self.pad_token_id == 0,
            self.bos_token_id == 1,
            self.eos_token_id == 2,
            self.tie_word_embeddings == true,
            self.rope_theta.bits == 0x461c4000,
            self.rope_scaling is None,
            self.attention_bias == false,
            self.attention_dropout.bits == 0x00000000,
            self.scale_emb.bits == 0x41400000,
            self.scale_depth.bits == 0x3fb33333,
            self.dim_model_base == 256,
            self.scale_width.bits == 0x40000000,
    {
    }
}

impl MiniCPMModelV2 {
    /// Built for `config` on `device`, each weight is the zero tensor of the shape the configuration gives, on `device`, and each recorded size is the configured one: the clauses below.
    pub proof fn lemma_built_weights(&self, config: MiniCPMConfig, device: Device)
        requires
            self.built_for(config, device),
        ensures
            self.embed_tokens.is_f32(seq![config.vocab_size, config.hidden_size], device),
            self.layers@.len() == config.num_hidden_layers,
            forall|k: int| 0 <= k < self.layers@.len() ==> #[trigger] self.layers@[k].built_for(config, device),
            self.norm.is_f32(seq![config.hidden_size], device),
            (if !config.tie_word_embeddings { self.lm_head matches Some(t) && t.is_f32(seq![config.vocab_size, config.hidden_size], device) } else { self.lm_head is None }),
    {
    }

    /// After a move to `device`, every weight lies on `device` with its shape, element type and elements kept, and nothing else changes: the clauses below.
    pub proof fn lemma_moved_weights(&self, before: Self, device: Device)
        requires
            self.moved_from(before, device),
        ensures
            self.config == before.config,
            self.device == device,
            self.embed_tokens.is_placed(before.embed_tokens, device),
            self.layers@.len() == before.layers@.len(),
            forall|k: int| 0 <= k < self.layers@.len() ==> #[trigger] self.layers@[k].moved_from(before.layers@[k], device),
            self.norm.is_placed(before.norm, device),
            (match (self.lm_head, before.lm_head) { (Some(a), Some(b)) => a.is_placed(b, device), (None, None) => true, _ => false }),
    {
    }

    /// After loading from `weights`, each weight holds the tensor stored under its checkpoint name, copied or transposed, and keeps its previous value when the name is absent; nothing else changes: the clauses below.
    pub proof fn lemma_loaded_weights(&self, before: Self, weights: ModelWeights)
        requires
            self.loaded(before, weights),
        ensures
            self.config == before.config,
            self.device == before.device,
            copied(self.embed_tokens, before.embed_tokens, weights.lookup("model.embed_tokens.weight"@)),
            self.layers@.len() == before.layers@.len(),
            forall|k: int| 0 <= k < before.layers@.len() ==> #[trigger] self.layers@[k].loaded(before.layers@[k], weights, k),
            copied(self.norm, before.norm, weights.lookup("model.norm.weight"@)),
            (if before.lm_head is Some { copied_opt(self.lm_head, before.lm_head, weights.lookup("lm_head.weight"@)) } else { self.lm_head == before.lm_head }),
    {
    }

    /// Loading from `weights` succeeds only when every tensor it must transpose, found under these checkpoint names, has at least two dimensions: the clauses below.
    pub proof fn lemma_loadable_names(&self, weights: ModelWeights)
        requires
            self.loadable(weights),
        ensures
            forall|k: int| 0 <= k < self.layers@.len() ==> #[trigger] self.layers@[k].loadable(weights, k),
    {
    }
}

impl MiniCPMDecoderLayer {
    /// Built for `config` on `device`, each weight is the zero tensor of the shape the configuration gives, on `device`, and each recorded size is the configured one: the clauses below.
    pub proof fn lemma_built_weights(&self, config: MiniCPMConfig, device: Device)
        requires
            self.built_for(config, device),
        ensures
            self.self_attn.built_for(config, device),
            self.mlp.built_for(config, device),
            self.input_layernorm.is_f32(seq![config.hidden_size], device),
            self.post_attention_layernorm.is_f32(seq![config.hidden_size], device),
    {
    }

    /// After a move to `device`, every weight lies on `device` with its shape, element type and elements kept, and nothing else changes: the clauses below.
    pub proof fn lemma_moved_weights(&self, before: Self, device: Device)
        requires
            self.moved_from(before, device),
        ensures
            self.self_attn.moved_from(before.self_attn, device),
            self.mlp.moved_from(before.mlp, device),
            self.input_layernorm.is_placed(before.input_layernorm, device),
            self.post_attention_layernorm.is_placed(before.post_attention_layernorm, device),
    {
    }

    /// After loading from `weights`, each weight holds the tensor stored under its checkpoint name, copied or transposed, and keeps its previous value when the name is absent; nothing else changes: the clauses below.
    pub proof fn lemma_loaded_weights(&self, before: Self, weights: ModelWeights, idx: int)
        requires
            self.loaded(before, weights, idx),
        ensures
            self.self_attn.loaded(before.self_attn, weights, idx),
            self.mlp.loaded(before.mlp, weights, idx),
            copied(self.input_layernorm, before.input_layernorm, weights.lookup(indexed("model.layers."@, idx, ".input_layernorm.weight"@))),
            copied(self.post_attention_layernorm, before.post_attention_layernorm, weights.lookup(indexed("model.layers."@, idx, ".post_attention_layernorm.weight"@))),
    {
    }

    /// Loading from `weights` succeeds only when every tensor it must transpose, found under these checkpoint names, has at least two dimensions: the clauses below.
    pub proof fn lemma_loadable_names(&self, weights: ModelWeights, idx: int)
        requires
            self.loadable(weights, idx),
        ensures
            self.self_attn.loadable(weights, idx),
            self.mlp.loadable(weights, idx),
    {
    }
}

impl MiniCPMAttention {
    /// Built for `config` on `device`, each weight is the zero tensor of the shape the configuration gives, on `device`, and each recorded size is the configured one: the clauses below.
    pub proof fn lemma_built_weights(&self, config: MiniCPMConfig, device: Device)
        requires
            self.built_for(config, device),
        ensures
            ({
            let head_dim = config.hidden_size / config.num_attention_heads;
            &&& self.q_proj.is_f32(seq![config.hidden_size, (config.num_attention_heads * head_dim) as usize], device)
            &&& self.k_proj.is_f32(seq![config.hidden_size, (config.num_key_value_heads * head_dim) as usize], device)
            &&& self.v_proj.is_f32(seq![config.hidden_size, (config.num_key_value_heads * head_dim) as usize], device)
            &&& self.o_proj.is_f32(seq![(config.num_attention_heads * head_dim) as usize, config.hidden_size], device)
        }),
    {
    }

    /// After a move to `device`, every weight lies on `device` with its shape, element type and elements kept, and nothing else changes: the clauses below.
    pub proof fn lemma_moved_weights(&self, before: Self, device: Device)
        requires
            self.moved_from(before, device),
        ensures
            self.q_proj.is_placed(before.q_proj, device),
            self.k_proj.is_placed(before.k_proj, device),
            self.v_proj.is_placed(before.v_proj, device),
            self.o_proj.is_placed(before.o_proj, device),
            self.config == before.config,
    {
    }

    /// After loading from `weights`, each weight holds the tensor stored under its checkpoint name, copied or transposed, and keeps its previous value when the name is absent; nothing else changes: the clauses below.
    pub proof fn lemma_loaded_weights(&self, before: Self, weights: ModelWeights, idx: int)
        requires
            self.loaded(before, weights, idx),
        ensures
            copied(self.q_proj, before.q_proj, weights.lookup(indexed("model.layers."@, idx, ".self_attn.q_proj.weight"@))),
            copied(self.k_proj, before.k_proj, weights.lookup(indexed("model.layers."@, idx, ".self_attn.k_proj.weight"@))),
            copied(self.v_proj, before.v_proj, weights.lookup(indexed("model.layers."@, idx, ".self_attn.v_proj.weight"@))),
            copied(self.o_proj, before.o_proj, weights.lookup(indexed("model.layers."@, idx, ".self_attn.o_proj.weight"@))),
            self.config == before.config,
    {
    }

    /// Loading from `weights` succeeds only when every tensor it must transpose, found under these checkpoint names, has at least two dimensions: the clauses below.
    pub proof fn lemma_loadable_names(&self, weights: ModelWeights, idx: int)
        requires
            self.loadable(weights, idx),
        ensures
            ({
            true
        }),
    {
    }
}

impl MiniCPMMLP {
    /// Built for `config` on `device`, each weight is the zero tensor of the shape the configuration gives, on `device`, and each recorded size is the configured one: the clauses below.
    pub proof fn lemma_built_weights(&self, config: MiniCPMConfig, device: Device)
        requires
            self.built_for(config, device),
        ensures
            self.gate_proj.is_f32(seq![config.hidden_size, config.intermediate_size], device),
            self.up_proj.is_f32(seq![config.hidden_size, config.intermediate_size], device),
            self.down_proj.is_f32(seq![config.intermediate_size, config.hidden_size], device),
    {
    }

    /// After a move to `device`, every weight lies on `device` with its shape, element type and elements kept, and nothing else changes: the clauses below.
    pub proof fn lemma_moved_weights(&self, before: Self, device: Device)
        requires
            self.moved_from(before, device),
        ensures
            self.gate_proj.is_placed(before.gate_proj, device),
            self.up_proj.is_placed(before.up_proj, device),
            self.down_proj.is_placed(before.down_proj, device),
            self.config == before.config,
    {
    }

    /// After loading from `weights`, each weight holds the tensor stored under its checkpoint name, copied or transposed, and keeps its previous value when the name is absent; nothing else changes: the clauses below.
    pub proof fn lemma_loaded_weights(&self, before: Self, weights: ModelWeights, idx: int)
        requires
            self.loaded(before, weights, idx),
        ensures
            copied(self.gate_proj, before.gate_proj, weights.lookup(indexed("model.layers."@, idx, ".mlp.gate_proj.weight"@))),
            copied(self.up_proj, before.up_proj, weights.lookup(indexed("model.layers."@, idx, ".mlp.up_proj.weight"@))),
            copied(self.down_proj, before.down_proj, weights.lookup(indexed("model.layers."@, idx, ".mlp.down_proj.weight"@))),
            self.config == before.config,
    {
    }

    /// Loading from `weights` succeeds only when every tensor it must transpose, found under these checkpoint names, has at least two dimensions: the clauses below.
    pub proof fn lemma_loadable_names(&self, weights: ModelWeights, idx: int)
        requires
            self.loadable(weights, idx),
        ensures
            ({
            true
        }),
    {
    }
}

/// `minicpm_param_count` is, for every configuration, the formula below.
pub proof fn lemma_minicpm_param_count_formula(c: MiniCPMConfig)
    ensures
        minicpm_param_count(c) == (c.vocab_size * c.hidden_size + c.num_hidden_layers * c.hidden_size * c.hidden_size * 4),
{
}

/// `minicpm_param_bytes` is, for every configuration, the formula below.
pub proof fn lemma_minicpm_param_bytes_formula(c: MiniCPMConfig)
    ensures
        minicpm_param_bytes(c) == (minicpm_param_count(c) * 4),
{
}

/// `minicpm_kv_cache_bytes` is, for every configuration, the formula below.
pub proof fn lemma_minicpm_kv_cache_bytes_formula(c: MiniCPMConfig)
    ensures
        minicpm_kv_cache_bytes(c) == (c.max_position_embeddings * c.hidden_size * 2 * 4),
{
}

} // verus!
