//! The CogVLM model.
use vstd::prelude::*;
use crate::common::F32Bits;
use crate::gguf::GGUFModelConfig;
use crate::common::{MemoryRequirements, ModelError};
use crate::tensor::{zeros1, zeros2, zeros3, Device, Tensor};
use crate::weights::{copied, transposed, transposable, is_transpose_error, load_copy, load_transposed, ModelWeights};

verus! {

/// Hyperparameters of the CogVLM model.
#[derive(Clone, Debug)]
pub struct CogVLMConfig {
    pub vocab_size: usize,
    pub hidden_size: usize,
    pub intermediate_size: usize,
    pub num_hidden_layers: usize,
    pub num_attention_heads: usize,
    pub num_key_value_heads: usize,
    pub vision_hidden_size: usize,
    pub vision_num_hidden_layers: usize,
    pub vision_num_attention_heads: usize,
    pub vision_patch_size: usize,
    pub vision_image_size: usize,
    pub rms_norm_eps: F32Bits,
    pub rope_theta: F32Bits,
    pub pad_token_id: i64,
    pub bos_token_id: i64,
    pub eos_token_id: i64,
}

impl CogVLMConfig {
    /// The fields that a GGUF file supplies hold their default values.
    pub open spec fn gguf_fields_default(&self) -> bool {
        &&& self.vocab_size == 32000
        &&& self.hidden_size == 4096
        &&& self.intermediate_size == 11008
        &&& self.num_hidden_layers == 32
        &&& self.num_attention_heads == 32
        &&& self.num_key_value_heads == 32
        &&& self.rms_norm_eps.bits == 0x3727c5ac
        &&& self.rope_theta.bits == 0x461c4000
    }

    /// The fields that a GGUF file does not supply hold their default values.
    pub open spec fn other_fields_default(&self) -> bool {
        &&& self.vision_hidden_size == 1024
        &&& self.vision_num_hidden_layers == 24
        &&& self.vision_num_attention_heads == 16
        &&& self.vision_patch_size == 14
        &&& self.vision_image_size == 224
        &&& self.pad_token_id == 0
        &&& self.bos_token_id == 1
        &&& self.eos_token_id == 2
    }

    /// Every field holds its default value.
    pub open spec fn is_default(&self) -> bool {
        self.gguf_fields_default() && self.other_fields_default()
    }

    /// The configuration described by a GGUF file: the architecture fields it
    /// carries, and the defaults for the rest.
    pub fn from_gguf_config(gguf: &GGUFModelConfig) -> (r: Self)
        ensures
            r.vocab_size == gguf.vocab_size,
            r.hidden_size == gguf.hidden_size,
            r.intermediate_size == gguf.intermediate_size,
            r.num_hidden_layers == gguf.num_hidden_layers,
            r.num_attention_heads == gguf.num_attention_heads,
            r.num_key_value_heads == gguf.num_key_value_heads,
            r.rms_norm_eps == gguf.rms_norm_eps,
            r.rope_theta == gguf.rope_theta,
            r.other_fields_default(),
    {
        let d = Self::default();
        Self {
            vocab_size: gguf.vocab_size,
            hidden_size: gguf.hidden_size,
            intermediate_size: gguf.intermediate_size,
            num_hidden_layers: gguf.num_hidden_layers,
            num_attention_heads: gguf.num_attention_heads,
            num_key_value_heads: gguf.num_key_value_heads,
            rms_norm_eps: gguf.rms_norm_eps,
            rope_theta: gguf.rope_theta,
            ..d
        }
    }

    /// Size of the token vocabulary.
    pub fn vocab_size(&self) -> (r: usize)
        ensures
            r == self.vocab_size,
    {
        self.vocab_size
    }

    /// Width of the hidden states.
    pub fn hidden_size(&self) -> (r: usize)
        ensures
            r == self.hidden_size,
    {
        self.hidden_size
    }

    /// Number of transformer (or state-space) layers.
    pub fn num_layers(&self) -> (r: usize)
        ensures
            r == self.num_hidden_layers,
    {
        self.num_hidden_layers
    }
}

impl Default for CogVLMConfig {
    fn default() -> (r: Self)
        ensures
            r.is_default(),
    {
        Self {
            vocab_size: 32000,
            hidden_size: 4096,
            intermediate_size: 11008,
            num_hidden_layers: 32,
            num_attention_heads: 32,
            num_key_value_heads: 32,
            vision_hidden_size: 1024,
            vision_num_hidden_layers: 24,
            vision_num_attention_heads: 16,
            vision_patch_size: 14,
            vision_image_size: 224,
            rms_norm_eps: F32Bits::from_bits(0x3727c5ac),
            rope_theta: F32Bits::from_bits(0x461c4000),
            pad_token_id: 0,
            bos_token_id: 1,
            eos_token_id: 2,
        }
    }
}

/// The CogVLM language model: token embeddings, decoder layers, a final norm and the output head.
pub struct CogVLMModelV2 {
    pub config: CogVLMConfig,
    pub device: Device,
    pub embed_tokens: Tensor,
    pub layers: Vec<CogVLMLayer>,
    pub norm: Tensor,
    pub lm_head: Tensor,
}

/// A CogVLM decoder layer: causal attention and a gated MLP, each after an RMS norm.
pub struct CogVLMLayer {
    pub q_proj: Tensor,
    pub k_proj: Tensor,
    pub v_proj: Tensor,
    pub o_proj: Tensor,
    pub gate_proj: Tensor,
    pub up_proj: Tensor,
    pub down_proj: Tensor,
    pub input_layernorm: Tensor,
    pub post_attention_layernorm: Tensor,
    pub num_heads: usize,
    pub head_dim: usize,
}

impl CogVLMModelV2 {
    /// The model as built for `config` on `device`: zero embeddings `[vocab_size, hidden_size]`, `num_hidden_layers` layers, the final norm and the head `[hidden_size, vocab_size]`.
    pub closed spec fn built_for(&self, config: CogVLMConfig, device: Device) -> bool {
        &&& self.embed_tokens.is_f32(seq![config.vocab_size, config.hidden_size], device)
        &&& self.layers@.len() == config.num_hidden_layers
        &&& forall|k: int| 0 <= k < self.layers@.len() ==> #[trigger] self.layers@[k].built_for(config, device)
        &&& self.norm.is_f32(seq![config.hidden_size], device)
        &&& self.lm_head.is_f32(seq![config.hidden_size, config.vocab_size], device)
    }

    /// `self` is `old` after a move to `device`: the device is recorded and the embeddings, the final norm and the head are placed there; the other weights are unchanged.
    pub closed spec fn moved_from(&self, old: Self, device: Device) -> bool {
        &&& self.config == old.config
        &&& self.device == device
        &&& self.embed_tokens.is_placed(old.embed_tokens, device)
        &&& self.layers == old.layers
        &&& self.norm.is_placed(old.norm, device)
        &&& self.lm_head.is_placed(old.lm_head, device)
    }

    /// The configuration the model was built with.
    pub closed spec fn spec_config(&self) -> CogVLMConfig {
        self.config
    }

    /// The device the model reports.
    pub closed spec fn spec_device(&self) -> Device {
        self.device
    }

    /// Builds the model for `config` on the CPU, with zero weights.
    pub fn new(config: CogVLMConfig) -> (r: Result<Self, ModelError>)
        requires
            config.num_attention_heads > 0,
        ensures
            r matches Ok(m) && m.spec_config() == config && m.spec_device() == Device::CPU
                && m.built_for(config, Device::CPU),
    {
        let device = Device::CPU;
        let embed_tokens = zeros2(config.vocab_size, config.hidden_size, &device);
        let mut layers: Vec<CogVLMLayer> = Vec::new();
        let mut n: usize = 0;
        while n < config.num_hidden_layers
            invariant
                n <= config.num_hidden_layers,
                config.num_attention_heads > 0,
                layers@.len() == n,
                forall|k: int| 0 <= k < n ==> #[trigger] layers@[k].built_for(config, device),
            decreases config.num_hidden_layers - n,
        {
            layers.push(CogVLMLayer::new(&config, &device));
            n += 1;
        }
        let norm = zeros1(config.hidden_size, &device);
        let lm_head = zeros2(config.hidden_size, config.vocab_size, &device);
        Ok(CogVLMModelV2 { config, device, embed_tokens, layers, norm, lm_head })
    }

    /// The configuration the model was built with.
    pub fn config(&self) -> (r: &CogVLMConfig)
        ensures
            *r == self.spec_config(),
    {
        &self.config
    }

    /// Moves the model to `device`: the embeddings, the final norm and the head; the layers stay where they are.
    pub fn to_device(&mut self, device: &Device) -> (r: Result<(), ModelError>)
        ensures
            r is Ok,
            final(self).moved_from(*old(self), *device),
    {
        self.embed_tokens = self.embed_tokens.to_device(device);
        self.norm = self.norm.to_device(device);
        self.lm_head = self.lm_head.to_device(device);
        self.device = *device;
        Ok(())
    }
}

impl CogVLMLayer {
    /// The weights as built for `config` on `device`, all zero.
    pub closed spec fn built_for(&self, config: CogVLMConfig, device: Device) -> bool {
        &&& self.q_proj.is_f32(seq![config.hidden_size, config.hidden_size], device)
        &&& self.k_proj.is_f32(seq![config.hidden_size, config.hidden_size], device)
        &&& self.v_proj.is_f32(seq![config.hidden_size, config.hidden_size], device)
        &&& self.o_proj.is_f32(seq![config.hidden_size, config.hidden_size], device)
        &&& self.gate_proj.is_f32(seq![config.hidden_size, config.intermediate_size], device)
        &&& self.up_proj.is_f32(seq![config.hidden_size, config.intermediate_size], device)
        &&& self.down_proj.is_f32(seq![config.intermediate_size, config.hidden_size], device)
        &&& self.input_layernorm.is_f32(seq![config.hidden_size], device)
        &&& self.post_attention_layernorm.is_f32(seq![config.hidden_size], device)
        &&& self.num_heads == config.num_attention_heads
        &&& self.head_dim == config.hidden_size / config.num_attention_heads
    }

    fn new(config: &CogVLMConfig, device: &Device) -> (r: Self)
        requires
            config.num_attention_heads > 0,
        ensures
            r.built_for(*config, *device),
    {
        let q_proj = zeros2(config.hidden_size, config.hidden_size, device);
        let k_proj = zeros2(config.hidden_size, config.hidden_size, device);
        let v_proj = zeros2(config.hidden_size, config.hidden_size, device);
        let o_proj = zeros2(config.hidden_size, config.hidden_size, device);
        let gate_proj = zeros2(config.hidden_size, config.intermediate_size, device);
        let up_proj = zeros2(config.hidden_size, config.intermediate_size, device);
        let down_proj = zeros2(config.intermediate_size, config.hidden_size, device);
        let input_layernorm = zeros1(config.hidden_size, device);
        let post_attention_layernorm = zeros1(config.hidden_size, device);
        let num_heads = config.num_attention_heads;
        let head_dim = config.hidden_size / config.num_attention_heads;
        CogVLMLayer { q_proj, k_proj, v_proj, o_proj, gate_proj, up_proj, down_proj, input_layernorm, post_attention_layernorm, num_heads, head_dim }
    }

}
/// Parameter bytes of the estimate: the embedding table, four bytes per entry.
pub open spec fn cogvlm_param_bytes(c: CogVLMConfig) -> int {
    c.vocab_size * c.hidden_size * 4
}

/// No step of the memory estimate for `CogVLMConfig` leaves the range of `usize`
/// or divides by zero.
pub open spec fn cogvlm_memory_fits(c: CogVLMConfig) -> bool {
    &&& c.vocab_size * c.hidden_size <= usize::MAX
    &&& c.vocab_size * c.hidden_size * 4 <= usize::MAX
    &&& c.vocab_size * c.hidden_size * 4 * 2 <= usize::MAX
}

impl CogVLMModelV2 {
    /// Estimated memory from the embedding table alone: its bytes on the GPU, a quarter on the CPU, an eighth for the cache, twice at peak.
    pub fn memory_requirements(&self) -> (r: MemoryRequirements)
        requires
            cogvlm_memory_fits(self.spec_config()),
        ensures
            r.gpu_memory == cogvlm_param_bytes(self.spec_config()),
            r.cpu_memory == cogvlm_param_bytes(self.spec_config()) / 4,
            r.kv_cache_memory == cogvlm_param_bytes(self.spec_config()) / 8,
            r.peak_memory == cogvlm_param_bytes(self.spec_config()) * 2,
    {
        let c = &self.config;
        let param_bytes = c.vocab_size * c.hidden_size * 4;
        MemoryRequirements {
            gpu_memory: param_bytes,
            cpu_memory: param_bytes / 4,
            kv_cache_memory: param_bytes / 8,
            peak_memory: param_bytes * 2,
        }
    }
}

impl CogVLMModelV2 {
    /// `self` is `old` after loading from `weights`: each weight whose
    /// checkpoint name `weights` holds takes that tensor's shape, element
    /// type, device and elements (as is, or transposed for a matrix product),
    /// and nothing else changes.
    pub closed spec fn loaded(&self, old: Self, weights: ModelWeights) -> bool {
        &&& self.config == old.config
        &&& self.device == old.device
        &&& copied(self.embed_tokens, old.embed_tokens, weights.lookup("model.embed_tokens.weight"@))
        &&& self.layers == old.layers
        &&& copied(self.norm, old.norm, weights.lookup("model.norm.weight"@))
        &&& transposed(self.lm_head, old.lm_head, weights.lookup("lm_head.weight"@))
    }

    /// Every tensor that loading from `weights` would transpose has at least
    /// two dimensions.
    pub closed spec fn loadable(&self, weights: ModelWeights) -> bool {
        &&& transposable(weights.lookup("lm_head.weight"@))
    }

    /// Loads the weights of `weights` that this part names.
    fn load_weights(&mut self, weights: &ModelWeights) -> (r: Result<(), ModelError>)
        ensures
            r is Ok <==> old(self).loadable(*weights),
            r is Ok ==> final(self).loaded(*old(self), *weights),
            r matches Err(e) ==> is_transpose_error(e),
    {
        load_copy(&mut self.embed_tokens, weights, "model.embed_tokens.weight");
        load_copy(&mut self.norm, weights, "model.norm.weight");
        load_transposed(&mut self.lm_head, weights, "lm_head.weight")?;
        Ok(())
    }
}


impl CogVLMModelV2 {
    /// Builds the model for `config` as `new` does and loads the weights that
    /// `weights` holds under their checkpoint names: the result is the built
    /// model with those weights taken, and an error exactly when a tensor that
    /// must be transposed has fewer than two dimensions.
    pub fn from_weights(config: CogVLMConfig, weights: ModelWeights) -> (r: Result<Self, ModelError>)
        requires
            config.num_attention_heads > 0,
        ensures
            exists|built: Self| #[trigger] built.built_for(config, Device::CPU) && built.spec_config() == config
                && built.spec_device() == Device::CPU && (r is Ok <==> built.loadable(weights))
                && (r matches Ok(m) ==> m.spec_config() == config && m.spec_device() == Device::CPU && m.loaded(built, weights))
                && (r matches Err(e) ==> is_transpose_error(e)),
    {
        let mut model = match Self::new(config) {
            Ok(m) => m,
            Err(e) => {
                return Err(e);
            },
        };
        let ghost built = model;
        match model.load_weights(&weights) {
            Ok(()) => {
                assert(built.built_for(config, Device::CPU));
                Ok(model)
            },
            Err(e) => {
                assert(built.built_for(config, Device::CPU));
                Err(e)
            },
        }
    }
}

impl CogVLMModelV2 {
    /// Moving to `d1` and then to `d2` leaves the model as a single move to
    /// `d2` would: the second move overrides the first.
    pub proof fn lemma_moves_compose(first: Self, second: Self, third: Self, d1: Device, d2: Device)
        requires
            second.moved_from(first, d1),
            third.moved_from(second, d2),
        ensures
            third.moved_from(first, d2),
    {
    }
}

} // verus!

verus! {

impl CogVLMConfig {
    /// The default configuration has these sizes: the clauses below.
    pub proof fn lemma_default_sizes(&self)
        requires
            self.gguf_fields_default(),
        ensures
            self.vocab_size == 32000,
            self.hidden_size == 4096,
            self.intermediate_size == 11008,
            self.num_hidden_layers == 32,
            self.num_attention_heads == 32,
            self.num_key_value_heads == 32,
            self.rms_norm_eps.bits == 0x3727c5ac,
            self.rope_theta.bits == 0x461c4000,
    {
    }

    /// The default configuration has these remaining settings: the clauses below.
    pub proof fn lemma_default_settings(&self)
        requires
            self.other_fields_default(),
        ensures
            self.vision_hidden_size == 1024,
            self.vision_num_hidden_layers == 24,
            self.vision_num_attention_heads == 16,
            self.vision_patch_size == 14,
            self.vision_image_size == 224,
            self.pad_token_id == 0,
            self.bos_token_id == 1,
            self.eos_token_id == 2,
    {
    }

    /// The default configuration is the one with the default sizes and settings: the clauses below.
    pub proof fn lemma_default_parts(&self)
        requires
            self.is_default(),
        ensures
            ({
            self.gguf_fields_default() && self.other_fields_default()
        }),
    {
    }
}

impl CogVLMModelV2 {
    /// Built for `config` on `device`, each weight is the zero tensor of the shape the configuration gives, on `device`, and each recorded size is the configured one: the clauses below.
    pub proof fn lemma_built_weights(&self, config: CogVLMConfig, device: Device)
        requires
            self.built_for(config, device),
        ensures
            self.embed_tokens.is_f32(seq![config.vocab_size, config.hidden_size], device),
            self.layers@.len() == config.num_hidden_layers,
            forall|k: int| 0 <= k < self.layers@.len() ==> #[trigger] self.layers@[k].built_for(config, device),
            self.norm.is_f32(seq![config.hidden_size], device),
            self.lm_head.is_f32(seq![config.hidden_size, config.vocab_size], device),
    {
    }

    /// After a move to `device`, every weight lies on `device` with its shape, element type and elements kept, and nothing else changes: the clauses below.
    pub proof fn lemma_moved_weights(&self, before: Self, device: Device)
        requires
            self.moved_from(before, device),
        ensures
            self.config == before.config,
            self.device == device,
            self.embed_tokens.is_placed(before.embed_tokens, device),
            self.layers == before.layers,
            self.norm.is_placed(before.norm, device),
            self.lm_head.is_placed(before.lm_head, device),
    {
    }

    /// After loading from `weights`, each weight holds the tensor stored under its checkpoint name, copied or transposed, and keeps its previous value when the name is absent; nothing else changes: the clauses below.
    pub proof fn lemma_loaded_weights(&self, before: Self, weights: ModelWeights)
        requires
            self.loaded(before, weights),
        ensures
            self.config == before.config,
            self.device == before.device,
            copied(self.embed_tokens, before.embed_tokens, weights.lookup("model.embed_tokens.weight"@)),
            self.layers == before.layers,
            copied(self.norm, before.norm, weights.lookup("model.norm.weight"@)),
            transposed(self.lm_head, before.lm_head, weights.lookup("lm_head.weight"@)),
    {
    }

    /// Loading from `weights` succeeds only when every tensor it must transpose, found under these checkpoint names, has at least two dimensions: the clauses below.
    pub proof fn lemma_loadable_names(&self, weights: ModelWeights)
        requires
            self.loadable(weights),
        ensures
            transposable(weights.lookup("lm_head.weight"@)),
    {
    }
}

impl CogVLMLayer {
    /// Built for `config` on `device`, each weight is the zero tensor of the shape the configuration gives, on `device`, and each recorded size is the configured one: the clauses below.
    pub proof fn lemma_built_weights(&self, config: CogVLMConfig, device: Device)
        requires
            self.built_for(config, device),
        ensures
            self.q_proj.is_f32(seq![config.hidden_size, config.hidden_size], device),
            self.k_proj.is_f32(seq![config.hidden_size, config.hidden_size], device),
            self.v_proj.is_f32(seq![config.hidden_size, config.hidden_size], device),
            self.o_proj.is_f32(seq![config.hidden_size, config.hidden_size], device),
            self.gate_proj.is_f32(seq![config.hidden_size, config.intermediate_size], device),
            self.up_proj.is_f32(seq![config.hidden_size, config.intermediate_size], device),
            self.down_proj.is_f32(seq![config.intermediate_size, config.hidden_size], device),
            self.input_layernorm.is_f32(seq![config.hidden_size], device),
            self.post_attention_layernorm.is_f32(seq![config.hidden_size], device),
            self.num_heads == config.num_attention_heads,
            self.head_dim == config.hidden_size / config.num_attention_heads,
    {
    }
}

/// `cogvlm_param_bytes` is, for every configuration, the formula below.
pub proof fn lemma_cogvlm_param_bytes_formula(c: CogVLMConfig)
    ensures
        cogvlm_param_bytes(c) == (c.vocab_size * c.hidden_size * 4),
{
}

} // verus!
