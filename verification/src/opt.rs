//! The OPT model.
use vstd::prelude::*;
use crate::common::F32Bits;
use crate::gguf::GGUFModelConfig;
use crate::common::{MemoryRequirements, ModelError};
use crate::tensor::{zeros1, zeros2, Device, Tensor};
use crate::weights::{copied, transposed, transposed_opt, transposable, is_transpose_error, indexed, indexed_name, load_copy, load_transposed, load_transposed_opt, ModelWeights};

verus! {

/// Hyperparameters of the OPT model.
#[derive(Clone, Debug)]
pub struct OPTConfig {
    pub vocab_size: usize,
    pub hidden_size: usize,
    pub intermediate_size: usize,
    pub num_hidden_layers: usize,
    pub num_attention_heads: usize,
    pub num_key_value_heads: usize,
    pub hidden_act: String,
    pub max_position_embeddings: usize,
    pub initializer_range: F32Bits,
    pub layer_norm_eps: F32Bits,
    pub use_cache: bool,
    pub pad_token_id: i64,
    pub bos_token_id: i64,
    pub eos_token_id: i64,
    pub tie_word_embeddings: bool,
    pub word_embed_proj_dim: usize,
    pub do_layer_norm_before: bool,
}

impl OPTConfig {
    /// The fields that a GGUF file supplies hold their default values.
    pub open spec fn gguf_fields_default(&self) -> bool {
        &&& self.vocab_size == 50272
        &&& self.hidden_size == 768
        &&& self.intermediate_size == 3072
        &&& self.num_hidden_layers == 12
        &&& self.num_attention_heads == 12
        &&& self.num_key_value_heads == 12
        &&& self.max_position_embeddings == 2048
    }

    /// The fields that a GGUF file does not supply hold their default values.
    pub open spec fn other_fields_default(&self) -> bool {
        &&& self.hidden_act@ == "relu"@
        &&& self.initializer_range.bits == 0x3ca3d70a
        &&& self.layer_norm_eps.bits == 0x3727c5ac
        &&& self.use_cache == true
        &&& self.pad_token_id == 1
        &&& self.bos_token_id == 2
        &&& self.eos_token_id == 2
        &&& self.tie_word_embeddings == false
        &&& self.word_embed_proj_dim == 768
        &&& self.do_layer_norm_before == true
    }

    /// Every field holds its default value.
    pub open spec fn is_default(&self) -> bool {
        self.gguf_fields_default() && self.other_fields_default()
    }

    /// The configuration described by a GGUF file: the architecture fields it
    /// carries, and the defaults for the rest.
    pub fn from_gguf_config(gguf: &GGUFModelConfig) -> (r: Self)
        ensures
            r.vocab_size == gguf.vocab_size,
            r.hidden_size == gguf.hidden_size,
            r.intermediate_size == gguf.intermediate_size,
            r.num_hidden_layers == gguf.num_hidden_layers,
            r.num_attention_heads == gguf.num_attention_heads,
            r.num_key_value_heads == gguf.num_key_value_heads,
            r.max_position_embeddings == gguf.max_position_embeddings,
            r.other_fields_default(),
    {
        let d = Self::default();
        Self {
            vocab_size: gguf.vocab_size,
            hidden_size: gguf.hidden_size,
            intermediate_size: gguf.intermediate_size,
            num_hidden_layers: gguf.num_hidden_layers,
            num_attention_heads: gguf.num_attention_heads,
            num_key_value_heads: gguf.num_key_value_heads,
            max_position_embeddings: gguf.max_position_embeddings,
            ..d
        }
    }

    /// Size of the token vocabulary.
    pub fn vocab_size(&self) -> (r: usize)
        ensures
            r == self.vocab_size,
    {
        self.vocab_size
    }

    /// Width of the hidden states.
    pub fn hidden_size(&self) -> (r: usize)
        ensures
            r == self.hidden_size,
    {
        self.hidden_size
    }

    /// Number of transformer (or state-space) layers.
    pub fn num_layers(&self) -> (r: usize)
        ensures
            r == self.num_hidden_layers,
    {
        self.num_hidden_layers
    }
}

impl Default for OPTConfig {
    fn default() -> (r: Self)
        ensures
            r.is_default(),
    {
        Self {
            vocab_size: 50272,
            hidden_size: 768,
            intermediate_size: 3072,
            num_hidden_layers: 12,
            num_attention_heads: 12,
            num_key_value_heads: 12,
            hidden_act: String::from_str("relu"),
            max_position_embeddings: 2048,
            initializer_range: F32Bits::from_bits(0x3ca3d70a),
            layer_norm_eps: F32Bits::from_bits(0x3727c5ac),
            use_cache: true,
            pad_token_id: 1,
            bos_token_id: 2,
            eos_token_id: 2,
            tie_word_embeddings: false,
            word_embed_proj_dim: 768,
            do_layer_norm_before: true,
        }
    }
}

/// The OPT decoder: token embeddings of width `word_embed_proj_dim`, learned positions (offset by two), projections in and out when that width differs from the hidden width, the layers, a final norm and the output head.
pub struct OPTModelV2 {
    pub config: OPTConfig,
    pub device: Device,
    pub embed_tokens: Tensor,
    pub embed_positions: Tensor,
    pub project_in: Option<Tensor>,
    pub project_out: Option<Tensor>,
    pub layers: Vec<OPTLayer>,
    pub final_layer_norm: Tensor,
    pub lm_head: Tensor,
}

/// An OPT layer: attention and a two-matrix feed-forward block, with layer norms before or after as `do_layer_norm_before` says.
pub struct OPTLayer {
    pub self_attn: OPTAttention,
    pub fc1: Tensor,
    pub fc2: Tensor,
    pub self_attn_layer_norm: Tensor,
    pub final_layer_norm: Tensor,
    pub do_layer_norm_before: bool,
}

/// OPT attention: square query, key, value and output projections.
pub struct OPTAttention {
    pub q_proj: Tensor,
    pub k_proj: Tensor,
    pub v_proj: Tensor,
    pub out_proj: Tensor,
    pub num_heads: usize,
    pub head_dim: usize,
}

impl OPTModelV2 {
    /// The model as built for `config` on `device`: zero token embeddings `[vocab_size, word_embed_proj_dim]`, position embeddings `[max_position_embeddings + 2, hidden_size]`, the two projections exactly when `word_embed_proj_dim != hidden_size`, `num_hidden_layers` layers, the final norm and the head `[word_embed_proj_dim, vocab_size]`.
    pub closed spec fn built_for(&self, config: OPTConfig, device: Device) -> bool {
        &&& self.embed_tokens.is_f32(seq![config.vocab_size, config.word_embed_proj_dim], device)
        &&& self.embed_positions.is_f32(seq![(config.max_position_embeddings + 2) as usize, config.hidden_size], device)
        &&& (if config.word_embed_proj_dim != config.hidden_size { self.project_in matches Some(t) && t.is_f32(seq![config.word_embed_proj_dim, config.hidden_size], device) } else { self.project_in is None })
        &&& (if config.word_embed_proj_dim != config.hidden_size { self.project_out matches Some(t) && t.is_f32(seq![config.hidden_size, config.word_embed_proj_dim], device) } else { self.project_out is None })
        &&& self.layers@.len() == config.num_hidden_layers
        &&& forall|k: int| 0 <= k < self.layers@.len() ==> #[trigger] self.layers@[k].built_for(config, device)
        &&& self.final_layer_norm.is_f32(seq![config.hidden_size], device)
        &&& self.lm_head.is_f32(seq![config.word_embed_proj_dim, config.vocab_size], device)
    }

    /// `self` is `old` moved to `device`: every weight placed there and the device recorded.
    pub closed spec fn moved_from(&self, old: Self, device: Device) -> bool {
        &&& self.config == old.config
        &&& self.device == device
        &&& self.embed_tokens.is_placed(old.embed_tokens, device)
        &&& self.embed_positions.is_placed(old.embed_positions, device)
        &&& (match (self.project_in, old.project_in) { (Some(a), Some(b)) => a.is_placed(b, device), (None, None) => true, _ => false })
        &&& (match (self.project_out, old.project_out) { (Some(a), Some(b)) => a.is_placed(b, device), (None, None) => true, _ => false })
        &&& self.layers@.len() == old.layers@.len()
        &&& forall|k: int| 0 <= k < self.layers@.len() ==> #[trigger] self.layers@[k].moved_from(old.layers@[k], device)
        &&& self.final_layer_norm.is_placed(old.final_layer_norm, device)
        &&& self.lm_head.is_placed(old.lm_head, device)
    }

    /// The configuration the model was built with.
    pub closed spec fn spec_config(&self) -> OPTConfig {
        self.config
    }

    /// The device the model reports.
    pub closed spec fn spec_device(&self) -> Device {
        self.device
    }

    /// Builds the model for `config` on the CPU, with zero weights.
    pub fn new(config: OPTConfig) -> (r: Result<Self, ModelError>)
        requires
            config.num_attention_heads > 0,
            config.max_position_embeddings + 2 <= usize::MAX,
        ensures
            r matches Ok(m) && m.spec_config() == config && m.spec_device() == Device::CPU
                && m.built_for(config, Device::CPU),
    {
        let device = Device::CPU;
        let embed_tokens = zeros2(config.vocab_size, config.word_embed_proj_dim, &device);
        let embed_positions = zeros2(config.max_position_embeddings + 2, config.hidden_size, &device);
        let project_in = if config.word_embed_proj_dim != config.hidden_size { Some(zeros2(config.word_embed_proj_dim, config.hidden_size, &device)) } else { None };
        let project_out = if config.word_embed_proj_dim != config.hidden_size { Some(zeros2(config.hidden_size, config.word_embed_proj_dim, &device)) } else { None };
        let mut layers: Vec<OPTLayer> = Vec::new();
        let mut n: usize = 0;
        while n < config.num_hidden_layers
            invariant
                n <= config.num_hidden_layers,
                config.num_attention_heads > 0,
                config.max_position_embeddings + 2 <= usize::MAX,
                layers@.len() == n,
                forall|k: int| 0 <= k < n ==> #[trigger] layers@[k].built_for(config, device),
            decreases config.num_hidden_layers - n,
        {
            layers.push(OPTLayer::new(&config, &device));
            n += 1;
        }
        let final_layer_norm = zeros1(config.hidden_size, &device);
        let lm_head = zeros2(config.word_embed_proj_dim, config.vocab_size, &device);
        Ok(OPTModelV2 { config, device, embed_tokens, embed_positions, project_in, project_out, layers, final_layer_norm, lm_head })
    }

    /// The configuration the model was built with.
    pub fn config(&self) -> (r: &OPTConfig)
        ensures
            *r == self.spec_config(),
    {
        &self.config
    }

    /// Moves the model to `device`.
    pub fn to_device(&mut self, device: &Device) -> (r: Result<(), ModelError>)
        ensures
            r is Ok,
            final(self).moved_from(*old(self), *device),
    {
        self.embed_tokens = self.embed_tokens.to_device(device);
        self.embed_positions = self.embed_positions.to_device(device);
        let moved_project_in = match &self.project_in { Some(t) => Some(t.to_device(device)), None => None };
        self.project_in = moved_project_in;
        let moved_project_out = match &self.project_out { Some(t) => Some(t.to_device(device)), None => None };
        self.project_out = moved_project_out;
        let mut taken_layers: Vec<OPTLayer> = Vec::new();
        std::mem::swap(&mut taken_layers, &mut self.layers);
        self.layers = OPTLayer::all_to_device(taken_layers, device);
        self.final_layer_norm = self.final_layer_norm.to_device(device);
        self.lm_head = self.lm_head.to_device(device);
        self.device = *device;
        Ok(())
    }
}

impl OPTLayer {
    /// The weights as built for `config` on `device`, all zero.
    pub closed spec fn built_for(&self, config: OPTConfig, device: Device) -> bool {
        &&& self.self_attn.built_for(config, device)
        &&& self.fc1.is_f32(seq![config.hidden_size, config.intermediate_size], device)
        &&& self.fc2.is_f32(seq![config.intermediate_size, config.hidden_size], device)
        &&& self.self_attn_layer_norm.is_f32(seq![config.hidden_size], device)
        &&& self.final_layer_norm.is_f32(seq![config.hidden_size], device)
        &&& self.do_layer_norm_before == config.do_layer_norm_before
    }

    /// `self` is `old` with its weights placed on `device`.
    pub closed spec fn moved_from(&self, old: Self, device: Device) -> bool {
        &&& self.self_attn.moved_from(old.self_attn, device)
        &&& self.fc1.is_placed(old.fc1, device)
        &&& self.fc2.is_placed(old.fc2, device)
        &&& self.self_attn_layer_norm.is_placed(old.self_attn_layer_norm, device)
        &&& self.final_layer_norm.is_placed(old.final_layer_norm, device)
        &&& self.do_layer_norm_before == old.do_layer_norm_before
    }

    fn new(config: &OPTConfig, device: &Device) -> (r: Self)
        requires
            config.num_attention_heads > 0,
        ensures
            r.built_for(*config, *device),
    {
        let self_attn = OPTAttention::new(config, device);
        let fc1 = zeros2(config.hidden_size, config.intermediate_size, device);
        let fc2 = zeros2(config.intermediate_size, config.hidden_size, device);
        let self_attn_layer_norm = zeros1(config.hidden_size, device);
        let final_layer_norm = zeros1(config.hidden_size, device);
        let do_layer_norm_before = config.do_layer_norm_before;
        OPTLayer { self_attn, fc1, fc2, self_attn_layer_norm, final_layer_norm, do_layer_norm_before }
    }

    /// Places the weights on `device`.
    fn to_device(&mut self, device: &Device)
        ensures
            final(self).moved_from(*old(self), *device),
    {
        self.self_attn.to_device(device);
        self.fc1 = self.fc1.to_device(device);
        self.fc2 = self.fc2.to_device(device);
        self.self_attn_layer_norm = self.self_attn_layer_norm.to_device(device);
        self.final_layer_norm = self.final_layer_norm.to_device(device);
    }

    /// The layers, in order, each with its weights placed on `device`.
    fn all_to_device(layers: Vec<OPTLayer>, device: &Device) -> (r: Vec<OPTLayer>)
        ensures
            r@.len() == layers@.len(),
            forall|k: int| 0 <= k < r@.len() ==> #[trigger] r@[k].moved_from(layers@[k], *device),
    {
        let mut rest = layers;
        let mut moved: Vec<OPTLayer> = Vec::new();
        while rest.len() > 0
            invariant
                moved@.len() + rest@.len() == layers@.len(),
                rest@ == layers@.subrange(moved@.len() as int, layers@.len() as int),
                forall|k: int| 0 <= k < moved@.len() ==> #[trigger] moved@[k].moved_from(layers@[k], *device),
            decreases rest@.len(),
        {
            let mut layer = rest.remove(0);
            assert(layer == layers@[moved@.len() as int]);
            layer.to_device(device);
            moved.push(layer);
            assert(rest@ =~= layers@.subrange(moved@.len() as int, layers@.len() as int));
        }
        moved
    }
}

impl OPTAttention {
    /// The weights as built for `config` on `device`, all zero.
    pub closed spec fn built_for(&self, config: OPTConfig, device: Device) -> bool {
        &&& self.q_proj.is_f32(seq![config.hidden_size, config.hidden_size], device)
        &&& self.k_proj.is_f32(seq![config.hidden_size, config.hidden_size], device)
        &&& self.v_proj.is_f32(seq![config.hidden_size, config.hidden_size], device)
        &&& self.out_proj.is_f32(seq![config.hidden_size, config.hidden_size], device)
        &&& self.num_heads == config.num_attention_heads
        &&& self.head_dim == config.hidden_size / config.num_attention_heads
    }

    /// `self` is `old` with its weights placed on `device`.
    pub closed spec fn moved_from(&self, old: Self, device: Device) -> bool {
        &&& self.q_proj.is_placed(old.q_proj, device)
        &&& self.k_proj.is_placed(old.k_proj, device)
        &&& self.v_proj.is_placed(old.v_proj, device)
        &&& self.out_proj.is_placed(old.out_proj, device)
        &&& self.num_heads == old.num_heads
        &&& self.head_dim == old.head_dim
    }

    fn new(config: &OPTConfig, device: &Device) -> (r: Self)
        requires
            config.num_attention_heads > 0,
        ensures
            r.built_for(*config, *device),
    {
        let q_proj = zeros2(config.hidden_size, config.hidden_size, device);
        let k_proj = zeros2(config.hidden_size, config.hidden_size, device);
        let v_proj = zeros2(config.hidden_size, config.hidden_size, device);
        let out_proj = zeros2(config.hidden_size, config.hidden_size, device);
        let num_heads = config.num_attention_heads;
        let head_dim = config.hidden_size / config.num_attention_heads;
        OPTAttention { q_proj, k_proj, v_proj, out_proj, num_heads, head_dim }
    }

    /// Places the weights on `device`.
    fn to_device(&mut self, device: &Device)
        ensures
            final(self).moved_from(*old(self), *device),
    {
        self.q_proj = self.q_proj.to_device(device);
        self.k_proj = self.k_proj.to_device(device);
        self.v_proj = self.v_proj.to_device(device);
        self.out_proj = self.out_proj.to_device(device);
    }
}
/// Parameter count of the estimate: embeddings and eight `hidden_size` squared blocks per layer.
pub open spec fn opt_param_count(c: OPTConfig) -> int {
    c.vocab_size * c.hidden_size + c.num_hidden_layers * 8 * (c.hidden_size * c.hidden_size)
}

/// No step of the memory estimate for `OPTConfig` leaves the range of `usize`
/// or divides by zero.
pub open spec fn opt_memory_fits(c: OPTConfig) -> bool {
    &&& c.vocab_size * c.hidden_size <= usize::MAX
    &&& c.num_hidden_layers * 8 <= usize::MAX
    &&& c.hidden_size * c.hidden_size <= usize::MAX
    &&& c.num_hidden_layers * 8 * (c.hidden_size * c.hidden_size) <= usize::MAX
    &&& c.vocab_size * c.hidden_size + c.num_hidden_layers * 8 * (c.hidden_size * c.hidden_size) <= usize::MAX
    &&& (c.vocab_size * c.hidden_size + c.num_hidden_layers * 8 * (c.hidden_size * c.hidden_size)) * 4 <= usize::MAX
    &&& 2 * c.num_hidden_layers <= usize::MAX
    &&& 2 * c.num_hidden_layers * c.max_position_embeddings <= usize::MAX
    &&& 2 * c.num_hidden_layers * c.max_position_embeddings * c.hidden_size <= usize::MAX
    &&& 2 * c.num_hidden_layers * c.max_position_embeddings * c.hidden_size * 4 <= usize::MAX
    &&& (c.vocab_size * c.hidden_size + c.num_hidden_layers * 8 * (c.hidden_size * c.hidden_size)) * 5 <= usize::MAX
}

impl OPTModelV2 {
    /// Estimated memory: four bytes per parameter on the GPU, one per parameter on the CPU, the full key-value cache, and five bytes per parameter at peak.
    pub fn memory_requirements(&self) -> (r: MemoryRequirements)
        requires
            opt_memory_fits(self.spec_config()),
        ensures
            r.gpu_memory == opt_param_count(self.spec_config()) * 4,
            r.cpu_memory == opt_param_count(self.spec_config()),
            r.kv_cache_memory == 2 * self.spec_config().num_hidden_layers * self.spec_config().max_position_embeddings * self.spec_config().hidden_size * 4,
            r.peak_memory == opt_param_count(self.spec_config()) * 5,
    {
        let c = &self.config;
        let param_count = c.vocab_size * c.hidden_size + c.num_hidden_layers * 8 * (c.hidden_size * c.hidden_size);
        MemoryRequirements {
            gpu_memory: param_count * 4,
            cpu_memory: param_count,
            kv_cache_memory: 2 * c.num_hidden_layers * c.max_position_embeddings * c.hidden_size * 4,
            peak_memory: param_count * 5,
        }
    }
}

impl OPTModelV2 {
    /// `self` is `old` after loading from `weights`: each weight whose
    /// checkpoint name `weights` holds takes that tensor's shape, element
    /// type, device and elements (as is, or transposed for a matrix product),
    /// and nothing else changes.
    pub closed spec fn loaded(&self, old: Self, weights: ModelWeights) -> bool {
        &&& self.config == old.config
        &&& self.device == old.device
        &&& copied(self.embed_tokens, old.embed_tokens, weights.lookup("model.decoder.embed_tokens.weight"@))
        &&& copied(self.embed_positions, old.embed_positions, weights.lookup("model.decoder.embed_positions.weight"@))
        &&& transposed_opt(self.project_in, old.project_in, weights.lookup("model.decoder.project_in.weight"@))
        &&& transposed_opt(self.project_out, old.project_out, weights.lookup("model.decoder.project_out.weight"@))
        &&& self.layers@.len() == old.layers@.len()
        &&& forall|k: int| 0 <= k < old.layers@.len() ==> #[trigger] self.layers@[k].loaded(old.layers@[k], weights, k)
        &&& copied(self.final_layer_norm, old.final_layer_norm, weights.lookup("model.decoder.final_layer_norm.weight"@))
        &&& transposed(self.lm_head, old.lm_head, weights.lookup("lm_head.weight"@))
    }

    /// Every tensor that loading from `weights` would transpose has at least
    /// two dimensions.
    pub closed spec fn loadable(&self, weights: ModelWeights) -> bool {
        &&& transposable(weights.lookup("model.decoder.project_in.weight"@))
        &&& transposable(weights.lookup("model.decoder.project_out.weight"@))
        &&& transposable(weights.lookup("lm_head.weight"@))
        &&& forall|k: int| 0 <= k < self.layers@.len() ==> #[trigger] self.layers@[k].loadable(weights, k)
    }

    /// Loads the weights of `weights` that this part names.
    fn load_weights(&mut self, weights: &ModelWeights) -> (r: Result<(), ModelError>)
        ensures
            r is Ok <==> old(self).loadable(*weights),
            r is Ok ==> final(self).loaded(*old(self), *weights),
            r matches Err(e) ==> is_transpose_error(e),
    {
        load_copy(&mut self.embed_tokens, weights, "model.decoder.embed_tokens.weight");
        load_copy(&mut self.embed_positions, weights, "model.decoder.embed_positions.weight");
        load_transposed_opt(&mut self.project_in, weights, "model.decoder.project_in.weight")?;
        load_transposed_opt(&mut self.project_out, weights, "model.decoder.project_out.weight")?;
        load_copy(&mut self.final_layer_norm, weights, "model.decoder.final_layer_norm.weight");
        load_transposed(&mut self.lm_head, weights, "lm_head.weight")?;
        let mut taken_layers: Vec<OPTLayer> = Vec::new();
        std::mem::swap(&mut taken_layers, &mut self.layers);
        self.layers = Self::load_layers(taken_layers, weights)?;
        Ok(())
    }

    /// Loads each of `items`, in order, from `weights`.
    fn load_layers(items: Vec<OPTLayer>, weights: &ModelWeights) -> (r: Result<Vec<OPTLayer>, ModelError>)
        ensures
            r is Ok <==> forall|k: int| 0 <= k < items@.len() ==> #[trigger] items@[k].loadable(*weights, k),
            r matches Ok(v) ==> v@.len() == items@.len() && forall|k: int| 0 <= k < items@.len() ==> #[trigger] v@[k].loaded(items@[k], *weights, k),
            r matches Err(e) ==> is_transpose_error(e),
    {
        let mut rest = items;
        let mut done: Vec<OPTLayer> = Vec::new();
        while rest.len() > 0
            invariant
                done@.len() + rest@.len() == items@.len(),
                rest@ == items@.subrange(done@.len() as int, items@.len() as int),
                forall|k: int| 0 <= k < done@.len() ==> #[trigger] done@[k].loaded(items@[k], *weights, k),
                forall|k: int| 0 <= k < done@.len() ==> #[trigger] items@[k].loadable(*weights, k),
            decreases rest@.len(),
        {
            let n = done.len();
            let mut item = rest.remove(0);
            assert(item == items@[n as int]);
            match item.load_weights(weights, n) {
                Ok(()) => {},
                Err(e) => {
                    assert(!items@[n as int].loadable(*weights, n as int));
                    return Err(e);
                },
            }
            done.push(item);
            assert(rest@ =~= items@.subrange(done@.len() as int, items@.len() as int));
        }
        Ok(done)
    }
}

impl OPTLayer {
    /// `self` is `old` after loading from `weights`: each weight whose
    /// checkpoint name `weights` holds takes that tensor's shape, element
    /// type, device and elements (as is, or transposed for a matrix product),
    /// and nothing else changes.
    pub closed spec fn loaded(&self, old: Self, weights: ModelWeights, idx: int) -> bool {
        &&& transposed(self.self_attn.q_proj, old.self_attn.q_proj, weights.lookup(indexed("model.decoder.layers."@, idx, ".self_attn.q_proj.weight"@)))
        &&& transposed(self.self_attn.k_proj, old.self_attn.k_proj, weights.lookup(indexed("model.decoder.layers."@, idx, ".self_attn.k_proj.weight"@)))
        &&& transposed(self.self_attn.v_proj, old.self_attn.v_proj, weights.lookup(indexed("model.decoder.layers."@, idx, ".self_attn.v_proj.weight"@)))
        &&& transposed(self.self_attn.out_proj, old.self_attn.out_proj, weights.lookup(indexed("model.decoder.layers."@, idx, ".self_attn.out_proj.weight"@)))
        &&& self.self_attn.num_heads == old.self_attn.num_heads
        &&& self.self_attn.head_dim == old.self_attn.head_dim
        &&& transposed(self.fc1, old.fc1, weights.lookup(indexed("model.decoder.layers."@, idx, ".fc1.weight"@)))
        &&& transposed(self.fc2, old.fc2, weights.lookup(indexed("model.decoder.layers."@, idx, ".fc2.weight"@)))
        &&& copied(self.self_attn_layer_norm, old.self_attn_layer_norm, weights.lookup(indexed("model.decoder.layers."@, idx, ".self_attn_layer_norm.weight"@)))
        &&& copied(self.final_layer_norm, old.final_layer_norm, weights.lookup(indexed("model.decoder.layers."@, idx, ".final_layer_norm.weight"@)))
        &&& self.do_layer_norm_before == old.do_layer_norm_before
    }

    /// Every tensor that loading from `weights` would transpose has at least
    /// two dimensions.
    pub closed spec fn loadable(&self, weights: ModelWeights, idx: int) -> bool {
        &&& transposable(weights.lookup(indexed("model.decoder.layers."@, idx, ".self_attn.q_proj.weight"@)))
        &&& transposable(weights.lookup(indexed("model.decoder.layers."@, idx, ".self_attn.k_proj.weight"@)))
        &&& transposable(weights.lookup(indexed("model.decoder.layers."@, idx, ".self_attn.v_proj.weight"@)))
        &&& transposable(weights.lookup(indexed("model.decoder.layers."@, idx, ".self_attn.out_proj.weight"@)))
        &&& transposable(weights.lookup(indexed("model.decoder.layers."@, idx, ".fc1.weight"@)))
        &&& transposable(weights.lookup(indexed("model.decoder.layers."@, idx, ".fc2.weight"@)))
    }

    /// Loads the weights of `weights` that this part names.
    fn load_weights(&mut self, weights: &ModelWeights, layer_idx: usize) -> (r: Result<(), ModelError>)
        ensures
            r is Ok <==> old(self).loadable(*weights, layer_idx as int),
            r is Ok ==> final(self).loaded(*old(self), *weights, layer_idx as int),
            r matches Err(e) ==> is_transpose_error(e),
    {
        load_transposed(&mut self.self_attn.q_proj, weights, indexed_name("model.decoder.layers.", layer_idx, ".self_attn.q_proj.weight").as_str())?;
        load_transposed(&mut self.self_attn.k_proj, weights, indexed_name("model.decoder.layers.", layer_idx, ".self_attn.k_proj.weight").as_str())?;
        load_transposed(&mut self.self_attn.v_proj, weights, indexed_name("model.decoder.layers.", layer_idx, ".self_attn.v_proj.weight").as_str())?;
        load_transposed(&mut self.self_attn.out_proj, weights, indexed_name("model.decoder.layers.", layer_idx, ".self_attn.out_proj.weight").as_str())?;
        load_transposed(&mut self.fc1, weights, indexed_name("model.decoder.layers.", layer_idx, ".fc1.weight").as_str())?;
        load_transposed(&mut self.fc2, weights, indexed_name("model.decoder.layers.", layer_idx, ".fc2.weight").as_str())?;
        load_copy(&mut self.self_attn_layer_norm, weights, indexed_name("model.decoder.layers.", layer_idx, ".self_attn_layer_norm.weight").as_str());
        load_copy(&mut self.final_layer_norm, weights, indexed_name("model.decoder.layers.", layer_idx, ".final_layer_norm.weight").as_str());
        Ok(())
    }
}


impl OPTModelV2 {
    /// Builds the model for `config` as `new` does and loads the weights that
    /// `weights` holds under their checkpoint names: the result is the built
    /// model with those weights taken, and an error exactly when a tensor that
    /// must be transposed has fewer than two dimensions.
    pub fn from_weights(config: OPTConfig, weights: ModelWeights) -> (r: Result<Self, ModelError>)
        requires
            config.num_attention_heads > 0,
            config.max_position_embeddings + 2 <= usize::MAX,
        ensures
            exists|built: Self| #[trigger] built.built_for(config, Device::CPU) && built.spec_config() == config
                && built.spec_device() == Device::CPU && (r is Ok <==> built.loadable(weights))
                && (r matches Ok(m) ==> m.spec_config() == config && m.spec_device() == Device::CPU && m.loaded(built, weights))
                && (r matches Err(e) ==> is_transpose_error(e)),
    {
        let mut model = match Self::new(config) {
            Ok(m) => m,
            Err(e) => {
                return Err(e);
            },
        };
        let ghost built = model;
        match model.load_weights(&weights) {
            Ok(()) => {
                assert(built.built_for(config, Device::CPU));
                Ok(model)
            },
            Err(e) => {
                assert(built.built_for(config, Device::CPU));
                Err(e)
            },
        }
    }
}

impl OPTModelV2 {
    /// Moving to `d1` and then to `d2` leaves the model as a single move to
    /// `d2` would: the second move overrides the first.
    pub proof fn lemma_moves_compose(first: Self, second: Self, third: Self, d1: Device, d2: Device)
        requires
            second.moved_from(first, d1),
            third.moved_from(second, d2),
        ensures
            third.moved_from(first, d2),
    {
        assert forall|k: int| 0 <= k < third.layers@.len() implies #[trigger] third.layers@[k].moved_from(first.layers@[k], d2) by {
            OPTLayer::lemma_moves_compose(first.layers@[k], second.layers@[k], third.layers@[k], d1, d2);
        }
    }
}

impl OPTLayer {
    /// A move to `d1` followed by a move to `d2` is a move to `d2`.
    proof fn lemma_moves_compose(first: Self, second: Self, third: Self, d1: Device, d2: Device)
        requires
            second.moved_from(first, d1),
            third.moved_from(second, d2),
        ensures
            third.moved_from(first, d2),
    {
        OPTAttention::lemma_moves_compose(first.self_attn, second.self_attn, third.self_attn, d1, d2);
    }
}

impl OPTAttention {
    /// A move to `d1` followed by a move to `d2` is a move to `d2`.
    proof fn lemma_moves_compose(first: Self, second: Self, third: Self, d1: Device, d2: Device)
        requires
            second.moved_from(first, d1),
            third.moved_from(second, d2),
        ensures
            third.moved_from(first, d2),
    {
    }
}

} // verus!

verus! {

impl OPTConfig {
    /// The default configuration has these sizes: the clauses below.
    pub proof fn lemma_default_sizes(&self)
        requires
            self.gguf_fields_default(),
        ensures
            self.vocab_size == 50272,
            self.hidden_size == 768,
            self.intermediate_size == 3072,
            self.num_hidden_layers == 12,
            self.num_attention_heads == 12,
            self.num_key_value_heads == 12,
            self.max_position_embeddings == 2048,
    {
    }

    /// The default configuration has these remaining settings: the clauses below.
    pub proof fn lemma_default_settings(&self)
        requires
            self.other_fields_default(),
        ensures
            self.hidden_act@ == "relu"@,
            self.initializer_range.bits == 0x3ca3d70a,
            self.layer_norm_eps.bits == 0x3727c5ac,
            self.use_cache == true,
            self.pad_token_id == 1,
            self.bos_token_id == 2,
            self.eos_token_id == 2,
            self.tie_word_embeddings == false,
            self.word_embed_proj_dim == 768,
            self.do_layer_norm_before == true,
    {
    }

    /// The default configuration is the one with the default sizes and settings: the clauses below.
    pub proof fn lemma_default_parts(&self)
        requires
            self.is_default(),
        ensures
            ({
            self.gguf_fields_default() && self.other_fields_default()
        }),
    {
    }
}

impl OPTModelV2 {
    /// Built for `config` on `device`, each weight is the zero tensor of the shape the configuration gives, on `device`, and each recorded size is the configured one: the clauses below.
    pub proof fn lemma_built_weights(&self, config: OPTConfig, device: Device)
        requires
            self.built_for(config, device),
        ensures
            self.embed_tokens.is_f32(seq![config.vocab_size, config.word_embed_proj_dim], device),
            self.embed_positions.is_f32(seq![(config.max_position_embeddings + 2) as usize, config.hidden_size], device),
            (if config.word_embed_proj_dim != config.hidden_size { self.project_in matches Some(t) && t.is_f32(seq![config.word_embed_proj_dim, config.hidden_size], device) } else { self.project_in is None }),
            (if config.word_embed_proj_dim != config.hidden_size { self.project_out matches Some(t) && t.is_f32(seq![config.hidden_size, config.word_embed_proj_dim], device) } else { self.project_out is None }),
            self.layers@.len() == config.num_hidden_layers,
            forall|k: int| 0 <= k < self.layers@.len() ==> #[trigger] self.layers@[k].built_for(config, device),
            self.final_layer_norm.is_f32(seq![config.hidden_size], device),
            self.lm_head.is_f32(seq![config.word_embed_proj_dim, config.vocab_size], device),
    {
    }

    /// After a move to `device`, every weight lies on `device` with its shape, element type and elements kept, and nothing else changes: the clauses below.
    pub proof fn lemma_moved_weights(&self, before: Self, device: Device)
        requires
            self.moved_from(before, device),
        ensures
            self.config == before.config,
            self.device == device,
            self.embed_tokens.is_placed(before.embed_tokens, device),
            self.embed_positions.is_placed(before.embed_positions, device),
            (match (self.project_in, before.project_in) { (Some(a), Some(b)) => a.is_placed(b, device), (None, None) => true, _ => false }),
            (match (self.project_out, before.project_out) { (Some(a), Some(b)) => a.is_placed(b, device), (None, None) => true, _ => false }),
            self.layers@.len() == before.layers@.len(),
            forall|k: int| 0 <= k < self.layers@.len() ==> #[trigger] self.layers@[k].moved_from(before.layers@[k], device),
            self.final_layer_norm.is_placed(before.final_layer_norm, device),
            self.lm_head.is_placed(before.lm_head, device),
    {
    }

    /// After loading from `weights`, each weight holds the tensor stored under its checkpoint name, copied or transposed, and keeps its previous value when the name is absent; nothing else changes: the clauses below.
    pub proof fn lemma_loaded_weights(&self, before: Self, weights: ModelWeights)
        requires
            self.loaded(before, weights),
        ensures
            self.config == before.config,
            self.device == before.device,
            copied(self.embed_tokens, before.embed_tokens, weights.lookup("model.decoder.embed_tokens.weight"@)),
            copied(self.embed_positions, before.embed_positions, weights.lookup("model.decoder.embed_positions.weight"@)),
            transposed_opt(self.project_in, before.project_in, weights.lookup("model.decoder.project_in.weight"@)),
            transposed_opt(self.project_out, before.project_out, weights.lookup("model.decoder.project_out.weight"@)),
            self.layers@.len() == before.layers@.len(),
            forall|k: int| 0 <= k < before.layers@.len() ==> #[trigger] self.layers@[k].loaded(before.layers@[k], weights, k),
            copied(self.final_layer_norm, before.final_layer_norm, weights.lookup("model.decoder.final_layer_norm.weight"@)),
            transposed(self.lm_head, before.lm_head, weights.lookup("lm_head.weight"@)),
    {
    }

    /// Loading from `weights` succeeds only when every tensor it must transpose, found under these checkpoint names, has at least two dimensions: the clauses below.
    pub proof fn lemma_loadable_names(&self, weights: ModelWeights)
        requires
            self.loadable(weights),
        ensures
            transposable(weights.lookup("model.decoder.project_in.weight"@)),
            transposable(weights.lookup("model.decoder.project_out.weight"@)),
            transposable(weights.lookup("lm_head.weight"@)),
            forall|k: int| 0 <= k < self.layers@.len() ==> #[trigger] self.layers@[k].loadable(weights, k),
    {
    }
}

impl OPTLayer {
    /// Built for `config` on `device`, each weight is the zero tensor of the shape the configuration gives, on `device`, and each recorded size is the configured one: the clauses below.
    pub proof fn lemma_built_weights(&self, config: OPTConfig, device: Device)
        requires
            self.built_for(config, device),
        ensures
            self.self_attn.built_for(config, device),
            self.fc1.is_f32(seq![config.hidden_size, config.intermediate_size], device),
            self.fc2.is_f32(seq![config.intermediate_size, config.hidden_size], device),
            self.self_attn_layer_norm.is_f32(seq![config.hidden_size], device),
            self.final_layer_norm.is_f32(seq![config.hidden_size], device),
            self.do_layer_norm_before == config.do_layer_norm_before,
    {
    }

    /// After a move to `device`, every weight lies on `device` with its shape, element type and elements kept, and nothing else changes: the clauses below.
    pub proof fn lemma_moved_weights(&self, before: Self, device: Device)
        requires
            self.moved_from(before, device),
        ensures
            self.self_attn.moved_from(before.self_attn, device),
            self.fc1.is_placed(before.fc1, device),
            self.fc2.is_placed(before.fc2, device),
            self.self_attn_layer_norm.is_placed(before.self_attn_layer_norm, device),
            self.final_layer_norm.is_placed(before.final_layer_norm, device),
            self.do_layer_norm_before == before.do_layer_norm_before,
    {
    }

    /// After loading from `weights`, each weight holds the tensor stored under its checkpoint name, copied or transposed, and keeps its previous value when the name is absent; nothing else changes: the clauses below.
    pub proof fn lemma_loaded_weights(&self, before: Self, weights: ModelWeights, idx: int)
        requires
            self.loaded(before, weights, idx),
        ensures
            transposed(self.self_attn.q_proj, before.self_attn.q_proj, weights.lookup(indexed("model.decoder.layers."@, idx, ".self_attn.q_proj.weight"@))),
            transposed(self.self_attn.k_proj, before.self_attn.k_proj, weights.lookup(indexed("model.decoder.layers."@, idx, ".self_attn.k_proj.weight"@))),
            transposed(self.self_attn.v_proj, before.self_attn.v_proj, weights.lookup(indexed("model.decoder.layers."@, idx, ".self_attn.v_proj.weight"@))),
            transposed(self.self_attn.out_proj, before.self_attn.out_proj, weights.lookup(indexed("model.decoder.layers."@, idx, ".self_attn.out_proj.weight"@))),
            self.self_attn.num_heads == before.self_attn.num_heads,
            self.self_attn.head_dim == before.self_attn.head_dim,
            transposed(self.fc1, before.fc1, weights.lookup(indexed("model.decoder.layers."@, idx, ".fc1.weight"@))),
            transposed(self.fc2, before.fc2, weights.lookup(indexed("model.decoder.layers."@, idx, ".fc2.weight"@))),
            copied(self.self_attn_layer_norm, before.self_attn_layer_norm, weights.lookup(indexed("model.decoder.layers."@, idx, ".self_attn_layer_norm.weight"@))),
            copied(self.final_layer_norm, before.final_layer_norm, weights.lookup(indexed("model.decoder.layers."@, idx, ".final_layer_norm.weight"@))),
            self.do_layer_norm_before == before.do_layer_norm_before,
    {
    }

    /// Loading from `weights` succeeds only when every tensor it must transpose, found under these checkpoint names, has at least two dimensions: the clauses below.
    pub proof fn lemma_loadable_names(&self, weights: ModelWeights, idx: int)
        requires
            self.loadable(weights, idx),
        ensures
            transposable(weights.lookup(indexed("model.decoder.layers."@, idx, ".self_attn.q_proj.weight"@))),
            transposable(weights.lookup(indexed("model.decoder.layers."@, idx, ".self_attn.k_proj.weight"@))),
            transposable(weights.lookup(indexed("model.decoder.layers."@, idx, ".self_attn.v_proj.weight"@))),
            transposable(weights.lookup(indexed("model.decoder.layers."@, idx, ".self_attn.out_proj.weight"@))),
            transposable(weights.lookup(indexed("model.decoder.layers."@, idx, ".fc1.weight"@))),
            transposable(weights.lookup(indexed("model.decoder.layers."@, idx, ".fc2.weight"@))),
    {
    }
}

impl OPTAttention {
    /// Built for `config` on `device`, each weight is the zero tensor of the shape the configuration gives, on `device`, and each recorded size is the configured one: the clauses below.
    pub proof fn lemma_built_weights(&self, config: OPTConfig, device: Device)
        requires
            self.built_for(config, device),
        ensures
            self.q_proj.is_f32(seq![config.hidden_size, config.hidden_size], device),
            self.k_proj.is_f32(seq![config.hidden_size, config.hidden_size], device),
            self.v_proj.is_f32(seq![config.hidden_size, config.hidden_size], device),
            self.out_proj.is_f32(seq![config.hidden_size, config.hidden_size], device),
            self.num_heads == config.num_attention_heads,
            self.head_dim == config.hidden_size / config.num_attention_heads,
    {
    }

    /// After a move to `device`, every weight lies on `device` with its shape, element type and elements kept, and nothing else changes: the clauses below.
    pub proof fn lemma_moved_weights(&self, before: Self, device: Device)
        requires
            self.moved_from(before, device),
        ensures
            self.q_proj.is_placed(before.q_proj, device),
            self.k_proj.is_placed(before.k_proj, device),
            self.v_proj.is_placed(before.v_proj, device),
            self.out_proj.is_placed(before.out_proj, device),
            self.num_heads == before.num_heads,
            self.head_dim == before.head_dim,
    {
    }
}

/// `opt_param_count` is, for every configuration, the formula below.
pub proof fn lemma_opt_param_count_formula(c: OPTConfig)
    ensures
        opt_param_count(c) == (c.vocab_size * c.hidden_size + c.num_hidden_layers * 8 * (c.hidden_size * c.hidden_size)),
{
}

} // verus!
