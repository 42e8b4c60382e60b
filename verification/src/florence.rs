//! The Florence (vision-language) model.
use vstd::prelude::*;
use crate::common::F32Bits;
use crate::gguf::GGUFModelConfig;
use crate::common::{MemoryRequirements, ModelError};
use crate::tensor::{zeros1, zeros2, zeros3, Device, Tensor};
use crate::weights::{copied, transposed, transposable, is_transpose_error, load_copy, load_transposed, ModelWeights};

verus! {

/// Hyperparameters of the Florence (vision-language) model.
#[derive(Clone, Debug)]
pub struct FlorenceConfig {
    pub vocab_size: usize,
    pub hidden_size: usize,
    pub intermediate_size: usize,
    pub num_hidden_layers: usize,
    pub num_attention_heads: usize,
    pub vision_hidden_size: usize,
    pub vision_num_hidden_layers: usize,
    pub vision_num_attention_heads: usize,
    pub vision_patch_size: usize,
    pub vision_image_size: usize,
    pub layer_norm_eps: F32Bits,
    pub pad_token_id: i64,
    pub bos_token_id: i64,
    pub eos_token_id: i64,
}

impl FlorenceConfig {
    /// The fields that a GGUF file supplies hold their default values.
    pub open spec fn gguf_fields_default(&self) -> bool {
        &&& self.vocab_size == 51289
        &&& self.hidden_size == 768
        &&& self.num_hidden_layers == 12
        &&& self.num_attention_heads == 12
    }

    /// The fields that a GGUF file does not supply hold their default values.
    pub open spec fn other_fields_default(&self) -> bool {
        &&& self.intermediate_size == 3072
        &&& self.vision_hidden_size == 768
        &&& self.vision_num_hidden_layers == 12
        &&& self.vision_num_attention_heads == 12
        &&& self.vision_patch_size == 16
        &&& self.vision_image_size == 384
        &&& self.layer_norm_eps.bits == 0x358637bd
        &&& self.pad_token_id == 1
        &&& self.bos_token_id == 0
        &&& self.eos_token_id == 2
    }

    /// Every field holds its default value.
    pub open spec fn is_default(&self) -> bool {
        self.gguf_fields_default() && self.other_fields_default()
    }

    /// The configuration described by a GGUF file: the architecture fields it
    /// carries, and the defaults for the rest.
    pub fn from_gguf_config(gguf: &GGUFModelConfig) -> (r: Self)
        ensures
            r.vocab_size == gguf.vocab_size,
            r.hidden_size == gguf.hidden_size,
            r.num_hidden_layers == gguf.num_hidden_layers,
            r.num_attention_heads == gguf.num_attention_heads,
            r.other_fields_default(),
    {
        let d = Self::default();
        Self {
            vocab_size: gguf.vocab_size,
            hidden_size: gguf.hidden_size,
            num_hidden_layers: gguf.num_hidden_layers,
            num_attention_heads: gguf.num_attention_heads,
            ..d
        }
    }

    /// Size of the token vocabulary.
    pub fn vocab_size(&self) -> (r: usize)
        ensures
            r == self.vocab_size,
    {
        self.vocab_size
    }

    /// Width of the hidden states.
    pub fn hidden_size(&self) -> (r: usize)
        ensures
            r == self.hidden_size,
    {
        self.hidden_size
    }

    /// Number of transformer (or state-space) layers.
    pub fn num_layers(&self) -> (r: usize)
        ensures
            r == self.num_hidden_layers,
    {
        self.num_hidden_layers
    }
}

impl Default for FlorenceConfig {
    fn default() -> (r: Self)
        ensures
            r.is_default(),
    {
        Self {
            vocab_size: 51289,
            hidden_size: 768,
            intermediate_size: 3072,
            num_hidden_layers: 12,
            num_attention_heads: 12,
            vision_hidden_size: 768,
            vision_num_hidden_layers: 12,
            vision_num_attention_heads: 12,
            vision_patch_size: 16,
            vision_image_size: 384,
            layer_norm_eps: F32Bits::from_bits(0x358637bd),
            pad_token_id: 1,
            bos_token_id: 0,
            eos_token_id: 2,
        }
    }
}

/// The Florence vision-language model: a vision tower, a projection of its features, and a language model.
pub struct FlorenceModelV2 {
    pub config: FlorenceConfig,
    pub device: Device,
    pub vision_tower: FlorenceVisionTower,
    pub language_model: FlorenceLanguageModel,
    pub projector: Tensor,
}

/// The Florence vision tower: patch embedding, position embedding over the patches and a class token, transformer blocks and a norm.
pub struct FlorenceVisionTower {
    pub patch_embed: Tensor,
    pub pos_embed: Tensor,
    pub blocks: Vec<FlorenceVisionBlock>,
    pub norm: Tensor,
    pub hidden_size: usize,
}

/// A Florence vision block: attention with a fused projection and an MLP of four times the width, each after a norm.
pub struct FlorenceVisionBlock {
    pub norm1: Tensor,
    pub attn_qkv: Tensor,
    pub attn_proj: Tensor,
    pub norm2: Tensor,
    pub mlp_fc1: Tensor,
    pub mlp_fc2: Tensor,
    pub num_heads: usize,
}

/// The Florence language model: token embeddings, decoder layers, a final norm and the head.
pub struct FlorenceLanguageModel {
    pub embed_tokens: Tensor,
    pub layers: Vec<FlorenceDecoderLayer>,
    pub norm: Tensor,
    pub lm_head: Tensor,
}

/// A Florence decoder layer: causal attention and an MLP, each after a layer norm.
pub struct FlorenceDecoderLayer {
    pub self_attn_q: Tensor,
    pub self_attn_k: Tensor,
    pub self_attn_v: Tensor,
    pub self_attn_o: Tensor,
    pub mlp_fc1: Tensor,
    pub mlp_fc2: Tensor,
    pub norm1: Tensor,
    pub norm2: Tensor,
    pub num_heads: usize,
    pub head_dim: usize,
}

impl FlorenceModelV2 {
    /// The model as built for `config` on `device`: the vision tower, the language model and a projector `[vision_hidden_size, hidden_size]`.
    pub closed spec fn built_for(&self, config: FlorenceConfig, device: Device) -> bool {
        &&& self.vision_tower.built_for(config, device)
        &&& self.language_model.built_for(config, device)
        &&& self.projector.is_f32(seq![config.vision_hidden_size, config.hidden_size], device)
    }

    /// `self` is `old` after a move to `device`: the device is recorded and the projector placed there; the tower and the language model are unchanged.
    pub closed spec fn moved_from(&self, old: Self, device: Device) -> bool {
        &&& self.config == old.config
        &&& self.device == device
        &&& self.vision_tower == old.vision_tower
        &&& self.language_model == old.language_model
        &&& self.projector.is_placed(old.projector, device)
    }

    /// The configuration the model was built with.
    pub closed spec fn spec_config(&self) -> FlorenceConfig {
        self.config
    }

    /// The device the model reports.
    pub closed spec fn spec_device(&self) -> Device {
        self.device
    }

    /// Builds the model for `config` on the CPU, with zero weights.
    pub fn new(config: FlorenceConfig) -> (r: Result<Self, ModelError>)
        requires
            config.vision_patch_size > 0,
            3 * config.vision_patch_size <= usize::MAX,
            3 * config.vision_patch_size * config.vision_patch_size <= usize::MAX,
            (config.vision_image_size / config.vision_patch_size) * (config.vision_image_size / config.vision_patch_size) + 1 <= usize::MAX,
            config.vision_hidden_size * 4 <= usize::MAX,
            config.num_attention_heads > 0,
        ensures
            r matches Ok(m) && m.spec_config() == config && m.spec_device() == Device::CPU
                && m.built_for(config, Device::CPU),
    {
        let device = Device::CPU;
        let vision_tower = FlorenceVisionTower::new(&config, &device);
        let language_model = FlorenceLanguageModel::new(&config, &device);
        let projector = zeros2(config.vision_hidden_size, config.hidden_size, &device);
        Ok(FlorenceModelV2 { config, device, vision_tower, language_model, projector })
    }

    /// The configuration the model was built with.
    pub fn config(&self) -> (r: &FlorenceConfig)
        ensures
            *r == self.spec_config(),
    {
        &self.config
    }

    /// Moves the model to `device`: the projector; the tower and the language model stay where they are.
    pub fn to_device(&mut self, device: &Device) -> (r: Result<(), ModelError>)
        ensures
            r is Ok,
            final(self).moved_from(*old(self), *device),
    {
        self.projector = self.projector.to_device(device);
        self.device = *device;
        Ok(())
    }
}

impl FlorenceVisionTower {
    /// Built for `config`: a patch embedding `[3 * patch * patch, vision_hidden_size]`, positions `[1, (image / patch)^2 + 1, vision_hidden_size]`, `vision_num_hidden_layers` blocks and the norm.
    pub closed spec fn built_for(&self, config: FlorenceConfig, device: Device) -> bool {
        let patch_dim = (3 * config.vision_patch_size * config.vision_patch_size) as usize;
        let num_patches = ((config.vision_image_size / config.vision_patch_size) * (config.vision_image_size / config.vision_patch_size)) as usize;
        &&& self.patch_embed.is_f32(seq![patch_dim, config.vision_hidden_size], device)
        &&& self.pos_embed.is_f32(seq![(1) as usize, (num_patches + 1) as usize, config.vision_hidden_size], device)
        &&& self.blocks@.len() == config.vision_num_hidden_layers
        &&& forall|k: int| 0 <= k < self.blocks@.len() ==> #[trigger] self.blocks@[k].built_for(config, device)
        &&& self.norm.is_f32(seq![config.vision_hidden_size], device)
        &&& self.hidden_size == config.vision_hidden_size
    }

    fn new(config: &FlorenceConfig, device: &Device) -> (r: Self)
        requires
            config.vision_patch_size > 0,
            3 * config.vision_patch_size <= usize::MAX,
            3 * config.vision_patch_size * config.vision_patch_size <= usize::MAX,
            (config.vision_image_size / config.vision_patch_size) * (config.vision_image_size / config.vision_patch_size) + 1 <= usize::MAX,
            config.vision_hidden_size * 4 <= usize::MAX,
        ensures
            r.built_for(*config, *device),
    {
        let patch_dim = 3 * config.vision_patch_size * config.vision_patch_size;
        let num_patches = (config.vision_image_size / config.vision_patch_size) * (config.vision_image_size / config.vision_patch_size);
        let patch_embed = zeros2(patch_dim, config.vision_hidden_size, device);
        let pos_embed = zeros3(1, num_patches + 1, config.vision_hidden_size, device);
        let mut blocks: Vec<FlorenceVisionBlock> = Vec::new();
        let mut n: usize = 0;
        while n < config.vision_num_hidden_layers
            invariant
                n <= config.vision_num_hidden_layers,
                config.vision_patch_size > 0,
                3 * config.vision_patch_size <= usize::MAX,
                3 * config.vision_patch_size * config.vision_patch_size <= usize::MAX,
                (config.vision_image_size / config.vision_patch_size) * (config.vision_image_size / config.vision_patch_size) + 1 <= usize::MAX,
                config.vision_hidden_size * 4 <= usize::MAX,
                blocks@.len() == n,
                forall|k: int| 0 <= k < n ==> #[trigger] blocks@[k].built_for(*config, *device),
            decreases config.vision_num_hidden_layers - n,
        {
            blocks.push(FlorenceVisionBlock::new(config, device));
            n += 1;
        }
        let norm = zeros1(config.vision_hidden_size, device);
        let hidden_size = config.vision_hidden_size;
        FlorenceVisionTower { patch_embed, pos_embed, blocks, norm, hidden_size }
    }

}

impl FlorenceVisionBlock {
    /// The weights as built for `config` on `device`, all zero.
    pub closed spec fn built_for(&self, config: FlorenceConfig, device: Device) -> bool {
        &&& self.norm1.is_f32(seq![config.vision_hidden_size], device)
        &&& self.attn_qkv.is_f32(seq![config.vision_hidden_size, (config.vision_hidden_size * 3) as usize], device)
        &&& self.attn_proj.is_f32(seq![config.vision_hidden_size, config.vision_hidden_size], device)
        &&& self.norm2.is_f32(seq![config.vision_hidden_size], device)
        &&& self.mlp_fc1.is_f32(seq![config.vision_hidden_size, (config.vision_hidden_size * 4) as usize], device)
        &&& self.mlp_fc2.is_f32(seq![(config.vision_hidden_size * 4) as usize, config.vision_hidden_size], device)
        &&& self.num_heads == config.vision_num_attention_heads
    }

    fn new(config: &FlorenceConfig, device: &Device) -> (r: Self)
        requires
            config.vision_hidden_size * 4 <= usize::MAX,
        ensures
            r.built_for(*config, *device),
    {
        let norm1 = zeros1(config.vision_hidden_size, device);
        let attn_qkv = zeros2(config.vision_hidden_size, config.vision_hidden_size * 3, device);
        let attn_proj = zeros2(config.vision_hidden_size, config.vision_hidden_size, device);
        let norm2 = zeros1(config.vision_hidden_size, device);
        let mlp_fc1 = zeros2(config.vision_hidden_size, config.vision_hidden_size * 4, device);
        let mlp_fc2 = zeros2(config.vision_hidden_size * 4, config.vision_hidden_size, device);
        let num_heads = config.vision_num_attention_heads;
        FlorenceVisionBlock { norm1, attn_qkv, attn_proj, norm2, mlp_fc1, mlp_fc2, num_heads }
    }

}

impl FlorenceLanguageModel {
    /// The weights as built for `config` on `device`, all zero.
    pub closed spec fn built_for(&self, config: FlorenceConfig, device: Device) -> bool {
        &&& self.embed_tokens.is_f32(seq![config.vocab_size, config.hidden_size], device)
        &&& self.layers@.len() == config.num_hidden_layers
        &&& forall|k: int| 0 <= k < self.layers@.len() ==> #[trigger] self.layers@[k].built_for(config, device)
        &&& self.norm.is_f32(seq![config.hidden_size], device)
        &&& self.lm_head.is_f32(seq![config.hidden_size, config.vocab_size], device)
    }

    fn new(config: &FlorenceConfig, device: &Device) -> (r: Self)
        requires
            config.num_attention_heads > 0,
        ensures
            r.built_for(*config, *device),
    {
        let embed_tokens = zeros2(config.vocab_size, config.hidden_size, device);
        let mut layers: Vec<FlorenceDecoderLayer> = Vec::new();
        let mut n: usize = 0;
        while n < config.num_hidden_layers
            invariant
                n <= config.num_hidden_layers,
                config.num_attention_heads > 0,
                layers@.len() == n,
                forall|k: int| 0 <= k < n ==> #[trigger] layers@[k].built_for(*config, *device),
            decreases config.num_hidden_layers - n,
        {
            layers.push(FlorenceDecoderLayer::new(config, device));
            n += 1;
        }
        let norm = zeros1(config.hidden_size, device);
        let lm_head = zeros2(config.hidden_size, config.vocab_size, device);
        FlorenceLanguageModel { embed_tokens, layers, norm, lm_head }
    }

}

impl FlorenceDecoderLayer {
    /// The weights as built for `config` on `device`, all zero.
    pub closed spec fn built_for(&self, config: FlorenceConfig, device: Device) -> bool {
        &&& self.self_attn_q.is_f32(seq![config.hidden_size, config.hidden_size], device)
        &&& self.self_attn_k.is_f32(seq![config.hidden_size, config.hidden_size], device)
        &&& self.self_attn_v.is_f32(seq![config.hidden_size, config.hidden_size], device)
        &&& self.self_attn_o.is_f32(seq![config.hidden_size, config.hidden_size], device)
        &&& self.mlp_fc1.is_f32(seq![config.hidden_size, config.intermediate_size], device)
        &&& self.mlp_fc2.is_f32(seq![config.intermediate_size, config.hidden_size], device)
        &&& self.norm1.is_f32(seq![config.hidden_size], device)
        &&& self.norm2.is_f32(seq![config.hidden_size], device)
        &&& self.num_heads == config.num_attention_heads
        &&& self.head_dim == config.hidden_size / config.num_attention_heads
    }

    fn new(config: &FlorenceConfig, device: &Device) -> (r: Self)
        requires
            config.num_attention_heads > 0,
        ensures
            r.built_for(*config, *device),
    {
        let self_attn_q = zeros2(config.hidden_size, config.hidden_size, device);
        let self_attn_k = zeros2(config.hidden_size, config.hidden_size, device);
        let self_attn_v = zeros2(config.hidden_size, config.hidden_size, device);
        let self_attn_o = zeros2(config.hidden_size, config.hidden_size, device);
        let mlp_fc1 = zeros2(config.hidden_size, config.intermediate_size, device);
        let mlp_fc2 = zeros2(config.intermediate_size, config.hidden_size, device);
        let norm1 = zeros1(config.hidden_size, device);
        let norm2 = zeros1(config.hidden_size, device);
        let num_heads = config.num_attention_heads;
        let head_dim = config.hidden_size / config.num_attention_heads;
        FlorenceDecoderLayer { self_attn_q, self_attn_k, self_attn_v, self_attn_o, mlp_fc1, mlp_fc2, norm1, norm2, num_heads, head_dim }
    }

}
/// Parameter bytes of the estimate: the embedding table, four bytes per entry.
pub open spec fn florence_param_bytes(c: FlorenceConfig) -> int {
    c.vocab_size * c.hidden_size * 4
}

/// No step of the memory estimate for `FlorenceConfig` leaves the range of `usize`
/// or divides by zero.
pub open spec fn florence_memory_fits(c: FlorenceConfig) -> bool {
    &&& c.vocab_size * c.hidden_size <= usize::MAX
    &&& c.vocab_size * c.hidden_size * 4 <= usize::MAX
    &&& c.vocab_size * c.hidden_size * 4 * 2 <= usize::MAX
}

impl FlorenceModelV2 {
    /// Estimated memory from the embedding table alone: its bytes on the GPU, a quarter on the CPU, an eighth for the cache, twice at peak.
    pub fn memory_requirements(&self) -> (r: MemoryRequirements)
        requires
            florence_memory_fits(self.spec_config()),
        ensures
            r.gpu_memory == florence_param_bytes(self.spec_config()),
            r.cpu_memory == florence_param_bytes(self.spec_config()) / 4,
            r.kv_cache_memory == florence_param_bytes(self.spec_config()) / 8,
            r.peak_memory == florence_param_bytes(self.spec_config()) * 2,
    {
        let c = &self.config;
        let param_bytes = c.vocab_size * c.hidden_size * 4;
        MemoryRequirements {
            gpu_memory: param_bytes,
            cpu_memory: param_bytes / 4,
            kv_cache_memory: param_bytes / 8,
            peak_memory: param_bytes * 2,
        }
    }
}

impl FlorenceModelV2 {
    /// `self` is `old` after loading from `weights`: each weight whose
    /// checkpoint name `weights` holds takes that tensor's shape, element
    /// type, device and elements (as is, or transposed for a matrix product),
    /// and nothing else changes.
    pub closed spec fn loaded(&self, old: Self, weights: ModelWeights) -> bool {
        &&& self.config == old.config
        &&& self.device == old.device
        &&& self.vision_tower == old.vision_tower
        &&& self.language_model.loaded(old.language_model, weights)
        &&& self.projector == old.projector
    }

    /// Every tensor that loading from `weights` would transpose has at least
    /// two dimensions.
    pub closed spec fn loadable(&self, weights: ModelWeights) -> bool {
        &&& self.language_model.loadable(weights)
    }

    /// Loads the weights of `weights` that this part names.
    fn load_weights(&mut self, weights: &ModelWeights) -> (r: Result<(), ModelError>)
        ensures
            r is Ok <==> old(self).loadable(*weights),
            r is Ok ==> final(self).loaded(*old(self), *weights),
            r matches Err(e) ==> is_transpose_error(e),
    {
        self.language_model.load_weights(weights)?;
        Ok(())
    }
}

impl FlorenceLanguageModel {
    /// `self` is `old` after loading from `weights`: each weight whose
    /// checkpoint name `weights` holds takes that tensor's shape, element
    /// type, device and elements (as is, or transposed for a matrix product),
    /// and nothing else changes.
    pub closed spec fn loaded(&self, old: Self, weights: ModelWeights) -> bool {
        &&& copied(self.embed_tokens, old.embed_tokens, weights.lookup("model.embed_tokens.weight"@))
        &&& self.layers == old.layers
        &&& copied(self.norm, old.norm, weights.lookup("model.norm.weight"@))
        &&& transposed(self.lm_head, old.lm_head, weights.lookup("lm_head.weight"@))
    }

    /// Every tensor that loading from `weights` would transpose has at least
    /// two dimensions.
    pub closed spec fn loadable(&self, weights: ModelWeights) -> bool {
        &&& transposable(weights.lookup("lm_head.weight"@))
    }

    /// Loads the weights of `weights` that this part names.
    fn load_weights(&mut self, weights: &ModelWeights) -> (r: Result<(), ModelError>)
        ensures
            r is Ok <==> old(self).loadable(*weights),
            r is Ok ==> final(self).loaded(*old(self), *weights),
            r matches Err(e) ==> is_transpose_error(e),
    {
        load_copy(&mut self.embed_tokens, weights, "model.embed_tokens.weight");
        load_copy(&mut self.norm, weights, "model.norm.weight");
        load_transposed(&mut self.lm_head, weights, "lm_head.weight")?;
        Ok(())
    }
}


impl FlorenceModelV2 {
    /// Builds the model for `config` as `new` does and loads the weights that
    /// `weights` holds under their checkpoint names: the result is the built
    /// model with those weights taken, and an error exactly when a tensor that
    /// must be transposed has fewer than two dimensions.
    pub fn from_weights(config: FlorenceConfig, weights: ModelWeights) -> (r: Result<Self, ModelError>)
        requires
            config.vision_patch_size > 0,
            3 * config.vision_patch_size <= usize::MAX,
            3 * config.vision_patch_size * config.vision_patch_size <= usize::MAX,
            (config.vision_image_size / config.vision_patch_size) * (config.vision_image_size / config.vision_patch_size) + 1 <= usize::MAX,
            config.vision_hidden_size * 4 <= usize::MAX,
            config.num_attention_heads > 0,
        ensures
            exists|built: Self| #[trigger] built.built_for(config, Device::CPU) && built.spec_config() == config
                && built.spec_device() == Device::CPU && (r is Ok <==> built.loadable(weights))
                && (r matches Ok(m) ==> m.spec_config() == config && m.spec_device() == Device::CPU && m.loaded(built, weights))
                && (r matches Err(e) ==> is_transpose_error(e)),
    {
        let mut model = match Self::new(config) {
            Ok(m) => m,
            Err(e) => {
                return Err(e);
            },
        };
        let ghost built = model;
        match model.load_weights(&weights) {
            Ok(()) => {
                assert(built.built_for(config, Device::CPU));
                Ok(model)
            },
            Err(e) => {
                assert(built.built_for(config, Device::CPU));
                Err(e)
            },
        }
    }
}

impl FlorenceModelV2 {
    /// Moving to `d1` and then to `d2` leaves the model as a single move to
    /// `d2` would: the second move overrides the first.
    pub proof fn lemma_moves_compose(first: Self, second: Self, third: Self, d1: Device, d2: Device)
        requires
            second.moved_from(first, d1),
            third.moved_from(second, d2),
        ensures
            third.moved_from(first, d2),
    {
    }
}

} // verus!

verus! {

impl FlorenceConfig {
    /// The default configuration has these sizes: the clauses below.
    pub proof fn lemma_default_sizes(&self)
        requires
            self.gguf_fields_default(),
        ensures
            self.vocab_size == 51289,
            self.hidden_size == 768,
            self.num_hidden_layers == 12,
            self.num_attention_heads == 12,
    {
    }

    /// The default configuration has these remaining settings: the clauses below.
    pub proof fn lemma_default_settings(&self)
        requires
            self.other_fields_default(),
        ensures
            self.intermediate_size == 3072,
            self.vision_hidden_size == 768,
            self.vision_num_hidden_layers == 12,
            self.vision_num_attention_heads == 12,
            self.vision_patch_size == 16,
            self.vision_image_size == 384,
            self.layer_norm_eps.bits == 0x358637bd,
            self.pad_token_id == 1,
            self.bos_token_id == 0,
            self.eos_token_id == 2,
    {
    }

    /// The default configuration is the one with the default sizes and settings: the clauses below.
    pub proof fn lemma_default_parts(&self)
        requires
            self.is_default(),
        ensures
            ({
            self.gguf_fields_default() && self.other_fields_default()
        }),
    {
    }
}

impl FlorenceModelV2 {
    /// Built for `config` on `device`, each weight is the zero tensor of the shape the configuration gives, on `device`, and each recorded size is the configured one: the clauses below.
    pub proof fn lemma_built_weights(&self, config: FlorenceConfig, device: Device)
        requires
            self.built_for(config, device),
        ensures
            self.vision_tower.built_for(config, device),
            self.language_model.built_for(config, device),
            self.projector.is_f32(seq![config.vision_hidden_size, config.hidden_size], device),
    {
    }

    /// After a move to `device`, every weight lies on `device` with its shape, element type and elements kept, and nothing else changes: the clauses below.
    pub proof fn lemma_moved_weights(&self, before: Self, device: Device)
        requires
            self.moved_from(before, device),
        ensures
            self.config == before.config,
            self.device == device,
            self.vision_tower == before.vision_tower,
            self.language_model == before.language_model,
            self.projector.is_placed(before.projector, device),
    {
    }

    /// After loading from `weights`, each weight holds the tensor stored under its checkpoint name, copied or transposed, and keeps its previous value when the name is absent; nothing else changes: the clauses below.
    pub proof fn lemma_loaded_weights(&self, before: Self, weights: ModelWeights)
        requires
            self.loaded(before, weights),
        ensures
            self.config == before.config,
            self.device == before.device,
            self.vision_tower == before.vision_tower,
            self.language_model.loaded(before.language_model, weights),
            self.projector == before.projector,
    {
    }

    /// Loading from `weights` succeeds only when every tensor it must transpose, found under these checkpoint names, has at least two dimensions: the clauses below.
    pub proof fn lemma_loadable_names(&self, weights: ModelWeights)
        requires
            self.loadable(weights),
        ensures
            self.language_model.loadable(weights),
    {
    }
}

impl FlorenceVisionTower {
    /// Built for `config` on `device`, each weight is the zero tensor of the shape the configuration gives, on `device`, and each recorded size is the configured one: the clauses below.
    pub proof fn lemma_built_weights(&self, config: FlorenceConfig, device: Device)
        requires
            self.built_for(config, device),
        ensures
            ({
            let patch_dim = (3 * config.vision_patch_size * config.vision_patch_size) as usize;
            let num_patches = ((config.vision_image_size / config.vision_patch_size) * (config.vision_image_size / config.vision_patch_size)) as usize;
            &&& self.patch_embed.is_f32(seq![patch_dim, config.vision_hidden_size], device)
            &&& self.pos_embed.is_f32(seq![(1) as usize, (num_patches + 1) as usize, config.vision_hidden_size], device)
            &&& self.blocks@.len() == config.vision_num_hidden_layers
            &&& forall|k: int| 0 <= k < self.blocks@.len() ==> #[trigger] self.blocks@[k].built_for(config, device)
            &&& self.norm.is_f32(seq![config.vision_hidden_size], device)
            &&& self.hidden_size == config.vision_hidden_size
        }),
    {
    }
}

impl FlorenceVisionBlock {
    /// Built for `config` on `device`, each weight is the zero tensor of the shape the configuration gives, on `device`, and each recorded size is the configured one: the clauses below.
    pub proof fn lemma_built_weights(&self, config: FlorenceConfig, device: Device)
        requires
            self.built_for(config, device),
        ensures
            self.norm1.is_f32(seq![config.vision_hidden_size], device),
            self.attn_qkv.is_f32(seq![config.vision_hidden_size, (config.vision_hidden_size * 3) as usize], device),
            self.attn_proj.is_f32(seq![config.vision_hidden_size, config.vision_hidden_size], device),
            self.norm2.is_f32(seq![config.vision_hidden_size], device),
            self.mlp_fc1.is_f32(seq![config.vision_hidden_size, (config.vision_hidden_size * 4) as usize], device),
            self.mlp_fc2.is_f32(seq![(config.vision_hidden_size * 4) as usize, config.vision_hidden_size], device),
            self.num_heads == config.vision_num_attention_heads,
    {
    }
}

impl FlorenceLanguageModel {
    /// Built for `config` on `device`, each weight is the zero tensor of the shape the configuration gives, on `device`, and each recorded size is the configured one: the clauses below.
    pub proof fn lemma_built_weights(&self, config: FlorenceConfig, device: Device)
        requires
            self.built_for(config, device),
        ensures
            self.embed_tokens.is_f32(seq![config.vocab_size, config.hidden_size], device),
            self.layers@.len() == config.num_hidden_layers,
            forall|k: int| 0 <= k < self.layers@.len() ==> #[trigger] self.layers@[k].built_for(config, device),
            self.norm.is_f32(seq![config.hidden_size], device),
            self.lm_head.is_f32(seq![config.hidden_size, config.vocab_size], device),
    {
    }

    /// After loading from `weights`, each weight holds the tensor stored under its checkpoint name, copied or transposed, and keeps its previous value when the name is absent; nothing else changes: the clauses below.
    pub proof fn lemma_loaded_weights(&self, before: Self, weights: ModelWeights)
        requires
            self.loaded(before, weights),
        ensures
            copied(self.embed_tokens, before.embed_tokens, weights.lookup("model.embed_tokens.weight"@)),
            self.layers == before.layers,
            copied(self.norm, before.norm, weights.lookup("model.norm.weight"@)),
            transposed(self.lm_head, before.lm_head, weights.lookup("lm_head.weight"@)),
    {
    }

    /// Loading from `weights` succeeds only when every tensor it must transpose, found under these checkpoint names, has at least two dimensions: the clauses below.
    pub proof fn lemma_loadable_names(&self, weights: ModelWeights)
        requires
            self.loadable(weights),
        ensures
            transposable(weights.lookup("lm_head.weight"@)),
    {
    }
}

impl FlorenceDecoderLayer {
    /// Built for `config` on `device`, each weight is the zero tensor of the shape the configuration gives, on `device`, and each recorded size is the configured one: the clauses below.
    pub proof fn lemma_built_weights(&self, config: FlorenceConfig, device: Device)
        requires
            self.built_for(config, device),
        ensures
            self.self_attn_q.is_f32(seq![config.hidden_size, config.hidden_size], device),
            self.self_attn_k.is_f32(seq![config.hidden_size, config.hidden_size], device),
            self.self_attn_v.is_f32(seq![config.hidden_size, config.hidden_size], device),
            self.self_attn_o.is_f32(seq![config.hidden_size, config.hidden_size], device),
            self.mlp_fc1.is_f32(seq![config.hidden_size, config.intermediate_size], device),
            self.mlp_fc2.is_f32(seq![config.intermediate_size, config.hidden_size], device),
            self.norm1.is_f32(seq![config.hidden_size], device),
            self.norm2.is_f32(seq![config.hidden_size], device),
            self.num_heads == config.num_attention_heads,
            self.head_dim == config.hidden_size / config.num_attention_heads,
    {
    }
}

/// `florence_param_bytes` is, for every configuration, the formula below.
pub proof fn lemma_florence_param_bytes_formula(c: FlorenceConfig)
    ensures
        florence_param_bytes(c) == (c.vocab_size * c.hidden_size * 4),
{
}

} // verus!
