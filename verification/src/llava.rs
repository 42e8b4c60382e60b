//! The LLaVA (vision tower, projector and language model) model.
use vstd::prelude::*;
use crate::common::F32Bits;
use crate::gguf::GGUFModelConfig;
use crate::common::{MemoryRequirements, ModelError};
use crate::tensor::{zeros1, zeros2, zeros4, Device, Tensor};
use crate::weights::{copied, copied_opt, transposed, transposed_opt, transposable, is_transpose_error, indexed, joined, indexed_name, joined_name, load_copy, load_copy_opt, load_transposed, load_transposed_opt, ModelWeights};

verus! {

/// Hyperparameters of the LLaVA (vision tower, projector and language model) model.
#[derive(Clone, Debug)]
pub struct LLaVAConfig {
    pub vocab_size: usize,
    pub hidden_size: usize,
    pub intermediate_size: usize,
    pub num_hidden_layers: usize,
    pub num_attention_heads: usize,
    pub num_key_value_heads: usize,
    pub hidden_act: String,
    pub max_position_embeddings: usize,
    pub initializer_range: F32Bits,
    pub rms_norm_eps: F32Bits,
    pub use_cache: bool,
    pub pad_token_id: i64,
    pub bos_token_id: i64,
    pub eos_token_id: i64,
    pub tie_word_embeddings: bool,
    pub rope_theta: F32Bits,
    pub attention_bias: bool,
    pub attention_dropout: F32Bits,
    pub vision_hidden_size: usize,
    pub vision_intermediate_size: usize,
    pub vision_num_hidden_layers: usize,
    pub vision_num_attention_heads: usize,
    pub vision_num_channels: usize,
    pub vision_patch_size: usize,
    pub vision_image_size: usize,
    pub vision_layer_norm_eps: F32Bits,
    pub mm_projector_type: String,
    pub mm_hidden_size: usize,
    pub mm_vision_select_layer: i32,
    pub mm_vision_select_feature: String,
    pub image_token_len: usize,
    pub im_patch_token: i64,
    pub im_start_token: i64,
    pub im_end_token: i64,
}

impl LLaVAConfig {
    /// The fields that a GGUF file supplies hold their default values.
    pub open spec fn gguf_fields_default(&self) -> bool {
        &&& self.vocab_size == 32000
        &&& self.hidden_size == 4096
        &&& self.intermediate_size == 11008
        &&& self.num_hidden_layers == 32
        &&& self.num_attention_heads == 32
        &&& self.num_key_value_heads == 32
        &&& self.max_position_embeddings == 4096
        &&& self.rms_norm_eps.bits == 0x3727c5ac
        &&& self.rope_theta.bits == 0x461c4000
    }

    /// The fields that a GGUF file does not supply hold their default values.
    pub open spec fn other_fields_default(&self) -> bool {
        &&& self.hidden_act@ == "silu"@
        &&& self.initializer_range.bits == 0x3ca3d70a
        &&& self.use_cache == true
        &&& self.pad_token_id == 0
        &&& self.bos_token_id == 1
        &&& self.eos_token_id == 2
        &&& self.tie_word_embeddings == false
        &&& self.attention_bias == false
        &&& self.attention_dropout.bits == 0x00000000
        &&& self.vision_hidden_size == 1024
        &&& self.vision_intermediate_size == 4096
        &&& self.vision_num_hidden_layers == 24
        &&& self.vision_num_attention_heads == 16
        &&& self.vision_num_channels == 3
        &&& self.vision_patch_size == 14
        &&& self.vision_image_size == 336
        &&& self.vision_layer_norm_eps.bits == 0x3727c5ac
        &&& self.mm_projector_type@ == "mlp2x_gelu"@
        &&& self.mm_hidden_size == 1024
        &&& self.mm_vision_select_layer == -2
        &&& self.mm_vision_select_feature@ == "patch"@
        &&& self.image_token_len == 576
        &&& self.im_patch_token == 32000
        &&& self.im_start_token == 32001
        &&& self.im_end_token == 32002
    }

    /// Every field holds its default value.
    pub open spec fn is_default(&self) -> bool {
        self.gguf_fields_default() && self.other_fields_default()
    }

    /// The configuration described by a GGUF file: the architecture fields it
    /// carries, and the defaults for the rest.
    pub fn from_gguf_config(gguf: &GGUFModelConfig) -> (r: Self)
        ensures
            r.vocab_size == gguf.vocab_size,
            r.hidden_size == gguf.hidden_size,
            r.intermediate_size == gguf.intermediate_size,
            r.num_hidden_layers == gguf.num_hidden_layers,
            r.num_attention_heads == gguf.num_attention_heads,
            r.num_key_value_heads == gguf.num_key_value_heads,
            r.rms_norm_eps == gguf.rms_norm_eps,
            r.rope_theta == gguf.rope_theta,
            r.max_position_embeddings == gguf.max_position_embeddings,
            r.other_fields_default(),
    {
        let d = Self::default();
        Self {
            vocab_size: gguf.vocab_size,
            hidden_size: gguf.hidden_size,
            intermediate_size: gguf.intermediate_size,
            num_hidden_layers: gguf.num_hidden_layers,
            num_attention_heads: gguf.num_attention_heads,
            num_key_value_heads: gguf.num_key_value_heads,
            rms_norm_eps: gguf.rms_norm_eps,
            rope_theta: gguf.rope_theta,
            max_position_embeddings: gguf.max_position_embeddings,
            ..d
        }
    }

    /// Number of image patches: (vision_image_size / vision_patch_size) squared.
    pub open spec fn spec_num_patches(&self) -> int {
        let side = self.vision_image_size as int / self.vision_patch_size as int;
        side * side
    }

    /// Number of vision patches.
    pub fn num_patches(&self) -> (r: usize)
        requires
            self.vision_patch_size > 0,
            self.spec_num_patches() <= usize::MAX,
        ensures
            r == self.spec_num_patches(),
    {
        let side = self.vision_image_size / self.vision_patch_size;
        side * side
    }

    /// Number of vision positions: the patches and the class token.
    pub fn num_vision_positions(&self) -> (r: usize)
        requires
            self.vision_patch_size > 0,
            self.spec_num_patches() + 1 <= usize::MAX,
        ensures
            r == self.spec_num_patches() + 1,
    {
        self.num_patches() + 1
    }

    /// Size of the token vocabulary.
    pub fn vocab_size(&self) -> (r: usize)
        ensures
            r == self.vocab_size,
    {
        self.vocab_size
    }

    /// Width of the hidden states.
    pub fn hidden_size(&self) -> (r: usize)
        ensures
            r == self.hidden_size,
    {
        self.hidden_size
    }

    /// Number of transformer (or state-space) layers.
    pub fn num_layers(&self) -> (r: usize)
        ensures
            r == self.num_hidden_layers,
    {
        self.num_hidden_layers
    }
}

impl Default for LLaVAConfig {
    fn default() -> (r: Self)
        ensures
            r.is_default(),
    {
        Self {
            vocab_size: 32000,
            hidden_size: 4096,
            intermediate_size: 11008,
            num_hidden_layers: 32,
            num_attention_heads: 32,
            num_key_value_heads: 32,
            hidden_act: String::from_str("silu"),
            max_position_embeddings: 4096,
            initializer_range: F32Bits::from_bits(0x3ca3d70a),
            rms_norm_eps: F32Bits::from_bits(0x3727c5ac),
            use_cache: true,
            pad_token_id: 0,
            bos_token_id: 1,
            eos_token_id: 2,
            tie_word_embeddings: false,
            rope_theta: F32Bits::from_bits(0x461c4000),
            attention_bias: false,
            attention_dropout: F32Bits::from_bits(0x00000000),
            vision_hidden_size: 1024,
            vision_intermediate_size: 4096,
            vision_num_hidden_layers: 24,
            vision_num_attention_heads: 16,
            vision_num_channels: 3,
            vision_patch_size: 14,
            vision_image_size: 336,
            vision_layer_norm_eps: F32Bits::from_bits(0x3727c5ac),
            mm_projector_type: String::from_str("mlp2x_gelu"),
            mm_hidden_size: 1024,
            mm_vision_select_layer: -2,
            mm_vision_select_feature: String::from_str("patch"),
            image_token_len: 576,
            im_patch_token: 32000,
            im_start_token: 32001,
            im_end_token: 32002,
        }
    }
}

/// LLaVA vision embeddings: a patch convolution with bias, a class embedding and one position embedding per patch plus the class token.
pub struct LLaVAVisionEmbeddings {
    pub patch_embedding_weight: Tensor,
    pub patch_embedding_bias: Tensor,
    pub class_embedding: Tensor,
    pub position_embedding: Tensor,
    pub config: LLaVAConfig,
}

/// LLaVA vision attention: square query, key, value and output projections.
pub struct LLaVAVisionAttention {
    pub q_proj: Tensor,
    pub k_proj: Tensor,
    pub v_proj: Tensor,
    pub out_proj: Tensor,
    pub num_heads: usize,
    pub head_dim: usize,
}

/// LLaVA vision feed-forward block.
pub struct LLaVAVisionMLP {
    pub fc1: Tensor,
    pub fc2: Tensor,
}

/// A LLaVA vision layer: attention and MLP, each after a layer norm.
pub struct LLaVAVisionLayer {
    pub self_attn: LLaVAVisionAttention,
    pub layer_norm1: Tensor,
    pub mlp: LLaVAVisionMLP,
    pub layer_norm2: Tensor,
    pub eps: F32Bits,
}

/// The LLaVA vision encoder: `vision_num_hidden_layers` layers.
pub struct LLaVAVisionEncoder {
    pub layers: Vec<LLaVAVisionLayer>,
}

/// The LLaVA vision tower: embeddings, encoder and a final norm.
pub struct LLaVAVisionTower {
    pub embeddings: LLaVAVisionEmbeddings,
    pub encoder: LLaVAVisionEncoder,
    pub post_layernorm: Tensor,
    pub config: LLaVAConfig,
}

/// LLaVA language attention: query, key, value and output projections with grouped key-value heads.
pub struct LLaVALanguageAttention {
    pub q_proj: Tensor,
    pub k_proj: Tensor,
    pub v_proj: Tensor,
    pub o_proj: Tensor,
    pub num_heads: usize,
    pub num_key_value_heads: usize,
    pub head_dim: usize,
}

/// LLaVA language gated feed-forward block.
pub struct LLaVALanguageMLP {
    pub gate_proj: Tensor,
    pub up_proj: Tensor,
    pub down_proj: Tensor,
}

/// A LLaVA language layer: attention and MLP, each after an RMS norm.
pub struct LLaVALanguageLayer {
    pub self_attn: LLaVALanguageAttention,
    pub mlp: LLaVALanguageMLP,
    pub input_layernorm: Tensor,
    pub post_attention_layernorm: Tensor,
    pub rms_norm_eps: F32Bits,
}

/// The LLaVA language model: token embeddings, layers, a final norm and the head (the embeddings when tied).
pub struct LLaVALanguageModel {
    pub embed_tokens: Tensor,
    pub layers: Vec<LLaVALanguageLayer>,
    pub norm: Tensor,
    pub lm_head: Tensor,
    pub config: LLaVAConfig,
}

impl LLaVAVisionEmbeddings {
    /// Built for `config`: a patch convolution `[vision_hidden_size, vision_num_channels, patch, patch]` with bias, a class embedding, and position embeddings `[num_patches + 1, vision_hidden_size]`.
    pub closed spec fn built_for(&self, config: LLaVAConfig, device: Device) -> bool {
        let num_positions = ((config.spec_num_patches() + 1) as usize) as usize;
        &&& self.patch_embedding_weight.is_f32(seq![config.vision_hidden_size, config.vision_num_channels, config.vision_patch_size, config.vision_patch_size], device)
        &&& self.patch_embedding_bias.is_f32(seq![config.vision_hidden_size], device)
        &&& self.class_embedding.is_f32(seq![config.vision_hidden_size], device)
        &&& self.position_embedding.is_f32(seq![num_positions, config.vision_hidden_size], device)
    }

    /// `self` is `old` with its weights placed on `device`.
    pub closed spec fn moved_from(&self, old: Self, device: Device) -> bool {
        &&& self.patch_embedding_weight.is_placed(old.patch_embedding_weight, device)
        &&& self.patch_embedding_bias.is_placed(old.patch_embedding_bias, device)
        &&& self.class_embedding.is_placed(old.class_embedding, device)
        &&& self.position_embedding.is_placed(old.position_embedding, device)
        &&& self.config == old.config
    }

    fn new(config: &LLaVAConfig, device: &Device) -> (r: Self)
        requires
            config.vision_patch_size > 0,
            config.spec_num_patches() + 1 <= usize::MAX,
        ensures
            r.built_for(*config, *device),
    {
        let num_positions = config.num_vision_positions();
        let patch_embedding_weight = zeros4(config.vision_hidden_size, config.vision_num_channels, config.vision_patch_size, config.vision_patch_size, device);
        let patch_embedding_bias = zeros1(config.vision_hidden_size, device);
        let class_embedding = zeros1(config.vision_hidden_size, device);
        let position_embedding = zeros2(num_positions, config.vision_hidden_size, device);
        let config = config.clone();
        LLaVAVisionEmbeddings { patch_embedding_weight, patch_embedding_bias, class_embedding, position_embedding, config }
    }

    /// Places the weights on `device`.
    fn to_device(&mut self, device: &Device)
        ensures
            final(self).moved_from(*old(self), *device),
    {
        self.patch_embedding_weight = self.patch_embedding_weight.to_device(device);
        self.patch_embedding_bias = self.patch_embedding_bias.to_device(device);
        self.class_embedding = self.class_embedding.to_device(device);
        self.position_embedding = self.position_embedding.to_device(device);
    }
}

impl LLaVAVisionAttention {
    /// The weights as built for `config` on `device`, all zero.
    pub closed spec fn built_for(&self, config: LLaVAConfig, device: Device) -> bool {
        &&& self.q_proj.is_f32(seq![config.vision_hidden_size, config.vision_hidden_size], device)
        &&& self.k_proj.is_f32(seq![config.vision_hidden_size, config.vision_hidden_size], device)
        &&& self.v_proj.is_f32(seq![config.vision_hidden_size, config.vision_hidden_size], device)
        &&& self.out_proj.is_f32(seq![config.vision_hidden_size, config.vision_hidden_size], device)
        &&& self.num_heads == config.vision_num_attention_heads
        &&& self.head_dim == config.vision_hidden_size / config.vision_num_attention_heads
    }

    /// `self` is `old` with its weights placed on `device`.
    pub closed spec fn moved_from(&self, old: Self, device: Device) -> bool {
        &&& self.q_proj.is_placed(old.q_proj, device)
        &&& self.k_proj.is_placed(old.k_proj, device)
        &&& self.v_proj.is_placed(old.v_proj, device)
        &&& self.out_proj.is_placed(old.out_proj, device)
        &&& self.num_heads == old.num_heads
        &&& self.head_dim == old.head_dim
    }

    fn new(config: &LLaVAConfig, device: &Device) -> (r: Self)
        requires
            config.vision_num_attention_heads > 0,
        ensures
            r.built_for(*config, *device),
    {
        let q_proj = zeros2(config.vision_hidden_size, config.vision_hidden_size, device);
        let k_proj = zeros2(config.vision_hidden_size, config.vision_hidden_size, device);
        let v_proj = zeros2(config.vision_hidden_size, config.vision_hidden_size, device);
        let out_proj = zeros2(config.vision_hidden_size, config.vision_hidden_size, device);
        let num_heads = config.vision_num_attention_heads;
        let head_dim = config.vision_hidden_size / config.vision_num_attention_heads;
        LLaVAVisionAttention { q_proj, k_proj, v_proj, out_proj, num_heads, head_dim }
    }

    /// Places the weights on `device`.
    fn to_device(&mut self, device: &Device)
        ensures
            final(self).moved_from(*old(self), *device),
    {
        self.q_proj = self.q_proj.to_device(device);
        self.k_proj = self.k_proj.to_device(device);
        self.v_proj = self.v_proj.to_device(device);
        self.out_proj = self.out_proj.to_device(device);
    }
}

impl LLaVAVisionMLP {
    /// The weights as built for `config` on `device`, all zero.
    pub closed spec fn built_for(&self, config: LLaVAConfig, device: Device) -> bool {
        &&& self.fc1.is_f32(seq![config.vision_hidden_size, config.vision_intermediate_size], device)
        &&& self.fc2.is_f32(seq![config.vision_intermediate_size, config.vision_hidden_size], device)
    }

    /// `self` is `old` with its weights placed on `device`.
    pub closed spec fn moved_from(&self, old: Self, device: Device) -> bool {
        &&& self.fc1.is_placed(old.fc1, device)
        &&& self.fc2.is_placed(old.fc2, device)
    }

    fn new(config: &LLaVAConfig, device: &Device) -> (r: Self)
        ensures
            r.built_for(*config, *device),
    {
        let fc1 = zeros2(config.vision_hidden_size, config.vision_intermediate_size, device);
        let fc2 = zeros2(config.vision_intermediate_size, config.vision_hidden_size, device);
        LLaVAVisionMLP { fc1, fc2 }
    }

    /// Places the weights on `device`.
    fn to_device(&mut self, device: &Device)
        ensures
            final(self).moved_from(*old(self), *device),
    {
        self.fc1 = self.fc1.to_device(device);
        self.fc2 = self.fc2.to_device(device);
    }
}

impl LLaVAVisionLayer {
    /// The weights as built for `config` on `device`, all zero.
    pub closed spec fn built_for(&self, config: LLaVAConfig, device: Device) -> bool {
        &&& self.self_attn.built_for(config, device)
        &&& self.layer_norm1.is_f32(seq![config.vision_hidden_size], device)
        &&& self.mlp.built_for(config, device)
        &&& self.layer_norm2.is_f32(seq![config.vision_hidden_size], device)
        &&& self.eps == config.vision_layer_norm_eps
    }

    /// `self` is `old` with its weights placed on `device`.
    pub closed spec fn moved_from(&self, old: Self, device: Device) -> bool {
        &&& self.self_attn.moved_from(old.self_attn, device)
        &&& self.layer_norm1.is_placed(old.layer_norm1, device)
        &&& self.mlp.moved_from(old.mlp, device)
        &&& self.layer_norm2.is_placed(old.layer_norm2, device)
        &&& self.eps == old.eps
    }

    fn new(config: &LLaVAConfig, device: &Device) -> (r: Self)
        requires
            config.vision_num_attention_heads > 0,
        ensures
            r.built_for(*config, *device),
    {
        let self_attn = LLaVAVisionAttention::new(config, device);
        let layer_norm1 = zeros1(config.vision_hidden_size, device);
        let mlp = LLaVAVisionMLP::new(config, device);
        let layer_norm2 = zeros1(config.vision_hidden_size, device);
        let eps = config.vision_layer_norm_eps;
        LLaVAVisionLayer { self_attn, layer_norm1, mlp, layer_norm2, eps }
    }

    /// Places the weights on `device`.
    fn to_device(&mut self, device: &Device)
        ensures
            final(self).moved_from(*old(self), *device),
    {
        self.self_attn.to_device(device);
        self.layer_norm1 = self.layer_norm1.to_device(device);
        self.mlp.to_device(device);
        self.layer_norm2 = self.layer_norm2.to_device(device);
    }

    /// The layers, in order, each with its weights placed on `device`.
    fn all_to_device(layers: Vec<LLaVAVisionLayer>, device: &Device) -> (r: Vec<LLaVAVisionLayer>)
        ensures
            r@.len() == layers@.len(),
            forall|k: int| 0 <= k < r@.len() ==> #[trigger] r@[k].moved_from(layers@[k], *device),
    {
        let mut rest = layers;
        let mut moved: Vec<LLaVAVisionLayer> = Vec::new();
        while rest.len() > 0
            invariant
                moved@.len() + rest@.len() == layers@.len(),
                rest@ == layers@.subrange(moved@.len() as int, layers@.len() as int),
                forall|k: int| 0 <= k < moved@.len() ==> #[trigger] moved@[k].moved_from(layers@[k], *device),
            decreases rest@.len(),
        {
            let mut layer = rest.remove(0);
            assert(layer == layers@[moved@.len() as int]);
            layer.to_device(device);
            moved.push(layer);
            assert(rest@ =~= layers@.subrange(moved@.len() as int, layers@.len() as int));
        }
        moved
    }
}

impl LLaVAVisionEncoder {
    /// The weights as built for `config` on `device`, all zero.
    pub closed spec fn built_for(&self, config: LLaVAConfig, device: Device) -> bool {
        &&& self.layers@.len() == config.vision_num_hidden_layers
        &&& forall|k: int| 0 <= k < self.layers@.len() ==> #[trigger] self.layers@[k].built_for(config, device)
    }

    /// `self` is `old` with its weights placed on `device`.
    pub closed spec fn moved_from(&self, old: Self, device: Device) -> bool {
        &&& self.layers@.len() == old.layers@.len()
        &&& forall|k: int| 0 <= k < self.layers@.len() ==> #[trigger] self.layers@[k].moved_from(old.layers@[k], device)
    }

    fn new(config: &LLaVAConfig, device: &Device) -> (r: Self)
        requires
            config.vision_num_attention_heads > 0,
        ensures
            r.built_for(*config, *device),
    {
        let mut layers: Vec<LLaVAVisionLayer> = Vec::new();
        let mut n: usize = 0;
        while n < config.vision_num_hidden_layers
            invariant
                n <= config.vision_num_hidden_layers,
                config.vision_num_attention_heads > 0,
                layers@.len() == n,
                forall|k: int| 0 <= k < n ==> #[trigger] layers@[k].built_for(*config, *device),
            decreases config.vision_num_hidden_layers - n,
        {
            layers.push(LLaVAVisionLayer::new(config, device));
            n += 1;
        }
        LLaVAVisionEncoder { layers }
    }

    /// Places the weights on `device`.
    fn to_device(&mut self, device: &Device)
        ensures
            final(self).moved_from(*old(self), *device),
    {
        let mut taken_layers: Vec<LLaVAVisionLayer> = Vec::new();
        std::mem::swap(&mut taken_layers, &mut self.layers);
        self.layers = LLaVAVisionLayer::all_to_device(taken_layers, device);
    }
}

impl LLaVAVisionTower {
    /// The weights as built for `config` on `device`, all zero.
    pub closed spec fn built_for(&self, config: LLaVAConfig, device: Device) -> bool {
        &&& self.embeddings.built_for(config, device)
        &&& self.encoder.built_for(config, device)
        &&& self.post_layernorm.is_f32(seq![config.vision_hidden_size], device)
    }

    /// `self` is `old` with its weights placed on `device`.
    pub closed spec fn moved_from(&self, old: Self, device: Device) -> bool {
        &&& self.embeddings.moved_from(old.embeddings, device)
        &&& self.encoder.moved_from(old.encoder, device)
        &&& self.post_layernorm.is_placed(old.post_layernorm, device)
        &&& self.config == old.config
    }

    fn new(config: &LLaVAConfig, device: &Device) -> (r: Self)
        requires
            config.vision_num_attention_heads > 0,
            config.vision_patch_size > 0,
            config.spec_num_patches() + 1 <= usize::MAX,
        ensures
            r.built_for(*config, *device),
    {
        let embeddings = LLaVAVisionEmbeddings::new(config, device);
        let encoder = LLaVAVisionEncoder::new(config, device);
        let post_layernorm = zeros1(config.vision_hidden_size, device);
        let config = config.clone();
        LLaVAVisionTower { embeddings, encoder, post_layernorm, config }
    }

    /// Places the weights on `device`.
    fn to_device(&mut self, device: &Device)
        ensures
            final(self).moved_from(*old(self), *device),
    {
        self.embeddings.to_device(device);
        self.encoder.to_device(device);
        self.post_layernorm = self.post_layernorm.to_device(device);
    }
}

impl LLaVALanguageAttention {
    /// The weights as built for `config` on `device`, all zero.
    pub closed spec fn built_for(&self, config: LLaVAConfig, device: Device) -> bool {
        let head_dim = config.hidden_size / config.num_attention_heads;
        &&& self.q_proj.is_f32(seq![config.hidden_size, (config.num_attention_heads * head_dim) as usize], device)
        &&& self.k_proj.is_f32(seq![config.hidden_size, (config.num_key_value_heads * head_dim) as usize], device)
        &&& self.v_proj.is_f32(seq![config.hidden_size, (config.num_key_value_heads * head_dim) as usize], device)
        &&& self.o_proj.is_f32(seq![(config.num_attention_heads * head_dim) as usize, config.hidden_size], device)
        &&& self.num_heads == config.num_attention_heads
        &&& self.num_key_value_heads == config.num_key_value_heads
        &&& self.head_dim == head_dim
    }

    /// `self` is `old` with its weights placed on `device`.
    pub closed spec fn moved_from(&self, old: Self, device: Device) -> bool {
        &&& self.q_proj.is_placed(old.q_proj, device)
        &&& self.k_proj.is_placed(old.k_proj, device)
        &&& self.v_proj.is_placed(old.v_proj, device)
        &&& self.o_proj.is_placed(old.o_proj, device)
        &&& self.num_heads == old.num_heads
        &&& self.num_key_value_heads == old.num_key_value_heads
        &&& self.head_dim == old.head_dim
    }

    fn new(config: &LLaVAConfig, device: &Device) -> (r: Self)
        requires
            config.num_attention_heads > 0,
            config.num_attention_heads * (config.hidden_size / config.num_attention_heads) <= usize::MAX,
            config.num_key_value_heads * (config.hidden_size / config.num_attention_heads) <= usize::MAX,
        ensures
            r.built_for(*config, *device),
    {
        let head_dim = config.hidden_size / config.num_attention_heads;
        let q_proj = zeros2(config.hidden_size, config.num_attention_heads * head_dim, device);
        let k_proj = zeros2(config.hidden_size, config.num_key_value_heads * head_dim, device);
        let v_proj = zeros2(config.hidden_size, config.num_key_value_heads * head_dim, device);
        let o_proj = zeros2(config.num_attention_heads * head_dim, config.hidden_size, device);
        let num_heads = config.num_attention_heads;
        let num_key_value_heads = config.num_key_value_heads;
        LLaVALanguageAttention { q_proj, k_proj, v_proj, o_proj, num_heads, num_key_value_heads, head_dim }
    }

    /// Places the weights on `device`.
    fn to_device(&mut self, device: &Device)
        ensures
            final(self).moved_from(*old(self), *device),
    {
        self.q_proj = self.q_proj.to_device(device);
        self.k_proj = self.k_proj.to_device(device);
        self.v_proj = self.v_proj.to_device(device);
        self.o_proj = self.o_proj.to_device(device);
    }
}

impl LLaVALanguageMLP {
    /// The weights as built for `config` on `device`, all zero.
    pub closed spec fn built_for(&self, config: LLaVAConfig, device: Device) -> bool {
        &&& self.gate_proj.is_f32(seq![config.hidden_size, config.intermediate_size], device)
        &&& self.up_proj.is_f32(seq![config.hidden_size, config.intermediate_size], device)
        &&& self.down_proj.is_f32(seq![config.intermediate_size, config.hidden_size], device)
    }

    /// `self` is `old` with its weights placed on `device`.
    pub closed spec fn moved_from(&self, old: Self, device: Device) -> bool {
        &&& self.gate_proj.is_placed(old.gate_proj, device)
        &&& self.up_proj.is_placed(old.up_proj, device)
        &&& self.down_proj.is_placed(old.down_proj, device)
    }

    fn new(config: &LLaVAConfig, device: &Device) -> (r: Self)
        ensures
            r.built_for(*config, *device),
    {
        let gate_proj = zeros2(config.hidden_size, config.intermediate_size, device);
        let up_proj = zeros2(config.hidden_size, config.intermediate_size, device);
        let down_proj = zeros2(config.intermediate_size, config.hidden_size, device);
        LLaVALanguageMLP { gate_proj, up_proj, down_proj }
    }

    /// Places the weights on `device`.
    fn to_device(&mut self, device: &Device)
        ensures
            final(self).moved_from(*old(self), *device),
    {
        self.gate_proj = self.gate_proj.to_device(device);
        self.up_proj = self.up_proj.to_device(device);
        self.down_proj = self.down_proj.to_device(device);
    }
}

impl LLaVALanguageLayer {
    /// The weights as built for `config` on `device`, all zero.
    pub closed spec fn built_for(&self, config: LLaVAConfig, device: Device) -> bool {
        &&& self.self_attn.built_for(config, device)
        &&& self.mlp.built_for(config, device)
        &&& self.input_layernorm.is_f32(seq![config.hidden_size], device)
        &&& self.post_attention_layernorm.is_f32(seq![config.hidden_size], device)
        &&& self.rms_norm_eps == config.rms_norm_eps
    }

    /// `self` is `old` with its weights placed on `device`.
    pub closed spec fn moved_from(&self, old: Self, device: Device) -> bool {
        &&& self.self_attn.moved_from(old.self_attn, device)
        &&& self.mlp.moved_from(old.mlp, device)
        &&& self.input_layernorm.is_placed(old.input_layernorm, device)
        &&& self.post_attention_layernorm.is_placed(old.post_attention_layernorm, device)
        &&& self.rms_norm_eps == old.rms_norm_eps
    }

    fn new(config: &LLaVAConfig, device: &Device) -> (r: Self)
        requires
            config.num_attention_heads > 0,
            config.num_attention_heads * (config.hidden_size / config.num_attention_heads) <= usize::MAX,
            config.num_key_value_heads * (config.hidden_size / config.num_attention_heads) <= usize::MAX,
        ensures
            r.built_for(*config, *device),
    {
        let self_attn = LLaVALanguageAttention::new(config, device);
        let mlp = LLaVALanguageMLP::new(config, device);
        let input_layernorm = zeros1(config.hidden_size, device);
        let post_attention_layernorm = zeros1(config.hidden_size, device);
        let rms_norm_eps = config.rms_norm_eps;
        LLaVALanguageLayer { self_attn, mlp, input_layernorm, post_attention_layernorm, rms_norm_eps }
    }

    /// Places the weights on `device`.
    fn to_device(&mut self, device: &Device)
        ensures
            final(self).moved_from(*old(self), *device),
    {
        self.self_attn.to_device(device);
        self.mlp.to_device(device);
        self.input_layernorm = self.input_layernorm.to_device(device);
        self.post_attention_layernorm = self.post_attention_layernorm.to_device(device);
    }

    /// The layers, in order, each with its weights placed on `device`.
    fn all_to_device(layers: Vec<LLaVALanguageLayer>, device: &Device) -> (r: Vec<LLaVALanguageLayer>)
        ensures
            r@.len() == layers@.len(),
            forall|k: int| 0 <= k < r@.len() ==> #[trigger] r@[k].moved_from(layers@[k], *device),
    {
        let mut rest = layers;
        let mut moved: Vec<LLaVALanguageLayer> = Vec::new();
        while rest.len() > 0
            invariant
                moved@.len() + rest@.len() == layers@.len(),
                rest@ == layers@.subrange(moved@.len() as int, layers@.len() as int),
                forall|k: int| 0 <= k < moved@.len() ==> #[trigger] moved@[k].moved_from(layers@[k], *device),
            decreases rest@.len(),
        {
            let mut layer = rest.remove(0);
            assert(layer == layers@[moved@.len() as int]);
            layer.to_device(device);
            moved.push(layer);
            assert(rest@ =~= layers@.subrange(moved@.len() as int, layers@.len() as int));
        }
        moved
    }
}

impl LLaVALanguageModel {
    /// Built for `config`: embeddings `[vocab_size, hidden_size]`, `num_hidden_layers` layers, the final norm, and a head that describes the embeddings when `tie_word_embeddings` and is `[hidden_size, vocab_size]` otherwise.
    pub closed spec fn built_for(&self, config: LLaVAConfig, device: Device) -> bool {
        &&& self.embed_tokens.is_f32(seq![config.vocab_size, config.hidden_size], device)
        &&& self.layers@.len() == config.num_hidden_layers
        &&& forall|k: int| 0 <= k < self.layers@.len() ==> #[trigger] self.layers@[k].built_for(config, device)
        &&& self.norm.is_f32(seq![config.hidden_size], device)
        &&& (if config.tie_word_embeddings { self.lm_head.same(self.embed_tokens) } else { self.lm_head.is_f32(seq![config.hidden_size, config.vocab_size], device) })
    }

    /// `self` is `old` with its weights placed on `device`.
    pub closed spec fn moved_from(&self, old: Self, device: Device) -> bool {
        &&& self.embed_tokens.is_placed(old.embed_tokens, device)
        &&& self.layers@.len() == old.layers@.len()
        &&& forall|k: int| 0 <= k < self.layers@.len() ==> #[trigger] self.layers@[k].moved_from(old.layers@[k], device)
        &&& self.norm.is_placed(old.norm, device)
        &&& self.lm_head.is_placed(old.lm_head, device)
        &&& self.config == old.config
    }

    fn new(config: &LLaVAConfig, device: &Device) -> (r: Self)
        requires
            config.num_attention_heads > 0,
            config.num_attention_heads * (config.hidden_size / config.num_attention_heads) <= usize::MAX,
            config.num_key_value_heads * (config.hidden_size / config.num_attention_heads) <= usize::MAX,
        ensures
            r.built_for(*config, *device),
    {
        let embed_tokens = zeros2(config.vocab_size, config.hidden_size, device);
        let mut layers: Vec<LLaVALanguageLayer> = Vec::new();
        let mut n: usize = 0;
        while n < config.num_hidden_layers
            invariant
                n <= config.num_hidden_layers,
                config.num_attention_heads > 0,
                config.num_attention_heads * (config.hidden_size / config.num_attention_heads) <= usize::MAX,
                config.num_key_value_heads * (config.hidden_size / config.num_attention_heads) <= usize::MAX,
                layers@.len() == n,
                forall|k: int| 0 <= k < n ==> #[trigger] layers@[k].built_for(*config, *device),
            decreases config.num_hidden_layers - n,
        {
            layers.push(LLaVALanguageLayer::new(config, device));
            n += 1;
        }
        let norm = zeros1(config.hidden_size, device);
        let lm_head = if config.tie_word_embeddings { embed_tokens.duplicate() } else { zeros2(config.hidden_size, config.vocab_size, device) };
        let config = config.clone();
        LLaVALanguageModel { embed_tokens, layers, norm, lm_head, config }
    }

    /// Places the weights on `device`.
    fn to_device(&mut self, device: &Device)
        ensures
            final(self).moved_from(*old(self), *device),
    {
        self.embed_tokens = self.embed_tokens.to_device(device);
        let mut taken_layers: Vec<LLaVALanguageLayer> = Vec::new();
        std::mem::swap(&mut taken_layers, &mut self.layers);
        self.layers = LLaVALanguageLayer::all_to_device(taken_layers, device);
        self.norm = self.norm.to_device(device);
        self.lm_head = self.lm_head.to_device(device);
    }
}

/// The LLaVA multimodal projector: one linear map, or two with a GELU
/// between them, from the vision width to the text width.
pub struct LLaVAMultiModalProjector {
    pub projector_type: String,
    pub linear: Option<Tensor>,
    pub linear_bias: Option<Tensor>,
    pub mlp_fc1: Option<Tensor>,
    pub mlp_fc1_bias: Option<Tensor>,
    pub mlp_fc2: Option<Tensor>,
    pub mlp_fc2_bias: Option<Tensor>,
}

/// The projector kinds that LLaVA knows.
pub open spec fn known_projector(kind: Seq<char>) -> bool {
    kind == "linear"@ || kind == "mlp2x_gelu"@
}

/// The message of the error for an unknown projector kind.
pub open spec fn unknown_projector_message(kind: Seq<char>) -> Seq<char> {
    "Unsupported projector type: "@ + kind
}

/// `t` is present and is a zero 32-bit float tensor of `shape` on `device`.
pub open spec fn some_f32(t: Option<Tensor>, shape: Seq<usize>, device: Device) -> bool {
    t matches Some(x) && x.is_f32(shape, device)
}

/// `t` is `old` placed on `device`, both present or both absent.
pub open spec fn option_placed(t: Option<Tensor>, old: Option<Tensor>, device: Device) -> bool {
    match (t, old) {
        (Some(a), Some(b)) => a.is_placed(b, device),
        (None, None) => true,
        _ => false,
    }
}

fn option_to_device(t: &Option<Tensor>, device: &Device) -> (r: Option<Tensor>)
    ensures
        option_placed(r, *t, *device),
{
    match t {
        Some(x) => Some(x.to_device(device)),
        None => None,
    }
}

impl LLaVAMultiModalProjector {
    /// The projector for `config`: for `"linear"` a map `[vision_hidden_size,
    /// hidden_size]` with bias; for `"mlp2x_gelu"` maps `[vision_hidden_size,
    /// hidden_size]` and `[hidden_size, hidden_size]` with biases; the weights
    /// of the other kind absent.
    pub closed spec fn built_for(&self, config: LLaVAConfig, device: Device) -> bool {
        let vh = config.vision_hidden_size;
        let th = config.hidden_size;
        &&& self.projector_type@ == config.mm_projector_type@
        &&& (if config.mm_projector_type@ == "linear"@ {
            &&& some_f32(self.linear, seq![vh, th], device)
            &&& some_f32(self.linear_bias, seq![th], device)
            &&& self.mlp_fc1 is None && self.mlp_fc1_bias is None
            &&& self.mlp_fc2 is None && self.mlp_fc2_bias is None
        } else {
            &&& self.linear is None && self.linear_bias is None
            &&& some_f32(self.mlp_fc1, seq![vh, th], device)
            &&& some_f32(self.mlp_fc1_bias, seq![th], device)
            &&& some_f32(self.mlp_fc2, seq![th, th], device)
            &&& some_f32(self.mlp_fc2_bias, seq![th], device)
        })
    }

    /// `self` is `old` with its weights placed on `device`.
    pub closed spec fn moved_from(&self, old: Self, device: Device) -> bool {
        &&& self.projector_type == old.projector_type
        &&& option_placed(self.linear, old.linear, device)
        &&& option_placed(self.linear_bias, old.linear_bias, device)
        &&& option_placed(self.mlp_fc1, old.mlp_fc1, device)
        &&& option_placed(self.mlp_fc1_bias, old.mlp_fc1_bias, device)
        &&& option_placed(self.mlp_fc2, old.mlp_fc2, device)
        &&& option_placed(self.mlp_fc2_bias, old.mlp_fc2_bias, device)
    }

    /// The projector named by `mm_projector_type`, or an error naming it when
    /// it is neither `"linear"` nor `"mlp2x_gelu"`.
    fn new(config: &LLaVAConfig, device: &Device) -> (r: Result<Self, ModelError>)
        ensures
            known_projector(config.mm_projector_type@) ==> (r matches Ok(p) && p.built_for(*config, *device)),
            !known_projector(config.mm_projector_type@) ==> (r matches Err(ModelError::InvalidConfig(m))
                && m@ == unknown_projector_message(config.mm_projector_type@)),
    {
        let vision_hidden = config.vision_hidden_size;
        let text_hidden = config.hidden_size;
        let linear = String::from_str("linear");
        let mlp = String::from_str("mlp2x_gelu");
        if config.mm_projector_type == linear {
            Ok(LLaVAMultiModalProjector {
                projector_type: linear,
                linear: Some(zeros2(vision_hidden, text_hidden, device)),
                linear_bias: Some(zeros1(text_hidden, device)),
                mlp_fc1: None,
                mlp_fc1_bias: None,
                mlp_fc2: None,
                mlp_fc2_bias: None,
            })
        } else if config.mm_projector_type == mlp {
            Ok(LLaVAMultiModalProjector {
                projector_type: mlp,
                linear: None,
                linear_bias: None,
                mlp_fc1: Some(zeros2(vision_hidden, text_hidden, device)),
                mlp_fc1_bias: Some(zeros1(text_hidden, device)),
                mlp_fc2: Some(zeros2(text_hidden, text_hidden, device)),
                mlp_fc2_bias: Some(zeros1(text_hidden, device)),
            })
        } else {
            let mut message = String::from_str("Unsupported projector type: ");
            message.append(config.mm_projector_type.as_str());
            Err(ModelError::InvalidConfig(message))
        }
    }

    /// Places the weights on `device`.
    fn to_device(&mut self, device: &Device)
        ensures
            final(self).moved_from(*old(self), *device),
    {
        self.linear = option_to_device(&self.linear, device);
        self.linear_bias = option_to_device(&self.linear_bias, device);
        self.mlp_fc1 = option_to_device(&self.mlp_fc1, device);
        self.mlp_fc1_bias = option_to_device(&self.mlp_fc1_bias, device);
        self.mlp_fc2 = option_to_device(&self.mlp_fc2, device);
        self.mlp_fc2_bias = option_to_device(&self.mlp_fc2_bias, device);
    }
}

/// The complete LLaVA model: vision tower, multimodal projector and language
/// model.
pub struct LLaVAModelV2 {
    pub config: LLaVAConfig,
    pub device: Device,
    pub vision_tower: LLaVAVisionTower,
    pub mm_projector: LLaVAMultiModalProjector,
    pub language_model: LLaVALanguageModel,
}

/// The model for `config` builds without overflow or division by zero.
pub open spec fn llava_dims_fit(config: LLaVAConfig) -> bool {
    &&& config.vision_num_attention_heads > 0
    &&& config.vision_patch_size > 0
    &&& config.spec_num_patches() + 1 <= usize::MAX
    &&& config.num_attention_heads > 0
    &&& config.num_attention_heads * (config.hidden_size / config.num_attention_heads) <= usize::MAX
    &&& config.num_key_value_heads * (config.hidden_size / config.num_attention_heads) <= usize::MAX
}

impl LLaVAModelV2 {
    /// The configuration the model was built with.
    pub closed spec fn spec_config(&self) -> LLaVAConfig {
        self.config
    }

    /// The device the model reports.
    pub closed spec fn spec_device(&self) -> Device {
        self.device
    }

    /// The vision tower, projector and language model as built for `config`
    /// on `device`.
    pub closed spec fn built_for(&self, config: LLaVAConfig, device: Device) -> bool {
        &&& self.vision_tower.built_for(config, device)
        &&& self.mm_projector.built_for(config, device)
        &&& self.language_model.built_for(config, device)
    }

    /// `self` is `old` with every weight placed on `device` and `device`
    /// recorded.
    pub closed spec fn moved_from(&self, old: Self, device: Device) -> bool {
        &&& self.config == old.config
        &&& self.device == device
        &&& self.vision_tower.moved_from(old.vision_tower, device)
        &&& self.mm_projector.moved_from(old.mm_projector, device)
        &&& self.language_model.moved_from(old.language_model, device)
    }

    /// Builds the model for `config` on the CPU, with zero weights; an error
    /// when the projector kind is unknown.
    pub fn new(config: LLaVAConfig) -> (r: Result<Self, ModelError>)
        requires
            llava_dims_fit(config),
        ensures
            known_projector(config.mm_projector_type@) ==> (r matches Ok(m) && m.spec_config() == config
                && m.spec_device() == Device::CPU && m.built_for(config, Device::CPU)),
            !known_projector(config.mm_projector_type@) ==> (r matches Err(ModelError::InvalidConfig(msg))
                && msg@ == unknown_projector_message(config.mm_projector_type@)),
    {
        let device = Device::CPU;
        let vision_tower = LLaVAVisionTower::new(&config, &device);
        let mm_projector = match LLaVAMultiModalProjector::new(&config, &device) {
            Ok(p) => p,
            Err(e) => return Err(e),
        };
        let language_model = LLaVALanguageModel::new(&config, &device);
        Ok(LLaVAModelV2 { config, device, vision_tower, mm_projector, language_model })
    }

    /// The configuration the model was built with.
    pub fn config(&self) -> (r: &LLaVAConfig)
        ensures
            *r == self.spec_config(),
    {
        &self.config
    }

    /// Places every weight on `device` and records the device.
    pub fn to_device(&mut self, device: &Device) -> (r: Result<(), ModelError>)
        ensures
            r is Ok,
            final(self).moved_from(*old(self), *device),
    {
        self.vision_tower.to_device(device);
        self.mm_projector.to_device(device);
        self.language_model.to_device(device);
        self.device = *device;
        Ok(())
    }
}
/// Parameters of the language model: embeddings, four attention and three MLP matrices per layer.
pub open spec fn llava_language_params(c: LLaVAConfig) -> int {
    c.vocab_size * c.hidden_size + c.num_hidden_layers * (4 * c.hidden_size * c.hidden_size + 3 * c.hidden_size * c.intermediate_size)
}

/// Parameters of the vision layers: four attention and two MLP matrices per layer.
pub open spec fn llava_vision_params(c: LLaVAConfig) -> int {
    c.vision_num_hidden_layers * (4 * c.vision_hidden_size * c.vision_hidden_size + 2 * c.vision_hidden_size * c.vision_intermediate_size)
}

/// Parameters of the projector.
pub open spec fn llava_projector_params(c: LLaVAConfig) -> int {
    c.vision_hidden_size * c.hidden_size * 2
}

/// All parameters counted by the estimate.
pub open spec fn llava_total_params(c: LLaVAConfig) -> int {
    llava_language_params(c) + llava_vision_params(c) + llava_projector_params(c)
}

/// Parameter bytes: four per parameter.
pub open spec fn llava_param_bytes(c: LLaVAConfig) -> int {
    llava_total_params(c) * 4
}

/// Bytes of the key and value caches at full context.
pub open spec fn llava_kv_cache_bytes(c: LLaVAConfig) -> int {
    2 * c.num_hidden_layers * c.max_position_embeddings * c.hidden_size * 4
}

/// No step of the memory estimate for `LLaVAConfig` leaves the range of `usize`
/// or divides by zero.
pub open spec fn llava_memory_fits(c: LLaVAConfig) -> bool {
    &&& c.vocab_size * c.hidden_size <= usize::MAX
    &&& 4 * c.hidden_size <= usize::MAX
    &&& 4 * c.hidden_size * c.hidden_size <= usize::MAX
    &&& 3 * c.hidden_size <= usize::MAX
    &&& 3 * c.hidden_size * c.intermediate_size <= usize::MAX
    &&& 4 * c.hidden_size * c.hidden_size + 3 * c.hidden_size * c.intermediate_size <= usize::MAX
    &&& c.num_hidden_layers * (4 * c.hidden_size * c.hidden_size + 3 * c.hidden_size * c.intermediate_size) <= usize::MAX
    &&& c.vocab_size * c.hidden_size + c.num_hidden_layers * (4 * c.hidden_size * c.hidden_size + 3 * c.hidden_size * c.intermediate_size) <= usize::MAX
    &&& 4 * c.vision_hidden_size <= usize::MAX
    &&& 4 * c.vision_hidden_size * c.vision_hidden_size <= usize::MAX
    &&& 2 * c.vision_hidden_size <= usize::MAX
    &&& 2 * c.vision_hidden_size * c.vision_intermediate_size <= usize::MAX
    &&& 4 * c.vision_hidden_size * c.vision_hidden_size + 2 * c.vision_hidden_size * c.vision_intermediate_size <= usize::MAX
    &&& c.vision_num_hidden_layers * (4 * c.vision_hidden_size * c.vision_hidden_size + 2 * c.vision_hidden_size * c.vision_intermediate_size) <= usize::MAX
    &&& c.vision_hidden_size * c.hidden_size <= usize::MAX
    &&& c.vision_hidden_size * c.hidden_size * 2 <= usize::MAX
    &&& c.vocab_size * c.hidden_size + c.num_hidden_layers * (4 * c.hidden_size * c.hidden_size + 3 * c.hidden_size * c.intermediate_size) + c.vision_num_hidden_layers * (4 * c.vision_hidden_size * c.vision_hidden_size + 2 * c.vision_hidden_size * c.vision_intermediate_size) <= usize::MAX
    &&& c.vocab_size * c.hidden_size + c.num_hidden_layers * (4 * c.hidden_size * c.hidden_size + 3 * c.hidden_size * c.intermediate_size) + c.vision_num_hidden_layers * (4 * c.vision_hidden_size * c.vision_hidden_size + 2 * c.vision_hidden_size * c.vision_intermediate_size) + c.vision_hidden_size * c.hidden_size * 2 <= usize::MAX
    &&& (c.vocab_size * c.hidden_size + c.num_hidden_layers * (4 * c.hidden_size * c.hidden_size + 3 * c.hidden_size * c.intermediate_size) + c.vision_num_hidden_layers * (4 * c.vision_hidden_size * c.vision_hidden_size + 2 * c.vision_hidden_size * c.vision_intermediate_size) + c.vision_hidden_size * c.hidden_size * 2) * 4 <= usize::MAX
    &&& 2 * c.num_hidden_layers <= usize::MAX
    &&& 2 * c.num_hidden_layers * c.max_position_embeddings <= usize::MAX
    &&& 2 * c.num_hidden_layers * c.max_position_embeddings * c.hidden_size <= usize::MAX
    &&& 2 * c.num_hidden_layers * c.max_position_embeddings * c.hidden_size * 4 <= usize::MAX
    &&& (c.vocab_size * c.hidden_size + c.num_hidden_layers * (4 * c.hidden_size * c.hidden_size + 3 * c.hidden_size * c.intermediate_size) + c.vision_num_hidden_layers * (4 * c.vision_hidden_size * c.vision_hidden_size + 2 * c.vision_hidden_size * c.vision_intermediate_size) + c.vision_hidden_size * c.hidden_size * 2) * 4 + 2 * c.num_hidden_layers * c.max_position_embeddings * c.hidden_size * 4 <= usize::MAX
}

impl LLaVAModelV2 {
    /// Estimated memory: the parameter bytes on the GPU, a quarter of them on the CPU, the full key-value cache, and parameters plus cache at peak.
    pub fn memory_requirements(&self) -> (r: MemoryRequirements)
        requires
            llava_memory_fits(self.spec_config()),
        ensures
            r.gpu_memory == llava_param_bytes(self.spec_config()),
            r.cpu_memory == llava_param_bytes(self.spec_config()) / 4,
            r.kv_cache_memory == llava_kv_cache_bytes(self.spec_config()),
            r.peak_memory == llava_param_bytes(self.spec_config()) + llava_kv_cache_bytes(self.spec_config()),
    {
        let c = &self.config;
        let language_params = c.vocab_size * c.hidden_size + c.num_hidden_layers * (4 * c.hidden_size * c.hidden_size + 3 * c.hidden_size * c.intermediate_size);
        let vision_params = c.vision_num_hidden_layers * (4 * c.vision_hidden_size * c.vision_hidden_size + 2 * c.vision_hidden_size * c.vision_intermediate_size);
        let projector_params = c.vision_hidden_size * c.hidden_size * 2;
        let total_params = language_params + vision_params + projector_params;
        let param_bytes = total_params * 4;
        let kv_cache_bytes = 2 * c.num_hidden_layers * c.max_position_embeddings * c.hidden_size * 4;
        MemoryRequirements {
            gpu_memory: param_bytes,
            cpu_memory: param_bytes / 4,
            kv_cache_memory: kv_cache_bytes,
            peak_memory: param_bytes + kv_cache_bytes,
        }
    }
}

/// One piece of the merged multimodal sequence.
#[derive(Clone, Copy, Debug, PartialEq, Eq, Structural)]
pub enum MergeSegment {
    /// The text embeddings at positions `start .. start + len`.
    Text { start: usize, len: usize },
    /// All the image features.
    Image,
}

/// `p` is the first position of `token` in `ids`.
pub open spec fn is_first_position(ids: Seq<i64>, token: i64, p: int) -> bool {
    &&& 0 <= p < ids.len()
    &&& ids[p] == token
    &&& forall|j: int| 0 <= j < p ==> ids[j] != token
}

/// The merge of text of `text_seq_len` positions with the image features,
/// given where the image token first occurs in the flattened ids: with no
/// image token, the image comes first and the whole text after it;
/// otherwise, with `p` that position modulo the text length, the image takes
/// the place of text position `p`: first when `p` is 0, last when `p` is the
/// last position, and in between otherwise.
pub open spec fn merge_plan(first: Option<int>, text_seq_len: int) -> Seq<MergeSegment> {
    match first {
        None => seq![MergeSegment::Image, MergeSegment::Text { start: 0, len: text_seq_len as usize }],
        Some(q) => {
            let p = q % text_seq_len;
            if p == 0 {
                seq![MergeSegment::Image, MergeSegment::Text { start: 1, len: (text_seq_len - 1) as usize }]
            } else if p >= text_seq_len - 1 {
                seq![MergeSegment::Text { start: 0, len: (text_seq_len - 1) as usize }, MergeSegment::Image]
            } else {
                seq![
                    MergeSegment::Text { start: 0, len: p as usize },
                    MergeSegment::Image,
                    MergeSegment::Text { start: (p + 1) as usize, len: (text_seq_len - p - 1) as usize },
                ]
            }
        },
    }
}

/// The first position of `token` in `ids`, if any.
pub fn first_position(ids: &[i64], token: i64) -> (r: Option<usize>)
    ensures
        match r {
            Some(p) => is_first_position(ids@, token, p as int),
            None => forall|j: int| 0 <= j < ids@.len() ==> ids@[j] != token,
        },
{
    let mut i: usize = 0;
    while i < ids.len()
        invariant
            i <= ids@.len(),
            forall|j: int| 0 <= j < i ==> ids@[j] != token,
        decreases ids.len() - i,
    {
        if ids[i] == token {
            return Some(i);
        }
        i += 1;
    }
    None
}

/// Plans how text embeddings of `text_seq_len` positions and the image
/// features are merged, from the flattened ids of the text: the first
/// occurrence of `image_token_id` decides where the image goes, as
/// `merge_plan` says.
pub fn plan_multimodal_merge(input_ids: &[i64], image_token_id: i64, text_seq_len: usize) -> (r: Vec<MergeSegment>)
    requires
        text_seq_len > 0 || forall|j: int| 0 <= j < input_ids@.len() ==> input_ids@[j] != image_token_id,
    ensures
        (exists|p: int| is_first_position(input_ids@, image_token_id, p))
            ==> r@ == merge_plan(Some(choose|p: int| is_first_position(input_ids@, image_token_id, p)), text_seq_len as int),
        (forall|j: int| 0 <= j < input_ids@.len() ==> input_ids@[j] != image_token_id)
            ==> r@ == merge_plan(None, text_seq_len as int),
{
    let found = first_position(input_ids, image_token_id);
    let mut plan: Vec<MergeSegment> = Vec::new();
    match found {
        None => {
            plan.push(MergeSegment::Image);
            plan.push(MergeSegment::Text { start: 0, len: text_seq_len });
            proof {
                if exists|p: int| is_first_position(input_ids@, image_token_id, p) {
                    let p = choose|p: int| is_first_position(input_ids@, image_token_id, p);
                    assert(input_ids@[p] != image_token_id);
                }
            }
        },
        Some(q) => {
            proof {
                let c = choose|p: int| is_first_position(input_ids@, image_token_id, p);
                assert(is_first_position(input_ids@, image_token_id, q as int));
                if c < q {
                    assert(input_ids@[c] != image_token_id);
                } else if q < c {
                    assert(input_ids@[q as int] != image_token_id);
                }
                assert(c == q);
            }
            let p = q % text_seq_len;
            if p == 0 {
                plan.push(MergeSegment::Image);
                plan.push(MergeSegment::Text { start: 1, len: text_seq_len - 1 });
            } else if p >= text_seq_len - 1 {
                plan.push(MergeSegment::Text { start: 0, len: text_seq_len - 1 });
                plan.push(MergeSegment::Image);
            } else {
                plan.push(MergeSegment::Text { start: 0, len: p });
                plan.push(MergeSegment::Image);
                plan.push(MergeSegment::Text { start: p + 1, len: text_seq_len - p - 1 });
            }
        },
    }
    assert(plan@ =~= merge_plan(
        match found { Some(q) => Some(q as int), None => None },
        text_seq_len as int,
    ));
    plan
}

/// The text positions one segment takes, in order.
pub open spec fn segment_positions(segment: MergeSegment) -> Seq<int> {
    match segment {
        MergeSegment::Text { start, len } => Seq::new(len as nat, |i: int| start + i),
        MergeSegment::Image => Seq::empty(),
    }
}

/// The text positions a plan takes, in order.
pub open spec fn text_positions(plan: Seq<MergeSegment>) -> Seq<int>
    decreases plan.len(),
{
    if plan.len() == 0 {
        Seq::empty()
    } else {
        segment_positions(plan[0]) + text_positions(plan.drop_first())
    }
}

/// How many times a plan takes the image features.
pub open spec fn image_count(plan: Seq<MergeSegment>) -> nat
    decreases plan.len(),
{
    if plan.len() == 0 {
        0
    } else {
        (if plan[0] is Image { 1nat } else { 0nat }) + image_count(plan.drop_first())
    }
}

/// The positions `0 .. n` in order.
pub open spec fn positions(n: int) -> Seq<int> {
    Seq::new(n as nat, |i: int| i)
}

proof fn lemma_plan_of_one(a: MergeSegment)
    ensures
        text_positions(seq![a]) == segment_positions(a),
        image_count(seq![a]) == (if a is Image { 1nat } else { 0nat }),
{
    assert(seq![a].drop_first() =~= Seq::<MergeSegment>::empty());
    assert(text_positions(Seq::<MergeSegment>::empty()) == Seq::<int>::empty());
    assert(image_count(Seq::<MergeSegment>::empty()) == 0);
    assert(segment_positions(a) + Seq::<int>::empty() =~= segment_positions(a));
}

proof fn lemma_plan_of_two(a: MergeSegment, b: MergeSegment)
    ensures
        text_positions(seq![a, b]) == segment_positions(a) + segment_positions(b),
        image_count(seq![a, b]) == (if a is Image { 1nat } else { 0nat }) + (if b is Image { 1nat } else { 0nat }),
{
    assert(seq![a, b].drop_first() =~= seq![b]);
    lemma_plan_of_one(b);
}

proof fn lemma_plan_of_three(a: MergeSegment, b: MergeSegment, c: MergeSegment)
    ensures
        text_positions(seq![a, b, c]) == segment_positions(a) + segment_positions(b) + segment_positions(c),
        image_count(seq![a, b, c]) == (if a is Image { 1nat } else { 0nat }) + (if b is Image { 1nat } else { 0nat })
            + (if c is Image { 1nat } else { 0nat }),
{
    assert(seq![a, b, c].drop_first() =~= seq![b, c]);
    lemma_plan_of_two(b, c);
    assert(segment_positions(a) + (segment_positions(b) + segment_positions(c))
        =~= segment_positions(a) + segment_positions(b) + segment_positions(c));
}

/// A merge keeps the image exactly once and every text position in order:
/// all of them when the ids hold no image token, and all but the image
/// token's position otherwise.
pub proof fn lemma_merge_keeps_text_in_order(first: Option<int>, text_seq_len: int)
    requires
        0 < text_seq_len <= usize::MAX,
        first matches Some(q) ==> q >= 0,
    ensures
        image_count(merge_plan(first, text_seq_len)) == 1,
        first is None ==> text_positions(merge_plan(first, text_seq_len)) == positions(text_seq_len),
        first matches Some(q) ==> text_positions(merge_plan(first, text_seq_len))
            == positions(text_seq_len).remove(q % text_seq_len),
{
    let n = text_seq_len;
    match first {
        None => {
            let t = MergeSegment::Text { start: 0, len: n as usize };
            lemma_plan_of_two(MergeSegment::Image, t);
            assert(segment_positions(MergeSegment::Image) + segment_positions(t) =~= positions(n));
        },
        Some(q) => {
            let p = q % n;
            if p == 0 {
                let t = MergeSegment::Text { start: 1, len: (n - 1) as usize };
                lemma_plan_of_two(MergeSegment::Image, t);
                assert(segment_positions(MergeSegment::Image) + segment_positions(t) =~= positions(n).remove(p));
            } else if p >= n - 1 {
                let t = MergeSegment::Text { start: 0, len: (n - 1) as usize };
                lemma_plan_of_two(t, MergeSegment::Image);
                assert(segment_positions(t) + segment_positions(MergeSegment::Image) =~= positions(n).remove(p));
            } else {
                let t1 = MergeSegment::Text { start: 0, len: p as usize };
                let t2 = MergeSegment::Text { start: (p + 1) as usize, len: (n - p - 1) as usize };
                lemma_plan_of_three(t1, MergeSegment::Image, t2);
                assert(segment_positions(t1) + segment_positions(MergeSegment::Image) + segment_positions(t2)
                    =~= positions(n).remove(p));
            }
        },
    }
}

impl LLaVAConfig {
    /// How many vision layers run before features are taken, for an encoder
    /// of `vision_num_hidden_layers` layers: with `t` the selected layer
    /// (counted from the end when negative), layers `0 ..= t` when `t` is a
    /// layer, and all of them otherwise.
    pub open spec fn spec_vision_layers_run(&self) -> int {
        let n = self.vision_num_hidden_layers as int;
        let t = if self.mm_vision_select_layer < 0 { n + self.mm_vision_select_layer } else {
            self.mm_vision_select_layer as int
        };
        if 0 <= t < n { t + 1 } else { n }
    }

    /// How many vision layers run before features are taken.
    pub fn vision_layers_run(&self) -> (r: usize)
        requires
            self.vision_num_hidden_layers <= i32::MAX,
        ensures
            r == self.spec_vision_layers_run(),
    {
        let n = self.vision_num_hidden_layers;
        let sel = self.mm_vision_select_layer;
        if sel < 0 {
            let t: i32 = n as i32 + sel;
            if t < 0 {
                n
            } else {
                t as usize + 1
            }
        } else {
            let t = sel as usize;
            if t < n { t + 1 } else { n }
        }
    }

    /// The vision features kept from a sequence of `seq_len` positions, as
    /// the first position and the count: for `"patch"` all but the leading
    /// class position, otherwise all of them.
    pub fn selected_features(&self, seq_len: usize) -> (r: (usize, usize))
        requires
            self.mm_vision_select_feature@ == "patch"@ ==> seq_len >= 1,
        ensures
            self.mm_vision_select_feature@ == "patch"@ ==> r == (1usize, (seq_len - 1) as usize),
            self.mm_vision_select_feature@ != "patch"@ ==> r == (0usize, seq_len),
    {
        let patch = String::from_str("patch");
        if self.mm_vision_select_feature == patch {
            (1, seq_len - 1)
        } else {
            (0, seq_len)
        }
    }
}

impl LLaVAModelV2 {
    /// Plans the merge of text embeddings of `text_seq_len` positions with the
    /// image features for these ids, at the model's image patch token.
    pub fn merge_plan(&self, input_ids: &[i64], text_seq_len: usize) -> (r: Vec<MergeSegment>)
        requires
            text_seq_len > 0 || forall|j: int| 0 <= j < input_ids@.len() ==> input_ids@[j]
                != self.spec_config().im_patch_token,
        ensures
            (exists|p: int| is_first_position(input_ids@, self.spec_config().im_patch_token, p)) ==> r@
                == merge_plan(
                Some(choose|p: int| is_first_position(input_ids@, self.spec_config().im_patch_token, p)),
                text_seq_len as int,
            ),
            (forall|j: int| 0 <= j < input_ids@.len() ==> input_ids@[j] != self.spec_config().im_patch_token)
                ==> r@ == merge_plan(None, text_seq_len as int),
    {
        plan_multimodal_merge(input_ids, self.config.im_patch_token, text_seq_len)
    }
}

impl LLaVAModelV2 {
    /// `self` is `old` after loading from `weights`: each weight whose
    /// checkpoint name `weights` holds takes that tensor's shape, element
    /// type, device and elements (as is, or transposed for a matrix product),
    /// and nothing else changes.
    pub closed spec fn loaded(&self, old: Self, weights: ModelWeights) -> bool {
        &&& self.config == old.config
        &&& self.device == old.device
        &&& self.vision_tower.loaded(old.vision_tower, weights)
        &&& self.mm_projector.loaded(old.mm_projector, weights)
        &&& self.language_model.loaded(old.language_model, weights)
    }

    /// Every tensor that loading from `weights` would transpose has at least
    /// two dimensions.
    pub closed spec fn loadable(&self, weights: ModelWeights) -> bool {
        &&& self.vision_tower.loadable(weights)
        &&& self.mm_projector.loadable(weights)
        &&& self.language_model.loadable(weights)
    }

    /// Loads the weights of `weights` that this part names.
    fn load_weights(&mut self, weights: &ModelWeights) -> (r: Result<(), ModelError>)
        ensures
            r is Ok <==> old(self).loadable(*weights),
            r is Ok ==> final(self).loaded(*old(self), *weights),
            r matches Err(e) ==> is_transpose_error(e),
    {
        self.vision_tower.load_weights(weights)?;
        self.mm_projector.load_weights(weights)?;
        self.language_model.load_weights(weights)?;
        Ok(())
    }
}

impl LLaVAVisionTower {
    /// `self` is `old` after loading from `weights`: each weight whose
    /// checkpoint name `weights` holds takes that tensor's shape, element
    /// type, device and elements (as is, or transposed for a matrix product),
    /// and nothing else changes.
    pub closed spec fn loaded(&self, old: Self, weights: ModelWeights) -> bool {
        &&& self.embeddings.loaded(old.embeddings, weights, "vision_tower.vision_model.embeddings"@)
        &&& self.encoder.loaded(old.encoder, weights, "vision_tower.vision_model.encoder"@)
        &&& copied(self.post_layernorm, old.post_layernorm, weights.lookup("vision_tower.vision_model.post_layernorm.weight"@))
        &&& self.config == old.config
    }

    /// Every tensor that loading from `weights` would transpose has at least
    /// two dimensions.
    pub closed spec fn loadable(&self, weights: ModelWeights) -> bool {
        &&& self.embeddings.loadable(weights, "vision_tower.vision_model.embeddings"@)
        &&& self.encoder.loadable(weights, "vision_tower.vision_model.encoder"@)
    }

    /// Loads the weights of `weights` that this part names.
    fn load_weights(&mut self, weights: &ModelWeights) -> (r: Result<(), ModelError>)
        ensures
            r is Ok <==> old(self).loadable(*weights),
            r is Ok ==> final(self).loaded(*old(self), *weights),
            r matches Err(e) ==> is_transpose_error(e),
    {
        self.embeddings.load_weights(weights, "vision_tower.vision_model.embeddings")?;
        self.encoder.load_weights(weights, "vision_tower.vision_model.encoder")?;
        load_copy(&mut self.post_layernorm, weights, "vision_tower.vision_model.post_layernorm.weight");
        Ok(())
    }
}

impl LLaVAVisionEmbeddings {
    /// `self` is `old` after loading from `weights`: each weight whose
    /// checkpoint name `weights` holds takes that tensor's shape, element
    /// type, device and elements (as is, or transposed for a matrix product),
    /// and nothing else changes.
    pub closed spec fn loaded(&self, old: Self, weights: ModelWeights, prefix: Seq<char>) -> bool {
        &&& copied(self.patch_embedding_weight, old.patch_embedding_weight, weights.lookup(joined(prefix, ".patch_embedding.weight"@)))
        &&& copied(self.patch_embedding_bias, old.patch_embedding_bias, weights.lookup(joined(prefix, ".patch_embedding.bias"@)))
        &&& copied(self.class_embedding, old.class_embedding, weights.lookup(joined(prefix, ".class_embedding"@)))
        &&& copied(self.position_embedding, old.position_embedding, weights.lookup(joined(prefix, ".position_embedding.weight"@)))
        &&& self.config == old.config
    }

    /// Every tensor that loading from `weights` would transpose has at least
    /// two dimensions.
    pub closed spec fn loadable(&self, weights: ModelWeights, prefix: Seq<char>) -> bool {
        true
    }

    /// Loads the weights of `weights` that this part names.
    fn load_weights(&mut self, weights: &ModelWeights, prefix: &str) -> (r: Result<(), ModelError>)
        ensures
            r is Ok <==> old(self).loadable(*weights, prefix@),
            r is Ok ==> final(self).loaded(*old(self), *weights, prefix@),
            r matches Err(e) ==> is_transpose_error(e),
    {
        load_copy(&mut self.patch_embedding_weight, weights, joined_name(prefix, ".patch_embedding.weight").as_str());
        load_copy(&mut self.patch_embedding_bias, weights, joined_name(prefix, ".patch_embedding.bias").as_str());
        load_copy(&mut self.class_embedding, weights, joined_name(prefix, ".class_embedding").as_str());
        load_copy(&mut self.position_embedding, weights, joined_name(prefix, ".position_embedding.weight").as_str());
        Ok(())
    }
}

impl LLaVAVisionEncoder {
    /// `self` is `old` after loading from `weights`: each weight whose
    /// checkpoint name `weights` holds takes that tensor's shape, element
    /// type, device and elements (as is, or transposed for a matrix product),
    /// and nothing else changes.
    pub closed spec fn loaded(&self, old: Self, weights: ModelWeights, prefix: Seq<char>) -> bool {
        &&& self.layers@.len() == old.layers@.len()
        &&& forall|k: int| 0 <= k < old.layers@.len() ==> #[trigger] self.layers@[k].loaded(old.layers@[k], weights, indexed(joined(prefix, ".layers."@), k, ""@))
    }

    /// Every tensor that loading from `weights` would transpose has at least
    /// two dimensions.
    pub closed spec fn loadable(&self, weights: ModelWeights, prefix: Seq<char>) -> bool {
        &&& forall|k: int| 0 <= k < self.layers@.len() ==> #[trigger] self.layers@[k].loadable(weights, indexed(joined(prefix, ".layers."@), k, ""@))
    }

    /// Loads the weights of `weights` that this part names.
    fn load_weights(&mut self, weights: &ModelWeights, prefix: &str) -> (r: Result<(), ModelError>)
        ensures
            r is Ok <==> old(self).loadable(*weights, prefix@),
            r is Ok ==> final(self).loaded(*old(self), *weights, prefix@),
            r matches Err(e) ==> is_transpose_error(e),
    {
        let mut taken_layers: Vec<LLaVAVisionLayer> = Vec::new();
        std::mem::swap(&mut taken_layers, &mut self.layers);
        self.layers = Self::load_layers(taken_layers, weights, prefix)?;
        Ok(())
    }

    /// Loads each of `items`, in order, from `weights`.
    fn load_layers(items: Vec<LLaVAVisionLayer>, weights: &ModelWeights, prefix: &str) -> (r: Result<Vec<LLaVAVisionLayer>, ModelError>)
        ensures
            r is Ok <==> forall|k: int| 0 <= k < items@.len() ==> #[trigger] items@[k].loadable(*weights, indexed(joined(prefix@, ".layers."@), k, ""@)),
            r matches Ok(v) ==> v@.len() == items@.len() && forall|k: int| 0 <= k < items@.len() ==> #[trigger] v@[k].loaded(items@[k], *weights, indexed(joined(prefix@, ".layers."@), k, ""@)),
            r matches Err(e) ==> is_transpose_error(e),
    {
        let mut rest = items;
        let mut done: Vec<LLaVAVisionLayer> = Vec::new();
        while rest.len() > 0
            invariant
                done@.len() + rest@.len() == items@.len(),
                rest@ == items@.subrange(done@.len() as int, items@.len() as int),
                forall|k: int| 0 <= k < done@.len() ==> #[trigger] done@[k].loaded(items@[k], *weights, indexed(joined(prefix@, ".layers."@), k, ""@)),
                forall|k: int| 0 <= k < done@.len() ==> #[trigger] items@[k].loadable(*weights, indexed(joined(prefix@, ".layers."@), k, ""@)),
            decreases rest@.len(),
        {
            let n = done.len();
            let mut item = rest.remove(0);
            assert(item == items@[n as int]);
            match item.load_weights(weights, indexed_name(joined_name(prefix, ".layers.").as_str(), n, "").as_str()) {
                Ok(()) => {},
                Err(e) => {
                    assert(!items@[n as int].loadable(*weights, indexed(joined(prefix@, ".layers."@), n as int, ""@)));
                    return Err(e);
                },
            }
            done.push(item);
            assert(rest@ =~= items@.subrange(done@.len() as int, items@.len() as int));
        }
        Ok(done)
    }
}

impl LLaVAVisionLayer {
    /// `self` is `old` after loading from `weights`: each weight whose
    /// checkpoint name `weights` holds takes that tensor's shape, element
    /// type, device and elements (as is, or transposed for a matrix product),
    /// and nothing else changes.
    pub closed spec fn loaded(&self, old: Self, weights: ModelWeights, prefix: Seq<char>) -> bool {
        &&& self.self_attn.loaded(old.self_attn, weights, joined(prefix, ".self_attn"@))
        &&& copied(self.layer_norm1, old.layer_norm1, weights.lookup(joined(prefix, ".layer_norm1.weight"@)))
        &&& self.mlp.loaded(old.mlp, weights, joined(prefix, ".mlp"@))
        &&& copied(self.layer_norm2, old.layer_norm2, weights.lookup(joined(prefix, ".layer_norm2.weight"@)))
        &&& self.eps == old.eps
    }

    /// Every tensor that loading from `weights` would transpose has at least
    /// two dimensions.
    pub closed spec fn loadable(&self, weights: ModelWeights, prefix: Seq<char>) -> bool {
        &&& self.self_attn.loadable(weights, joined(prefix, ".self_attn"@))
        &&& self.mlp.loadable(weights, joined(prefix, ".mlp"@))
    }

    /// Loads the weights of `weights` that this part names.
    fn load_weights(&mut self, weights: &ModelWeights, prefix: &str) -> (r: Result<(), ModelError>)
        ensures
            r is Ok <==> old(self).loadable(*weights, prefix@),
            r is Ok ==> final(self).loaded(*old(self), *weights, prefix@),
            r matches Err(e) ==> is_transpose_error(e),
    {
        load_copy(&mut self.layer_norm1, weights, joined_name(prefix, ".layer_norm1.weight").as_str());
        load_copy(&mut self.layer_norm2, weights, joined_name(prefix, ".layer_norm2.weight").as_str());
        self.self_attn.load_weights(weights, joined_name(prefix, ".self_attn").as_str())?;
        self.mlp.load_weights(weights, joined_name(prefix, ".mlp").as_str())?;
        Ok(())
    }
}

impl LLaVAVisionAttention {
    /// `self` is `old` after loading from `weights`: each weight whose
    /// checkpoint name `weights` holds takes that tensor's shape, element
    /// type, device and elements (as is, or transposed for a matrix product),
    /// and nothing else changes.
    pub closed spec fn loaded(&self, old: Self, weights: ModelWeights, prefix: Seq<char>) -> bool {
        &&& transposed(self.q_proj, old.q_proj, weights.lookup(joined(prefix, ".q_proj.weight"@)))
        &&& transposed(self.k_proj, old.k_proj, weights.lookup(joined(prefix, ".k_proj.weight"@)))
        &&& transposed(self.v_proj, old.v_proj, weights.lookup(joined(prefix, ".v_proj.weight"@)))
        &&& transposed(self.out_proj, old.out_proj, weights.lookup(joined(prefix, ".out_proj.weight"@)))
        &&& self.num_heads == old.num_heads
        &&& self.head_dim == old.head_dim
    }

    /// Every tensor that loading from `weights` would transpose has at least
    /// two dimensions.
    pub closed spec fn loadable(&self, weights: ModelWeights, prefix: Seq<char>) -> bool {
        &&& transposable(weights.lookup(joined(prefix, ".q_proj.weight"@)))
        &&& transposable(weights.lookup(joined(prefix, ".k_proj.weight"@)))
        &&& transposable(weights.lookup(joined(prefix, ".v_proj.weight"@)))
        &&& transposable(weights.lookup(joined(prefix, ".out_proj.weight"@)))
    }

    /// Loads the weights of `weights` that this part names.
    fn load_weights(&mut self, weights: &ModelWeights, prefix: &str) -> (r: Result<(), ModelError>)
        ensures
            r is Ok <==> old(self).loadable(*weights, prefix@),
            r is Ok ==> final(self).loaded(*old(self), *weights, prefix@),
            r matches Err(e) ==> is_transpose_error(e),
    {
        load_transposed(&mut self.q_proj, weights, joined_name(prefix, ".q_proj.weight").as_str())?;
        load_transposed(&mut self.k_proj, weights, joined_name(prefix, ".k_proj.weight").as_str())?;
        load_transposed(&mut self.v_proj, weights, joined_name(prefix, ".v_proj.weight").as_str())?;
        load_transposed(&mut self.out_proj, weights, joined_name(prefix, ".out_proj.weight").as_str())?;
        Ok(())
    }
}

impl LLaVAVisionMLP {
    /// `self` is `old` after loading from `weights`: each weight whose
    /// checkpoint name `weights` holds takes that tensor's shape, element
    /// type, device and elements (as is, or transposed for a matrix product),
    /// and nothing else changes.
    pub closed spec fn loaded(&self, old: Self, weights: ModelWeights, prefix: Seq<char>) -> bool {
        &&& transposed(self.fc1, old.fc1, weights.lookup(joined(prefix, ".fc1.weight"@)))
        &&& transposed(self.fc2, old.fc2, weights.lookup(joined(prefix, ".fc2.weight"@)))
    }

    /// Every tensor that loading from `weights` would transpose has at least
    /// two dimensions.
    pub closed spec fn loadable(&self, weights: ModelWeights, prefix: Seq<char>) -> bool {
        &&& transposable(weights.lookup(joined(prefix, ".fc1.weight"@)))
        &&& transposable(weights.lookup(joined(prefix, ".fc2.weight"@)))
    }

    /// Loads the weights of `weights` that this part names.
    fn load_weights(&mut self, weights: &ModelWeights, prefix: &str) -> (r: Result<(), ModelError>)
        ensures
            r is Ok <==> old(self).loadable(*weights, prefix@),
            r is Ok ==> final(self).loaded(*old(self), *weights, prefix@),
            r matches Err(e) ==> is_transpose_error(e),
    {
        load_transposed(&mut self.fc1, weights, joined_name(prefix, ".fc1.weight").as_str())?;
        load_transposed(&mut self.fc2, weights, joined_name(prefix, ".fc2.weight").as_str())?;
        Ok(())
    }
}

impl LLaVALanguageModel {
    /// `self` is `old` after loading from `weights`: each weight whose
    /// checkpoint name `weights` holds takes that tensor's shape, element
    /// type, device and elements (as is, or transposed for a matrix product),
    /// and nothing else changes.
    pub closed spec fn loaded(&self, old: Self, weights: ModelWeights) -> bool {
        &&& copied(self.embed_tokens, old.embed_tokens, weights.lookup("language_model.model.embed_tokens.weight"@))
        &&& self.layers@.len() == old.layers@.len()
        &&& forall|k: int| 0 <= k < old.layers@.len() ==> #[trigger] self.layers@[k].loaded(old.layers@[k], weights, k)
        &&& copied(self.norm, old.norm, weights.lookup("language_model.model.norm.weight"@))
        &&& transposed(self.lm_head, old.lm_head, weights.lookup("language_model.lm_head.weight"@))
        &&& self.config == old.config
    }

    /// Every tensor that loading from `weights` would transpose has at least
    /// two dimensions.
    pub closed spec fn loadable(&self, weights: ModelWeights) -> bool {
        &&& transposable(weights.lookup("language_model.lm_head.weight"@))
        &&& forall|k: int| 0 <= k < self.layers@.len() ==> #[trigger] self.layers@[k].loadable(weights, k)
    }

    /// Loads the weights of `weights` that this part names.
    fn load_weights(&mut self, weights: &ModelWeights) -> (r: Result<(), ModelError>)
        ensures
            r is Ok <==> old(self).loadable(*weights),
            r is Ok ==> final(self).loaded(*old(self), *weights),
            r matches Err(e) ==> is_transpose_error(e),
    {
        load_copy(&mut self.embed_tokens, weights, "language_model.model.embed_tokens.weight");
        load_copy(&mut self.norm, weights, "language_model.model.norm.weight");
        load_transposed(&mut self.lm_head, weights, "language_model.lm_head.weight")?;
        let mut taken_layers: Vec<LLaVALanguageLayer> = Vec::new();
        std::mem::swap(&mut taken_layers, &mut self.layers);
        self.layers = Self::load_layers(taken_layers, weights)?;
        Ok(())
    }

    /// Loads each of `items`, in order, from `weights`.
    fn load_layers(items: Vec<LLaVALanguageLayer>, weights: &ModelWeights) -> (r: Result<Vec<LLaVALanguageLayer>, ModelError>)
        ensures
            r is Ok <==> forall|k: int| 0 <= k < items@.len() ==> #[trigger] items@[k].loadable(*weights, k),
            r matches Ok(v) ==> v@.len() == items@.len() && forall|k: int| 0 <= k < items@.len() ==> #[trigger] v@[k].loaded(items@[k], *weights, k),
            r matches Err(e) ==> is_transpose_error(e),
    {
        let mut rest = items;
        let mut done: Vec<LLaVALanguageLayer> = Vec::new();
        while rest.len() > 0
            invariant
                done@.len() + rest@.len() == items@.len(),
                rest@ == items@.subrange(done@.len() as int, items@.len() as int),
                forall|k: int| 0 <= k < done@.len() ==> #[trigger] done@[k].loaded(items@[k], *weights, k),
                forall|k: int| 0 <= k < done@.len() ==> #[trigger] items@[k].loadable(*weights, k),
            decreases rest@.len(),
        {
            let n = done.len();
            let mut item = rest.remove(0);
            assert(item == items@[n as int]);
            match item.load_weights(weights, n) {
                Ok(()) => {},
                Err(e) => {
                    assert(!items@[n as int].loadable(*weights, n as int));
                    return Err(e);
                },
            }
            done.push(item);
            assert(rest@ =~= items@.subrange(done@.len() as int, items@.len() as int));
        }
        Ok(done)
    }
}

impl LLaVALanguageLayer {
    /// `self` is `old` after loading from `weights`: each weight whose
    /// checkpoint name `weights` holds takes that tensor's shape, element
    /// type, device and elements (as is, or transposed for a matrix product),
    /// and nothing else changes.
    pub closed spec fn loaded(&self, old: Self, weights: ModelWeights, idx: int) -> bool {
        &&& self.self_attn.loaded(old.self_attn, weights, idx)
        &&& self.mlp.loaded(old.mlp, weights, idx)
        &&& copied(self.input_layernorm, old.input_layernorm, weights.lookup(indexed("language_model.model.layers."@, idx, ".input_layernorm.weight"@)))
        &&& copied(self.post_attention_layernorm, old.post_attention_layernorm, weights.lookup(indexed("language_model.model.layers."@, idx, ".post_attention_layernorm.weight"@)))
        &&& self.rms_norm_eps == old.rms_norm_eps
    }

    /// Every tensor that loading from `weights` would transpose has at least
    /// two dimensions.
    pub closed spec fn loadable(&self, weights: ModelWeights, idx: int) -> bool {
        &&& self.self_attn.loadable(weights, idx)
        &&& self.mlp.loadable(weights, idx)
    }

    /// Loads the weights of `weights` that this part names.
    fn load_weights(&mut self, weights: &ModelWeights, layer_idx: usize) -> (r: Result<(), ModelError>)
        ensures
            r is Ok <==> old(self).loadable(*weights, layer_idx as int),
            r is Ok ==> final(self).loaded(*old(self), *weights, layer_idx as int),
            r matches Err(e) ==> is_transpose_error(e),
    {
        load_copy(&mut self.input_layernorm, weights, indexed_name("language_model.model.layers.", layer_idx, ".input_layernorm.weight").as_str());
        load_copy(&mut self.post_attention_layernorm, weights, indexed_name("language_model.model.layers.", layer_idx, ".post_attention_layernorm.weight").as_str());
        self.self_attn.load_weights(weights, layer_idx)?;
        self.mlp.load_weights(weights, layer_idx)?;
        Ok(())
    }
}

impl LLaVALanguageAttention {
    /// `self` is `old` after loading from `weights`: each weight whose
    /// checkpoint name `weights` holds takes that tensor's shape, element
    /// type, device and elements (as is, or transposed for a matrix product),
    /// and nothing else changes.
    pub closed spec fn loaded(&self, old: Self, weights: ModelWeights, idx: int) -> bool {
        &&& transposed(self.q_proj, old.q_proj, weights.lookup(indexed("language_model.model.layers."@, idx, ".self_attn.q_proj.weight"@)))
        &&& transposed(self.k_proj, old.k_proj, weights.lookup(indexed("language_model.model.layers."@, idx, ".self_attn.k_proj.weight"@)))
        &&& transposed(self.v_proj, old.v_proj, weights.lookup(indexed("language_model.model.layers."@, idx, ".self_attn.v_proj.weight"@)))
        &&& transposed(self.o_proj, old.o_proj, weights.lookup(indexed("language_model.model.layers."@, idx, ".self_attn.o_proj.weight"@)))
        &&& self.num_heads == old.num_heads
        &&& self.num_key_value_heads == old.num_key_value_heads
        &&& self.head_dim == old.head_dim
    }

    /// Every tensor that loading from `weights` would transpose has at least
    /// two dimensions.
    pub closed spec fn loadable(&self, weights: ModelWeights, idx: int) -> bool {
        &&& transposable(weights.lookup(indexed("language_model.model.layers."@, idx, ".self_attn.q_proj.weight"@)))
        &&& transposable(weights.lookup(indexed("language_model.model.layers."@, idx, ".self_attn.k_proj.weight"@)))
        &&& transposable(weights.lookup(indexed("language_model.model.layers."@, idx, ".self_attn.v_proj.weight"@)))
        &&& transposable(weights.lookup(indexed("language_model.model.layers."@, idx, ".self_attn.o_proj.weight"@)))
    }

    /// Loads the weights of `weights` that this part names.
    fn load_weights(&mut self, weights: &ModelWeights, layer_idx: usize) -> (r: Result<(), ModelError>)
        ensures
            r is Ok <==> old(self).loadable(*weights, layer_idx as int),
            r is Ok ==> final(self).loaded(*old(self), *weights, layer_idx as int),
            r matches Err(e) ==> is_transpose_error(e),
    {
        load_transposed(&mut self.q_proj, weights, indexed_name("language_model.model.layers.", layer_idx, ".self_attn.q_proj.weight").as_str())?;
        load_transposed(&mut self.k_proj, weights, indexed_name("language_model.model.layers.", layer_idx, ".self_attn.k_proj.weight").as_str())?;
        load_transposed(&mut self.v_proj, weights, indexed_name("language_model.model.layers.", layer_idx, ".self_attn.v_proj.weight").as_str())?;
        load_transposed(&mut self.o_proj, weights, indexed_name("language_model.model.layers.", layer_idx, ".self_attn.o_proj.weight").as_str())?;
        Ok(())
    }
}

impl LLaVALanguageMLP {
    /// `self` is `old` after loading from `weights`: each weight whose
    /// checkpoint name `weights` holds takes that tensor's shape, element
    /// type, device and elements (as is, or transposed for a matrix product),
    /// and nothing else changes.
    pub closed spec fn loaded(&self, old: Self, weights: ModelWeights, idx: int) -> bool {
        &&& transposed(self.gate_proj, old.gate_proj, weights.lookup(indexed("language_model.model.layers."@, idx, ".mlp.gate_proj.weight"@)))
        &&& transposed(self.up_proj, old.up_proj, weights.lookup(indexed("language_model.model.layers."@, idx, ".mlp.up_proj.weight"@)))
        &&& transposed(self.down_proj, old.down_proj, weights.lookup(indexed("language_model.model.layers."@, idx, ".mlp.down_proj.weight"@)))
    }

    /// Every tensor that loading from `weights` would transpose has at least
    /// two dimensions.
    pub closed spec fn loadable(&self, weights: ModelWeights, idx: int) -> bool {
        &&& transposable(weights.lookup(indexed("language_model.model.layers."@, idx, ".mlp.gate_proj.weight"@)))
        &&& transposable(weights.lookup(indexed("language_model.model.layers."@, idx, ".mlp.up_proj.weight"@)))
        &&& transposable(weights.lookup(indexed("language_model.model.layers."@, idx, ".mlp.down_proj.weight"@)))
    }

    /// Loads the weights of `weights` that this part names.
    fn load_weights(&mut self, weights: &ModelWeights, layer_idx: usize) -> (r: Result<(), ModelError>)
        ensures
            r is Ok <==> old(self).loadable(*weights, layer_idx as int),
            r is Ok ==> final(self).loaded(*old(self), *weights, layer_idx as int),
            r matches Err(e) ==> is_transpose_error(e),
    {
        load_transposed(&mut self.gate_proj, weights, indexed_name("language_model.model.layers.", layer_idx, ".mlp.gate_proj.weight").as_str())?;
        load_transposed(&mut self.up_proj, weights, indexed_name("language_model.model.layers.", layer_idx, ".mlp.up_proj.weight").as_str())?;
        load_transposed(&mut self.down_proj, weights, indexed_name("language_model.model.layers.", layer_idx, ".mlp.down_proj.weight").as_str())?;
        Ok(())
    }
}

impl LLaVAMultiModalProjector {
    /// `self` is `old` after loading from `weights`: for a `"linear"`
    /// projector the map transposed from `mm_projector.weight` and the bias
    /// copied from `mm_projector.bias`; for `"mlp2x_gelu"` the two maps
    /// transposed from `mm_projector.0.weight` and `mm_projector.2.weight`
    /// and their biases copied from the matching `.bias` names; each only
    /// when `weights` holds the name; nothing else changed.
    /// Copying or transposing a tensor takes its shape, element type,
    /// device and elements.
    pub closed spec fn loaded(&self, old: Self, weights: ModelWeights) -> bool {
        &&& self.projector_type == old.projector_type
        &&& if old.projector_type@ == "linear"@ {
            &&& transposed_opt(self.linear, old.linear, weights.lookup("mm_projector.weight"@))
            &&& copied_opt(self.linear_bias, old.linear_bias, weights.lookup("mm_projector.bias"@))
            &&& self.mlp_fc1 == old.mlp_fc1
            &&& self.mlp_fc1_bias == old.mlp_fc1_bias
            &&& self.mlp_fc2 == old.mlp_fc2
            &&& self.mlp_fc2_bias == old.mlp_fc2_bias
        } else if old.projector_type@ == "mlp2x_gelu"@ {
            &&& self.linear == old.linear
            &&& self.linear_bias == old.linear_bias
            &&& transposed_opt(self.mlp_fc1, old.mlp_fc1, weights.lookup("mm_projector.0.weight"@))
            &&& copied_opt(self.mlp_fc1_bias, old.mlp_fc1_bias, weights.lookup("mm_projector.0.bias"@))
            &&& transposed_opt(self.mlp_fc2, old.mlp_fc2, weights.lookup("mm_projector.2.weight"@))
            &&& copied_opt(self.mlp_fc2_bias, old.mlp_fc2_bias, weights.lookup("mm_projector.2.bias"@))
        } else {
            &&& self.linear == old.linear
            &&& self.linear_bias == old.linear_bias
            &&& self.mlp_fc1 == old.mlp_fc1
            &&& self.mlp_fc1_bias == old.mlp_fc1_bias
            &&& self.mlp_fc2 == old.mlp_fc2
            &&& self.mlp_fc2_bias == old.mlp_fc2_bias
        }
    }

    /// Every tensor that loading from `weights` would transpose has at least
    /// two dimensions.
    pub closed spec fn loadable(&self, weights: ModelWeights) -> bool {
        if self.projector_type@ == "linear"@ {
            transposable(weights.lookup("mm_projector.weight"@))
        } else if self.projector_type@ == "mlp2x_gelu"@ {
            &&& transposable(weights.lookup("mm_projector.0.weight"@))
            &&& transposable(weights.lookup("mm_projector.2.weight"@))
        } else {
            true
        }
    }

    /// Loads the weights of `weights` that this projector names.
    fn load_weights(&mut self, weights: &ModelWeights) -> (r: Result<(), ModelError>)
        ensures
            r is Ok <==> old(self).loadable(*weights),
            r is Ok ==> final(self).loaded(*old(self), *weights),
            r matches Err(e) ==> is_transpose_error(e),
    {
        let linear = String::from_str("linear");
        let mlp = String::from_str("mlp2x_gelu");
        if self.projector_type == linear {
            load_transposed_opt(&mut self.linear, weights, "mm_projector.weight")?;
            load_copy_opt(&mut self.linear_bias, weights, "mm_projector.bias");
        } else if self.projector_type == mlp {
            load_transposed_opt(&mut self.mlp_fc1, weights, "mm_projector.0.weight")?;
            load_copy_opt(&mut self.mlp_fc1_bias, weights, "mm_projector.0.bias");
            load_transposed_opt(&mut self.mlp_fc2, weights, "mm_projector.2.weight")?;
            load_copy_opt(&mut self.mlp_fc2_bias, weights, "mm_projector.2.bias");
        }
        Ok(())
    }
}

impl LLaVAModelV2 {
    /// Builds the model for `config` as `new` does and loads the weights that
    /// `weights` holds under their checkpoint names: an unknown projector type
    /// is refused as `new` refuses it; otherwise the result is the built model
    /// with those weights taken, and an error exactly when a tensor that must
    /// be transposed has fewer than two dimensions.
    pub fn from_weights(config: LLaVAConfig, weights: ModelWeights) -> (r: Result<Self, ModelError>)
        requires
            llava_dims_fit(config),
        ensures
            !known_projector(config.mm_projector_type@) ==> (r matches Err(ModelError::InvalidConfig(msg))
                && msg@ == unknown_projector_message(config.mm_projector_type@)),
            known_projector(config.mm_projector_type@) ==> exists|built: Self| #[trigger] built.built_for(config, Device::CPU)
                && built.spec_config() == config && built.spec_device() == Device::CPU
                && (r is Ok <==> built.loadable(weights))
                && (r matches Ok(m) ==> m.spec_config() == config && m.spec_device() == Device::CPU && m.loaded(built, weights))
                && (r matches Err(e) ==> is_transpose_error(e)),
    {
        let mut model = match Self::new(config) {
            Ok(m) => m,
            Err(e) => {
                return Err(e);
            },
        };
        let ghost built = model;
        match model.load_weights(&weights) {
            Ok(()) => {
                assert(built.built_for(config, Device::CPU));
                Ok(model)
            },
            Err(e) => {
                assert(built.built_for(config, Device::CPU));
                Err(e)
            },
        }
    }
}

impl LLaVAVisionEmbeddings {
    /// A move to `d1` followed by a move to `d2` is a move to `d2`.
    proof fn lemma_moves_compose(first: Self, second: Self, third: Self, d1: Device, d2: Device)
        requires
            second.moved_from(first, d1),
            third.moved_from(second, d2),
        ensures
            third.moved_from(first, d2),
    {
    }
}

impl LLaVAVisionAttention {
    /// A move to `d1` followed by a move to `d2` is a move to `d2`.
    proof fn lemma_moves_compose(first: Self, second: Self, third: Self, d1: Device, d2: Device)
        requires
            second.moved_from(first, d1),
            third.moved_from(second, d2),
        ensures
            third.moved_from(first, d2),
    {
    }
}

impl LLaVAVisionMLP {
    /// A move to `d1` followed by a move to `d2` is a move to `d2`.
    proof fn lemma_moves_compose(first: Self, second: Self, third: Self, d1: Device, d2: Device)
        requires
            second.moved_from(first, d1),
            third.moved_from(second, d2),
        ensures
            third.moved_from(first, d2),
    {
    }
}

impl LLaVAVisionLayer {
    /// A move to `d1` followed by a move to `d2` is a move to `d2`.
    proof fn lemma_moves_compose(first: Self, second: Self, third: Self, d1: Device, d2: Device)
        requires
            second.moved_from(first, d1),
            third.moved_from(second, d2),
        ensures
            third.moved_from(first, d2),
    {
        LLaVAVisionAttention::lemma_moves_compose(first.self_attn, second.self_attn, third.self_attn, d1, d2);
        LLaVAVisionMLP::lemma_moves_compose(first.mlp, second.mlp, third.mlp, d1, d2);
    }
}

impl LLaVAVisionEncoder {
    /// A move to `d1` followed by a move to `d2` is a move to `d2`.
    proof fn lemma_moves_compose(first: Self, second: Self, third: Self, d1: Device, d2: Device)
        requires
            second.moved_from(first, d1),
            third.moved_from(second, d2),
        ensures
            third.moved_from(first, d2),
    {
        assert forall|k: int| 0 <= k < third.layers@.len() implies #[trigger] third.layers@[k].moved_from(first.layers@[k], d2) by {
            LLaVAVisionLayer::lemma_moves_compose(first.layers@[k], second.layers@[k], third.layers@[k], d1, d2);
        }
    }
}

impl LLaVAVisionTower {
    /// A move to `d1` followed by a move to `d2` is a move to `d2`.
    proof fn lemma_moves_compose(first: Self, second: Self, third: Self, d1: Device, d2: Device)
        requires
            second.moved_from(first, d1),
            third.moved_from(second, d2),
        ensures
            third.moved_from(first, d2),
    {
        LLaVAVisionEmbeddings::lemma_moves_compose(first.embeddings, second.embeddings, third.embeddings, d1, d2);
        LLaVAVisionEncoder::lemma_moves_compose(first.encoder, second.encoder, third.encoder, d1, d2);
    }
}

impl LLaVALanguageAttention {
    /// A move to `d1` followed by a move to `d2` is a move to `d2`.
    proof fn lemma_moves_compose(first: Self, second: Self, third: Self, d1: Device, d2: Device)
        requires
            second.moved_from(first, d1),
            third.moved_from(second, d2),
        ensures
            third.moved_from(first, d2),
    {
    }
}

impl LLaVALanguageMLP {
    /// A move to `d1` followed by a move to `d2` is a move to `d2`.
    proof fn lemma_moves_compose(first: Self, second: Self, third: Self, d1: Device, d2: Device)
        requires
            second.moved_from(first, d1),
            third.moved_from(second, d2),
        ensures
            third.moved_from(first, d2),
    {
    }
}

impl LLaVALanguageLayer {
    /// A move to `d1` followed by a move to `d2` is a move to `d2`.
    proof fn lemma_moves_compose(first: Self, second: Self, third: Self, d1: Device, d2: Device)
        requires
            second.moved_from(first, d1),
            third.moved_from(second, d2),
        ensures
            third.moved_from(first, d2),
    {
        LLaVALanguageAttention::lemma_moves_compose(first.self_attn, second.self_attn, third.self_attn, d1, d2);
        LLaVALanguageMLP::lemma_moves_compose(first.mlp, second.mlp, third.mlp, d1, d2);
    }
}

impl LLaVALanguageModel {
    /// A move to `d1` followed by a move to `d2` is a move to `d2`.
    proof fn lemma_moves_compose(first: Self, second: Self, third: Self, d1: Device, d2: Device)
        requires
            second.moved_from(first, d1),
            third.moved_from(second, d2),
        ensures
            third.moved_from(first, d2),
    {
        assert forall|k: int| 0 <= k < third.layers@.len() implies #[trigger] third.layers@[k].moved_from(first.layers@[k], d2) by {
            LLaVALanguageLayer::lemma_moves_compose(first.layers@[k], second.layers@[k], third.layers@[k], d1, d2);
        }
    }
}

impl LLaVAMultiModalProjector {
    /// A move to `d1` followed by a move to `d2` is a move to `d2`.
    proof fn lemma_moves_compose(first: Self, second: Self, third: Self, d1: Device, d2: Device)
        requires
            second.moved_from(first, d1),
            third.moved_from(second, d2),
        ensures
            third.moved_from(first, d2),
    {
    }
}

impl LLaVAModelV2 {
    /// Moving to `d1` and then to `d2` leaves the model as a single move to
    /// `d2` would: the second move overrides the first.
    pub proof fn lemma_moves_compose(first: Self, second: Self, third: Self, d1: Device, d2: Device)
        requires
            second.moved_from(first, d1),
            third.moved_from(second, d2),
        ensures
            third.moved_from(first, d2),
    {
        LLaVAVisionTower::lemma_moves_compose(first.vision_tower, second.vision_tower, third.vision_tower, d1, d2);
        LLaVAMultiModalProjector::lemma_moves_compose(first.mm_projector, second.mm_projector, third.mm_projector, d1, d2);
        LLaVALanguageModel::lemma_moves_compose(first.language_model, second.language_model, third.language_model, d1, d2);
    }
}

} // verus!

verus! {

impl LLaVAConfig {
    /// The default configuration has these sizes: the clauses below.
    pub proof fn lemma_default_sizes(&self)
        requires
            self.gguf_fields_default(),
        ensures
            self.vocab_size == 32000,
            self.hidden_size == 4096,
            self.intermediate_size == 11008,
            self.num_hidden_layers == 32,
            self.num_attention_heads == 32,
            self.num_key_value_heads == 32,
            self.max_position_embeddings == 4096,
            self.rms_norm_eps.bits == 0x3727c5ac,
            self.rope_theta.bits == 0x461c4000,
    {
    }

    /// The default configuration has these remaining settings: the clauses below.
    pub proof fn lemma_default_settings(&self)
        requires
            self.other_fields_default(),
        ensures
            self.hidden_act@ == "silu"@,
            self.initializer_range.bits == 0x3ca3d70a,
            self.use_cache == true,
            self.pad_token_id == 0,
            self.bos_token_id == 1,
            self.eos_token_id == 2,
            self.tie_word_embeddings == false,
            self.attention_bias == false,
            self.attention_dropout.bits == 0x00000000,
            self.vision_hidden_size == 1024,
            self.vision_intermediate_size == 4096,
            self.vision_num_hidden_layers == 24,
            self.vision_num_attention_heads == 16,
            self.vision_num_channels == 3,
            self.vision_patch_size == 14,
            self.vision_image_size == 336,
            self.vision_layer_norm_eps.bits == 0x3727c5ac,
            self.mm_projector_type@ == "mlp2x_gelu"@,
            self.mm_hidden_size == 1024,
            self.mm_vision_select_layer == -2,
            self.mm_vision_select_feature@ == "patch"@,
            self.image_token_len == 576,
            self.im_patch_token == 32000,
            self.im_start_token == 32001,
            self.im_end_token == 32002,
    {
    }

    /// The default configuration is the one with the default sizes and settings: the clauses below.
    pub proof fn lemma_default_parts(&self)
        requires
            self.is_default(),
        ensures
            ({
            self.gguf_fields_default() && self.other_fields_default()
        }),
    {
    }
}

impl LLaVAVisionEmbeddings {
    /// Built for `config` on `device`, each weight is the zero tensor of the shape the configuration gives, on `device`, and each recorded size is the configured one: the clauses below.
    pub proof fn lemma_built_weights(&self, config: LLaVAConfig, device: Device)
        requires
            self.built_for(config, device),
        ensures
            ({
            let num_positions = ((config.spec_num_patches() + 1) as usize) as usize;
            &&& self.patch_embedding_weight.is_f32(seq![config.vision_hidden_size, config.vision_num_channels, config.vision_patch_size, config.vision_patch_size], device)
            &&& self.patch_embedding_bias.is_f32(seq![config.vision_hidden_size], device)
            &&& self.class_embedding.is_f32(seq![config.vision_hidden_size], device)
            &&& self.position_embedding.is_f32(seq![num_positions, config.vision_hidden_size], device)
        }),
    {
    }

    /// After a move to `device`, every weight lies on `device` with its shape, element type and elements kept, and nothing else changes: the clauses below.
    pub proof fn lemma_moved_weights(&self, before: Self, device: Device)
        requires
            self.moved_from(before, device),
        ensures
            self.patch_embedding_weight.is_placed(before.patch_embedding_weight, device),
            self.patch_embedding_bias.is_placed(before.patch_embedding_bias, device),
            self.class_embedding.is_placed(before.class_embedding, device),
            self.position_embedding.is_placed(before.position_embedding, device),
            self.config == before.config,
    {
    }

    /// After loading from `weights`, each weight holds the tensor stored under its checkpoint name, copied or transposed, and keeps its previous value when the name is absent; nothing else changes: the clauses below.
    pub proof fn lemma_loaded_weights(&self, before: Self, weights: ModelWeights, prefix: Seq<char>)
        requires
            self.loaded(before, weights, prefix),
        ensures
            copied(self.patch_embedding_weight, before.patch_embedding_weight, weights.lookup(joined(prefix, ".patch_embedding.weight"@))),
            copied(self.patch_embedding_bias, before.patch_embedding_bias, weights.lookup(joined(prefix, ".patch_embedding.bias"@))),
            copied(self.class_embedding, before.class_embedding, weights.lookup(joined(prefix, ".class_embedding"@))),
            copied(self.position_embedding, before.position_embedding, weights.lookup(joined(prefix, ".position_embedding.weight"@))),
            self.config == before.config,
    {
    }

    /// Loading from `weights` succeeds only when every tensor it must transpose, found under these checkpoint names, has at least two dimensions: the clauses below.
    pub proof fn lemma_loadable_names(&self, weights: ModelWeights, prefix: Seq<char>)
        requires
            self.loadable(weights, prefix),
        ensures
            ({
            true
        }),
    {
    }
}

impl LLaVAVisionAttention {
    /// Built for `config` on `device`, each weight is the zero tensor of the shape the configuration gives, on `device`, and each recorded size is the configured one: the clauses below.
    pub proof fn lemma_built_weights(&self, config: LLaVAConfig, device: Device)
        requires
            self.built_for(config, device),
        ensures
            self.q_proj.is_f32(seq![config.vision_hidden_size, config.vision_hidden_size], device),
            self.k_proj.is_f32(seq![config.vision_hidden_size, config.vision_hidden_size], device),
            self.v_proj.is_f32(seq![config.vision_hidden_size, config.vision_hidden_size], device),
            self.out_proj.is_f32(seq![config.vision_hidden_size, config.vision_hidden_size], device),
            self.num_heads == config.vision_num_attention_heads,
            self.head_dim == config.vision_hidden_size / config.vision_num_attention_heads,
    {
    }

    /// After a move to `device`, every weight lies on `device` with its shape, element type and elements kept, and nothing else changes: the clauses below.
    pub proof fn lemma_moved_weights(&self, before: Self, device: Device)
        requires
            self.moved_from(before, device),
        ensures
            self.q_proj.is_placed(before.q_proj, device),
            self.k_proj.is_placed(before.k_proj, device),
            self.v_proj.is_placed(before.v_proj, device),
            self.out_proj.is_placed(before.out_proj, device),
            self.num_heads == before.num_heads,
            self.head_dim == before.head_dim,
    {
    }

    /// After loading from `weights`, each weight holds the tensor stored under its checkpoint name, copied or transposed, and keeps its previous value when the name is absent; nothing else changes: the clauses below.
    pub proof fn lemma_loaded_weights(&self, before: Self, weights: ModelWeights, prefix: Seq<char>)
        requires
            self.loaded(before, weights, prefix),
        ensures
            transposed(self.q_proj, before.q_proj, weights.lookup(joined(prefix, ".q_proj.weight"@))),
            transposed(self.k_proj, before.k_proj, weights.lookup(joined(prefix, ".k_proj.weight"@))),
            transposed(self.v_proj, before.v_proj, weights.lookup(joined(prefix, ".v_proj.weight"@))),
            transposed(self.out_proj, before.out_proj, weights.lookup(joined(prefix, ".out_proj.weight"@))),
            self.num_heads == before.num_heads,
            self.head_dim == before.head_dim,
    {
    }

    /// Loading from `weights` succeeds only when every tensor it must transpose, found under these checkpoint names, has at least two dimensions: the clauses below.
    pub proof fn lemma_loadable_names(&self, weights: ModelWeights, prefix: Seq<char>)
        requires
            self.loadable(weights, prefix),
        ensures
            transposable(weights.lookup(joined(prefix, ".q_proj.weight"@))),
            transposable(weights.lookup(joined(prefix, ".k_proj.weight"@))),
            transposable(weights.lookup(joined(prefix, ".v_proj.weight"@))),
            transposable(weights.lookup(joined(prefix, ".out_proj.weight"@))),
    {
    }
}

impl LLaVAVisionMLP {
    /// Built for `config` on `device`, each weight is the zero tensor of the shape the configuration gives, on `device`, and each recorded size is the configured one: the clauses below.
    pub proof fn lemma_built_weights(&self, config: LLaVAConfig, device: Device)
        requires
            self.built_for(config, device),
        ensures
            self.fc1.is_f32(seq![config.vision_hidden_size, config.vision_intermediate_size], device),
            self.fc2.is_f32(seq![config.vision_intermediate_size, config.vision_hidden_size], device),
    {
    }

    /// After a move to `device`, every weight lies on `device` with its shape, element type and elements kept, and nothing else changes: the clauses below.
    pub proof fn lemma_moved_weights(&self, before: Self, device: Device)
        requires
            self.moved_from(before, device),
        ensures
            self.fc1.is_placed(before.fc1, device),
            self.fc2.is_placed(before.fc2, device),
    {
    }

    /// After loading from `weights`, each weight holds the tensor stored under its checkpoint name, copied or transposed, and keeps its previous value when the name is absent; nothing else changes: the clauses below.
    pub proof fn lemma_loaded_weights(&self, before: Self, weights: ModelWeights, prefix: Seq<char>)
        requires
            self.loaded(before, weights, prefix),
        ensures
            transposed(self.fc1, before.fc1, weights.lookup(joined(prefix, ".fc1.weight"@))),
            transposed(self.fc2, before.fc2, weights.lookup(joined(prefix, ".fc2.weight"@))),
    {
    }

    /// Loading from `weights` succeeds only when every tensor it must transpose, found under these checkpoint names, has at least two dimensions: the clauses below.
    pub proof fn lemma_loadable_names(&self, weights: ModelWeights, prefix: Seq<char>)
        requires
            self.loadable(weights, prefix),
        ensures
            transposable(weights.lookup(joined(prefix, ".fc1.weight"@))),
            transposable(weights.lookup(joined(prefix, ".fc2.weight"@))),
    {
    }
}

impl LLaVAVisionLayer {
    /// Built for `config` on `device`, each weight is the zero tensor of the shape the configuration gives, on `device`, and each recorded size is the configured one: the clauses below.
    pub proof fn lemma_built_weights(&self, config: LLaVAConfig, device: Device)
        requires
            self.built_for(config, device),
        ensures
            self.self_attn.built_for(config, device),
            self.layer_norm1.is_f32(seq![config.vision_hidden_size], device),
            self.mlp.built_for(config, device),
            self.layer_norm2.is_f32(seq![config.vision_hidden_size], device),
            self.eps == config.vision_layer_norm_eps,
    {
    }

    /// After a move to `device`, every weight lies on `device` with its shape, element type and elements kept, and nothing else changes: the clauses below.
    pub proof fn lemma_moved_weights(&self, before: Self, device: Device)
        requires
            self.moved_from(before, device),
        ensures
            self.self_attn.moved_from(before.self_attn, device),
            self.layer_norm1.is_placed(before.layer_norm1, device),
            self.mlp.moved_from(before.mlp, device),
            self.layer_norm2.is_placed(before.layer_norm2, device),
            self.eps == before.eps,
    {
    }

    /// After loading from `weights`, each weight holds the tensor stored under its checkpoint name, copied or transposed, and keeps its previous value when the name is absent; nothing else changes: the clauses below.
    pub proof fn lemma_loaded_weights(&self, before: Self, weights: ModelWeights, prefix: Seq<char>)
        requires
            self.loaded(before, weights, prefix),
        ensures
            self.self_attn.loaded(before.self_attn, weights, joined(prefix, ".self_attn"@)),
            copied(self.layer_norm1, before.layer_norm1, weights.lookup(joined(prefix, ".layer_norm1.weight"@))),
            self.mlp.loaded(before.mlp, weights, joined(prefix, ".mlp"@)),
            copied(self.layer_norm2, before.layer_norm2, weights.lookup(joined(prefix, ".layer_norm2.weight"@))),
            self.eps == before.eps,
    {
    }

    /// Loading from `weights` succeeds only when every tensor it must transpose, found under these checkpoint names, has at least two dimensions: the clauses below.
    pub proof fn lemma_loadable_names(&self, weights: ModelWeights, prefix: Seq<char>)
        requires
            self.loadable(weights, prefix),
        ensures
            self.self_attn.loadable(weights, joined(prefix, ".self_attn"@)),
            self.mlp.loadable(weights, joined(prefix, ".mlp"@)),
    {
    }
}

impl LLaVAVisionEncoder {
    /// Built for `config` on `device`, each weight is the zero tensor of the shape the configuration gives, on `device`, and each recorded size is the configured one: the clauses below.
    pub proof fn lemma_built_weights(&self, config: LLaVAConfig, device: Device)
        requires
            self.built_for(config, device),
        ensures
            self.layers@.len() == config.vision_num_hidden_layers,
            forall|k: int| 0 <= k < self.layers@.len() ==> #[trigger] self.layers@[k].built_for(config, device),
    {
    }

    /// After a move to `device`, every weight lies on `device` with its shape, element type and elements kept, and nothing else changes: the clauses below.
    pub proof fn lemma_moved_weights(&self, before: Self, device: Device)
        requires
            self.moved_from(before, device),
        ensures
            self.layers@.len() == before.layers@.len(),
            forall|k: int| 0 <= k < self.layers@.len() ==> #[trigger] self.layers@[k].moved_from(before.layers@[k], device),
    {
    }

    /// After loading from `weights`, each weight holds the tensor stored under its checkpoint name, copied or transposed, and keeps its previous value when the name is absent; nothing else changes: the clauses below.
    pub proof fn lemma_loaded_weights(&self, before: Self, weights: ModelWeights, prefix: Seq<char>)
        requires
            self.loaded(before, weights, prefix),
        ensures
            self.layers@.len() == before.layers@.len(),
            forall|k: int| 0 <= k < before.layers@.len() ==> #[trigger] self.layers@[k].loaded(before.layers@[k], weights, indexed(joined(prefix, ".layers."@), k, ""@)),
    {
    }

    /// Loading from `weights` succeeds only when every tensor it must transpose, found under these checkpoint names, has at least two dimensions: the clauses below.
    pub proof fn lemma_loadable_names(&self, weights: ModelWeights, prefix: Seq<char>)
        requires
            self.loadable(weights, prefix),
        ensures
            forall|k: int| 0 <= k < self.layers@.len() ==> #[trigger] self.layers@[k].loadable(weights, indexed(joined(prefix, ".layers."@), k, ""@)),
    {
    }
}

impl LLaVAVisionTower {
    /// Built for `config` on `device`, each weight is the zero tensor of the shape the configuration gives, on `device`, and each recorded size is the configured one: the clauses below.
    pub proof fn lemma_built_weights(&self, config: LLaVAConfig, device: Device)
        requires
            self.built_for(config, device),
        ensures
            self.embeddings.built_for(config, device),
            self.encoder.built_for(config, device),
            self.post_layernorm.is_f32(seq![config.vision_hidden_size], device),
    {
    }

    /// After a move to `device`, every weight lies on `device` with its shape, element type and elements kept, and nothing else changes: the clauses below.
    pub proof fn lemma_moved_weights(&self, before: Self, device: Device)
        requires
            self.moved_from(before, device),
        ensures
            self.embeddings.moved_from(before.embeddings, device),
            self.encoder.moved_from(before.encoder, device),
            self.post_layernorm.is_placed(before.post_layernorm, device),
            self.config == before.config,
    {
    }

    /// After loading from `weights`, each weight holds the tensor stored under its checkpoint name, copied or transposed, and keeps its previous value when the name is absent; nothing else changes: the clauses below.
    pub proof fn lemma_loaded_weights(&self, before: Self, weights: ModelWeights)
        requires
            self.loaded(before, weights),
        ensures
            self.embeddings.loaded(before.embeddings, weights, "vision_tower.vision_model.embeddings"@),
            self.encoder.loaded(before.encoder, weights, "vision_tower.vision_model.encoder"@),
            copied(self.post_layernorm, before.post_layernorm, weights.lookup("vision_tower.vision_model.post_layernorm.weight"@)),
            self.config == before.config,
    {
    }

    /// Loading from `weights` succeeds only when every tensor it must transpose, found under these checkpoint names, has at least two dimensions: the clauses below.
    pub proof fn lemma_loadable_names(&self, weights: ModelWeights)
        requires
            self.loadable(weights),
        ensures
            self.embeddings.loadable(weights, "vision_tower.vision_model.embeddings"@),
            self.encoder.loadable(weights, "vision_tower.vision_model.encoder"@),
    {
    }
}

impl LLaVALanguageAttention {
    /// Built for `config` on `device`, each weight is the zero tensor of the shape the configuration gives, on `device`, and each recorded size is the configured one: the clauses below.
    pub proof fn lemma_built_weights(&self, config: LLaVAConfig, device: Device)
        requires
            self.built_for(config, device),
        ensures
            ({
            let head_dim = config.hidden_size / config.num_attention_heads;
            &&& self.q_proj.is_f32(seq![config.hidden_size, (config.num_attention_heads * head_dim) as usize], device)
            &&& self.k_proj.is_f32(seq![config.hidden_size, (config.num_key_value_heads * head_dim) as usize], device)
            &&& self.v_proj.is_f32(seq![config.hidden_size, (config.num_key_value_heads * head_dim) as usize], device)
            &&& self.o_proj.is_f32(seq![(config.num_attention_heads * head_dim) as usize, config.hidden_size], device)
            &&& self.num_heads == config.num_attention_heads
            &&& self.num_key_value_heads == config.num_key_value_heads
            &&& self.head_dim == head_dim
        }),
    {
    }

    /// After a move to `device`, every weight lies on `device` with its shape, element type and elements kept, and nothing else changes: the clauses below.
    pub proof fn lemma_moved_weights(&self, before: Self, device: Device)
        requires
            self.moved_from(before, device),
        ensures
            self.q_proj.is_placed(before.q_proj, device),
            self.k_proj.is_placed(before.k_proj, device),
            self.v_proj.is_placed(before.v_proj, device),
            self.o_proj.is_placed(before.o_proj, device),
            self.num_heads == before.num_heads,
            self.num_key_value_heads == before.num_key_value_heads,
            self.head_dim == before.head_dim,
    {
    }

    /// After loading from `weights`, each weight holds the tensor stored under its checkpoint name, copied or transposed, and keeps its previous value when the name is absent; nothing else changes: the clauses below.
    pub proof fn lemma_loaded_weights(&self, before: Self, weights: ModelWeights, idx: int)
        requires
            self.loaded(before, weights, idx),
        ensures
            transposed(self.q_proj, before.q_proj, weights.lookup(indexed("language_model.model.layers."@, idx, ".self_attn.q_proj.weight"@))),
            transposed(self.k_proj, before.k_proj, weights.lookup(indexed("language_model.model.layers."@, idx, ".self_attn.k_proj.weight"@))),
            transposed(self.v_proj, before.v_proj, weights.lookup(indexed("language_model.model.layers."@, idx, ".self_attn.v_proj.weight"@))),
            transposed(self.o_proj, before.o_proj, weights.lookup(indexed("language_model.model.layers."@, idx, ".self_attn.o_proj.weight"@))),
            self.num_heads == before.num_heads,
            self.num_key_value_heads == before.num_key_value_heads,
            self.head_dim == before.head_dim,
    {
    }

    /// Loading from `weights` succeeds only when every tensor it must transpose, found under these checkpoint names, has at least two dimensions: the clauses below.
    pub proof fn lemma_loadable_names(&self, weights: ModelWeights, idx: int)
        requires
            self.loadable(weights, idx),
        ensures
            transposable(weights.lookup(indexed("language_model.model.layers."@, idx, ".self_attn.q_proj.weight"@))),
            transposable(weights.lookup(indexed("language_model.model.layers."@, idx, ".self_attn.k_proj.weight"@))),
            transposable(weights.lookup(indexed("language_model.model.layers."@, idx, ".self_attn.v_proj.weight"@))),
            transposable(weights.lookup(indexed("language_model.model.layers."@, idx, ".self_attn.o_proj.weight"@))),
    {
    }
}

impl LLaVALanguageMLP {
    /// Built for `config` on `device`, each weight is the zero tensor of the shape the configuration gives, on `device`, and each recorded size is the configured one: the clauses below.
    pub proof fn lemma_built_weights(&self, config: LLaVAConfig, device: Device)
        requires
            self.built_for(config, device),
        ensures
            self.gate_proj.is_f32(seq![config.hidden_size, config.intermediate_size], device),
            self.up_proj.is_f32(seq![config.hidden_size, config.intermediate_size], device),
            self.down_proj.is_f32(seq![config.intermediate_size, config.hidden_size], device),
    {
    }

    /// After a move to `device`, every weight lies on `device` with its shape, element type and elements kept, and nothing else changes: the clauses below.
    pub proof fn lemma_moved_weights(&self, before: Self, device: Device)
        requires
            self.moved_from(before, device),
        ensures
            self.gate_proj.is_placed(before.gate_proj, device),
            self.up_proj.is_placed(before.up_proj, device),
            self.down_proj.is_placed(before.down_proj, device),
    {
    }

    /// After loading from `weights`, each weight holds the tensor stored under its checkpoint name, copied or transposed, and keeps its previous value when the name is absent; nothing else changes: the clauses below.
    pub proof fn lemma_loaded_weights(&self, before: Self, weights: ModelWeights, idx: int)
        requires
            self.loaded(before, weights, idx),
        ensures
            transposed(self.gate_proj, before.gate_proj, weights.lookup(indexed("language_model.model.layers."@, idx, ".mlp.gate_proj.weight"@))),
            transposed(self.up_proj, before.up_proj, weights.lookup(indexed("language_model.model.layers."@, idx, ".mlp.up_proj.weight"@))),
            transposed(self.down_proj, before.down_proj, weights.lookup(indexed("language_model.model.layers."@, idx, ".mlp.down_proj.weight"@))),
    {
    }

    /// Loading from `weights` succeeds only when every tensor it must transpose, found under these checkpoint names, has at least two dimensions: the clauses below.
    pub proof fn lemma_loadable_names(&self, weights: ModelWeights, idx: int)
        requires
            self.loadable(weights, idx),
        ensures
            transposable(weights.lookup(indexed("language_model.model.layers."@, idx, ".mlp.gate_proj.weight"@))),
            transposable(weights.lookup(indexed("language_model.model.layers."@, idx, ".mlp.up_proj.weight"@))),
            transposable(weights.lookup(indexed("language_model.model.layers."@, idx, ".mlp.down_proj.weight"@))),
    {
    }
}

impl LLaVALanguageLayer {
    /// Built for `config` on `device`, each weight is the zero tensor of the shape the configuration gives, on `device`, and each recorded size is the configured one: the clauses below.
    pub proof fn lemma_built_weights(&self, config: LLaVAConfig, device: Device)
        requires
            self.built_for(config, device),
        ensures
            self.self_attn.built_for(config, device),
            self.mlp.built_for(config, device),
            self.input_layernorm.is_f32(seq![config.hidden_size], device),
            self.post_attention_layernorm.is_f32(seq![config.hidden_size], device),
            self.rms_norm_eps == config.rms_norm_eps,
    {
    }

    /// After a move to `device`, every weight lies on `device` with its shape, element type and elements kept, and nothing else changes: the clauses below.
    pub proof fn lemma_moved_weights(&self, before: Self, device: Device)
        requires
            self.moved_from(before, device),
        ensures
            self.self_attn.moved_from(before.self_attn, device),
            self.mlp.moved_from(before.mlp, device),
            self.input_layernorm.is_placed(before.input_layernorm, device),
            self.post_attention_layernorm.is_placed(before.post_attention_layernorm, device),
            self.rms_norm_eps == before.rms_norm_eps,
    {
    }

    /// After loading from `weights`, each weight holds the tensor stored under its checkpoint name, copied or transposed, and keeps its previous value when the name is absent; nothing else changes: the clauses below.
    pub proof fn lemma_loaded_weights(&self, before: Self, weights: ModelWeights, idx: int)
        requires
            self.loaded(before, weights, idx),
        ensures
            self.self_attn.loaded(before.self_attn, weights, idx),
            self.mlp.loaded(before.mlp, weights, idx),
            copied(self.input_layernorm, before.input_layernorm, weights.lookup(indexed("language_model.model.layers."@, idx, ".input_layernorm.weight"@))),
            copied(self.post_attention_layernorm, before.post_attention_layernorm, weights.lookup(indexed("language_model.model.layers."@, idx, ".post_attention_layernorm.weight"@))),
            self.rms_norm_eps == before.rms_norm_eps,
    {
    }

    /// Loading from `weights` succeeds only when every tensor it must transpose, found under these checkpoint names, has at least two dimensions: the clauses below.
    pub proof fn lemma_loadable_names(&self, weights: ModelWeights, idx: int)
        requires
            self.loadable(weights, idx),
        ensures
            self.self_attn.loadable(weights, idx),
            self.mlp.loadable(weights, idx),
    {
    }
}

impl LLaVALanguageModel {
    /// Built for `config` on `device`, each weight is the zero tensor of the shape the configuration gives, on `device`, and each recorded size is the configured one: the clauses below.
    pub proof fn lemma_built_weights(&self, config: LLaVAConfig, device: Device)
        requires
            self.built_for(config, device),
        ensures
            self.embed_tokens.is_f32(seq![config.vocab_size, config.hidden_size], device),
            self.layers@.len() == config.num_hidden_layers,
            forall|k: int| 0 <= k < self.layers@.len() ==> #[trigger] self.layers@[k].built_for(config, device),
            self.norm.is_f32(seq![config.hidden_size], device),
            (if config.tie_word_embeddings { self.lm_head.same(self.embed_tokens) } else { self.lm_head.is_f32(seq![config.hidden_size, config.vocab_size], device) }),
    {
    }

    /// After a move to `device`, every weight lies on `device` with its shape, element type and elements kept, and nothing else changes: the clauses below.
    pub proof fn lemma_moved_weights(&self, before: Self, device: Device)
        requires
            self.moved_from(before, device),
        ensures
            self.embed_tokens.is_placed(before.embed_tokens, device),
            self.layers@.len() == before.layers@.len(),
            forall|k: int| 0 <= k < self.layers@.len() ==> #[trigger] self.layers@[k].moved_from(before.layers@[k], device),
            self.norm.is_placed(before.norm, device),
            self.lm_head.is_placed(before.lm_head, device),
            self.config == before.config,
    {
    }

    /// After loading from `weights`, each weight holds the tensor stored under its checkpoint name, copied or transposed, and keeps its previous value when the name is absent; nothing else changes: the clauses below.
    pub proof fn lemma_loaded_weights(&self, before: Self, weights: ModelWeights)
        requires
            self.loaded(before, weights),
        ensures
            copied(self.embed_tokens, before.embed_tokens, weights.lookup("language_model.model.embed_tokens.weight"@)),
            self.layers@.len() == before.layers@.len(),
            forall|k: int| 0 <= k < before.layers@.len() ==> #[trigger] self.layers@[k].loaded(before.layers@[k], weights, k),
            copied(self.norm, before.norm, weights.lookup("language_model.model.norm.weight"@)),
            transposed(self.lm_head, before.lm_head, weights.lookup("language_model.lm_head.weight"@)),
            self.config == before.config,
    {
    }

    /// Loading from `weights` succeeds only when every tensor it must transpose, found under these checkpoint names, has at least two dimensions: the clauses below.
    pub proof fn lemma_loadable_names(&self, weights: ModelWeights)
        requires
            self.loadable(weights),
        ensures
            transposable(weights.lookup("language_model.lm_head.weight"@)),
            forall|k: int| 0 <= k < self.layers@.len() ==> #[trigger] self.layers@[k].loadable(weights, k),
    {
    }
}

impl LLaVAMultiModalProjector {
    /// Built for `config` on `device`, each weight is the zero tensor of the shape the configuration gives, on `device`, and each recorded size is the configured one: the clauses below.
    pub proof fn lemma_built_weights(&self, config: LLaVAConfig, device: Device)
        requires
            self.built_for(config, device),
        ensures
            ({
            let vh = config.vision_hidden_size;
            let th = config.hidden_size;
            &&& self.projector_type@ == config.mm_projector_type@
            &&& (if config.mm_projector_type@ == "linear"@ {
                &&& some_f32(self.linear, seq![vh, th], device)
                &&& some_f32(self.linear_bias, seq![th], device)
                &&& self.mlp_fc1 is None && self.mlp_fc1_bias is None
                &&& self.mlp_fc2 is None && self.mlp_fc2_bias is None
            } else {
                &&& self.linear is None && self.linear_bias is None
                &&& some_f32(self.mlp_fc1, seq![vh, th], device)
                &&& some_f32(self.mlp_fc1_bias, seq![th], device)
                &&& some_f32(self.mlp_fc2, seq![th, th], device)
                &&& some_f32(self.mlp_fc2_bias, seq![th], device)
            })
        }),
    {
    }

    /// After a move to `device`, every weight lies on `device` with its shape, element type and elements kept, and nothing else changes: the clauses below.
    pub proof fn lemma_moved_weights(&self, before: Self, device: Device)
        requires
            self.moved_from(before, device),
        ensures
            self.projector_type == before.projector_type,
            option_placed(self.linear, before.linear, device),
            option_placed(self.linear_bias, before.linear_bias, device),
            option_placed(self.mlp_fc1, before.mlp_fc1, device),
            option_placed(self.mlp_fc1_bias, before.mlp_fc1_bias, device),
            option_placed(self.mlp_fc2, before.mlp_fc2, device),
            option_placed(self.mlp_fc2_bias, before.mlp_fc2_bias, device),
    {
    }

    /// After loading from `weights`, each weight holds the tensor stored under its checkpoint name, copied or transposed, and keeps its previous value when the name is absent; nothing else changes: the clauses below.
    pub proof fn lemma_loaded_weights(&self, before: Self, weights: ModelWeights)
        requires
            self.loaded(before, weights),
        ensures
            self.projector_type == before.projector_type,
            if before.projector_type@ == "linear"@ {
                &&& transposed_opt(self.linear, before.linear, weights.lookup("mm_projector.weight"@))
                &&& copied_opt(self.linear_bias, before.linear_bias, weights.lookup("mm_projector.bias"@))
                &&& self.mlp_fc1 == before.mlp_fc1
                &&& self.mlp_fc1_bias == before.mlp_fc1_bias
                &&& self.mlp_fc2 == before.mlp_fc2
                &&& self.mlp_fc2_bias == before.mlp_fc2_bias
            } else if before.projector_type@ == "mlp2x_gelu"@ {
                &&& self.linear == before.linear
                &&& self.linear_bias == before.linear_bias
                &&& transposed_opt(self.mlp_fc1, before.mlp_fc1, weights.lookup("mm_projector.0.weight"@))
                &&& copied_opt(self.mlp_fc1_bias, before.mlp_fc1_bias, weights.lookup("mm_projector.0.bias"@))
                &&& transposed_opt(self.mlp_fc2, before.mlp_fc2, weights.lookup("mm_projector.2.weight"@))
                &&& copied_opt(self.mlp_fc2_bias, before.mlp_fc2_bias, weights.lookup("mm_projector.2.bias"@))
            } else {
                &&& self.linear == before.linear
                &&& self.linear_bias == before.linear_bias
                &&& self.mlp_fc1 == before.mlp_fc1
                &&& self.mlp_fc1_bias == before.mlp_fc1_bias
                &&& self.mlp_fc2 == before.mlp_fc2
                &&& self.mlp_fc2_bias == before.mlp_fc2_bias
            },
    {
    }

    /// Loading from `weights` succeeds only when every tensor it must transpose, found under these checkpoint names, has at least two dimensions: the clauses below.
    pub proof fn lemma_loadable_names(&self, weights: ModelWeights)
        requires
            self.loadable(weights),
        ensures
            ({
            if self.projector_type@ == "linear"@ {
                transposable(weights.lookup("mm_projector.weight"@))
            } else if self.projector_type@ == "mlp2x_gelu"@ {
                &&& transposable(weights.lookup("mm_projector.0.weight"@))
                &&& transposable(weights.lookup("mm_projector.2.weight"@))
            } else {
                true
            }
        }),
    {
    }
}

impl LLaVAModelV2 {
    /// Built for `config` on `device`, each weight is the zero tensor of the shape the configuration gives, on `device`, and each recorded size is the configured one: the clauses below.
    pub proof fn lemma_built_weights(&self, config: LLaVAConfig, device: Device)
        requires
            self.built_for(config, device),
        ensures
            self.vision_tower.built_for(config, device),
            self.mm_projector.built_for(config, device),
            self.language_model.built_for(config, device),
    {
    }

    /// After a move to `device`, every weight lies on `device` with its shape, element type and elements kept, and nothing else changes: the clauses below.
    pub proof fn lemma_moved_weights(&self, before: Self, device: Device)
        requires
            self.moved_from(before, device),
        ensures
            self.config == before.config,
            self.device == device,
            self.vision_tower.moved_from(before.vision_tower, device),
            self.mm_projector.moved_from(before.mm_projector, device),
            self.language_model.moved_from(before.language_model, device),
    {
    }

    /// After loading from `weights`, each weight holds the tensor stored under its checkpoint name, copied or transposed, and keeps its previous value when the name is absent; nothing else changes: the clauses below.
    pub proof fn lemma_loaded_weights(&self, before: Self, weights: ModelWeights)
        requires
            self.loaded(before, weights),
        ensures
            self.config == before.config,
            self.device == before.device,
            self.vision_tower.loaded(before.vision_tower, weights),
            self.mm_projector.loaded(before.mm_projector, weights),
            self.language_model.loaded(before.language_model, weights),
    {
    }

    /// Loading from `weights` succeeds only when every tensor it must transpose, found under these checkpoint names, has at least two dimensions: the clauses below.
    pub proof fn lemma_loadable_names(&self, weights: ModelWeights)
        requires
            self.loadable(weights),
        ensures
            self.vision_tower.loadable(weights),
            self.mm_projector.loadable(weights),
            self.language_model.loadable(weights),
    {
    }
}

/// `llava_language_params` is, for every configuration, the formula below.
pub proof fn lemma_llava_language_params_formula(c: LLaVAConfig)
    ensures
        llava_language_params(c) == (c.vocab_size * c.hidden_size + c.num_hidden_layers * (4 * c.hidden_size * c.hidden_size + 3 * c.hidden_size * c.intermediate_size)),
{
}

/// `llava_vision_params` is, for every configuration, the formula below.
pub proof fn lemma_llava_vision_params_formula(c: LLaVAConfig)
    ensures
        llava_vision_params(c) == (c.vision_num_hidden_layers * (4 * c.vision_hidden_size * c.vision_hidden_size + 2 * c.vision_hidden_size * c.vision_intermediate_size)),
{
}

/// `llava_projector_params` is, for every configuration, the formula below.
pub proof fn lemma_llava_projector_params_formula(c: LLaVAConfig)
    ensures
        llava_projector_params(c) == (c.vision_hidden_size * c.hidden_size * 2),
{
}

/// `llava_total_params` is, for every configuration, the formula below.
pub proof fn lemma_llava_total_params_formula(c: LLaVAConfig)
    ensures
        llava_total_params(c) == (llava_language_params(c) + llava_vision_params(c) + llava_projector_params(c)),
{
}

/// `llava_param_bytes` is, for every configuration, the formula below.
pub proof fn lemma_llava_param_bytes_formula(c: LLaVAConfig)
    ensures
        llava_param_bytes(c) == (llava_total_params(c) * 4),
{
}

/// `llava_kv_cache_bytes` is, for every configuration, the formula below.
pub proof fn lemma_llava_kv_cache_bytes_formula(c: LLaVAConfig)
    ensures
        llava_kv_cache_bytes(c) == (2 * c.num_hidden_layers * c.max_position_embeddings * c.hidden_size * 4),
{
}

} // verus!

verus! {

impl LLaVAConfig {
    /// `spec_num_patches` is, for every value, the expression below.
    pub proof fn lemma_spec_num_patches_value(&self)
        ensures
            self.spec_num_patches() == ({
            let side = self.vision_image_size as int / self.vision_patch_size as int;
            side * side
            }),
    {
    }

    /// `spec_vision_layers_run` is, for every value, the expression below.
    pub proof fn lemma_spec_vision_layers_run_value(&self)
        ensures
            self.spec_vision_layers_run() == ({
            let n = self.vision_num_hidden_layers as int;
            let t = if self.mm_vision_select_layer < 0 { n + self.mm_vision_select_layer } else {
                self.mm_vision_select_layer as int
            };
            if 0 <= t < n { t + 1 } else { n }
            }),
    {
    }
}

/// `known_projector` is, for every argument, the expression below.
pub proof fn lemma_known_projector_value(kind: Seq<char>)
    ensures
        known_projector(kind) == (kind == "linear"@ || kind == "mlp2x_gelu"@),
{
}

/// `some_f32` is, for every argument, the expression below.
pub proof fn lemma_some_f32_value(t: Option<Tensor>, shape: Seq<usize>, device: Device)
    ensures
        some_f32(t, shape, device) == (t matches Some(x) && x.is_f32(shape, device)),
{
}

/// `option_placed` is, for every argument, the expression below.
pub proof fn lemma_option_placed_value(t: Option<Tensor>, old: Option<Tensor>, device: Device)
    ensures
        option_placed(t, old, device) == ({
        match (t, old) {
            (Some(a), Some(b)) => a.is_placed(b, device),
            (None, None) => true,
            _ => false,
        }
        }),
{
}

/// `is_first_position` is, for every argument, the expression below.
pub proof fn lemma_is_first_position_value(ids: Seq<i64>, token: i64, p: int)
    ensures
        is_first_position(ids, token, p) == ({
        &&& 0 <= p < ids.len()
        &&& ids[p] == token
        &&& forall|j: int| 0 <= j < p ==> ids[j] != token
        }),
{
}

} // verus!
