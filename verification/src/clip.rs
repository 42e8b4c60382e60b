//! The CLIP (paired text and vision encoders) model.
use vstd::prelude::*;
use crate::common::F32Bits;
use crate::gguf::GGUFModelConfig;
use crate::common::{GenerationConfig, MemoryRequirements, ModelError};
use crate::tensor::{zeros1, zeros2, zeros4, Device, Tensor};
use crate::weights::{copied, copied_opt, transposed, transposable, is_transpose_error, indexed, joined, first_found, indexed_name, joined_name, load_copy, load_copy_opt, load_transposed, get_first2, take_copy, take_transposed, take_copy_opt, ModelWeights};

verus! {

/// Hyperparameters of the CLIP (paired text and vision encoders) model.
#[derive(Clone, Debug)]
pub struct CLIPConfig {
    pub vocab_size: usize,
    pub hidden_size: usize,
    pub num_hidden_layers: usize,
    pub context_length: usize,
    pub transformer_width: usize,
    pub transformer_heads: usize,
    pub transformer_layers: usize,
    pub image_resolution: usize,
    pub vision_layers: usize,
    pub vision_width: usize,
    pub vision_heads: usize,
    pub vision_patch_size: usize,
    pub embed_dim: usize,
    pub projection_dim: usize,
    pub layer_norm_eps: F32Bits,
    pub attention_dropout: F32Bits,
    pub initializer_range: F32Bits,
}

impl CLIPConfig {
    /// The fields that a GGUF file supplies hold their default values.
    pub open spec fn gguf_fields_default(&self) -> bool {
        &&& self.vocab_size == 49408
        &&& self.hidden_size == 512
        &&& self.num_hidden_layers == 12
        &&& self.transformer_width == 512
        &&& self.transformer_heads == 8
        &&& self.transformer_layers == 12
        &&& self.vision_layers == 12
        &&& self.vision_width == 768
        &&& self.vision_heads == 12
    }

    /// The fields that a GGUF file does not supply hold their default values.
    pub open spec fn other_fields_default(&self) -> bool {
        &&& self.context_length == 77
        &&& self.image_resolution == 224
        &&& self.vision_patch_size == 32
        &&& self.embed_dim == 512
        &&& self.projection_dim == 512
        &&& self.layer_norm_eps.bits == 0x3727c5ac
        &&& self.attention_dropout.bits == 0x00000000
        &&& self.initializer_range.bits == 0x3ca3d70a
    }

    /// Every field holds its default value.
    pub open spec fn is_default(&self) -> bool {
        self.gguf_fields_default() && self.other_fields_default()
    }

    /// The configuration described by a GGUF file: the architecture fields it
    /// carries, and the defaults for the rest.
    pub fn from_gguf_config(gguf: &GGUFModelConfig) -> (r: Self)
        ensures
            r.vocab_size == gguf.vocab_size,
            r.hidden_size == gguf.hidden_size,
            r.num_hidden_layers == gguf.num_hidden_layers,
            r.transformer_width == gguf.hidden_size,
            r.transformer_layers == gguf.num_hidden_layers,
            r.transformer_heads == gguf.num_attention_heads,
            r.vision_width == gguf.hidden_size,
            r.vision_layers == gguf.num_hidden_layers,
            r.vision_heads == gguf.num_attention_heads,
            r.other_fields_default(),
    {
        let d = Self::default();
        Self {
            vocab_size: gguf.vocab_size,
            hidden_size: gguf.hidden_size,
            num_hidden_layers: gguf.num_hidden_layers,
            transformer_width: gguf.hidden_size,
            transformer_layers: gguf.num_hidden_layers,
            transformer_heads: gguf.num_attention_heads,
            vision_width: gguf.hidden_size,
            vision_layers: gguf.num_hidden_layers,
            vision_heads: gguf.num_attention_heads,
            ..d
        }
    }

    /// Number of image patches: (image_resolution / vision_patch_size) squared.
    pub open spec fn spec_num_patches(&self) -> int {
        let side = self.image_resolution as int / self.vision_patch_size as int;
        side * side
    }

    /// Width of one vision attention head.
    pub fn vision_head_dim(&self) -> (r: usize)
        requires
            self.vision_heads > 0,
        ensures
            r == self.vision_width / self.vision_heads,
    {
        self.vision_width / self.vision_heads
    }

    /// Width of one text attention head.
    pub fn text_head_dim(&self) -> (r: usize)
        requires
            self.transformer_heads > 0,
        ensures
            r == self.transformer_width / self.transformer_heads,
    {
        self.transformer_width / self.transformer_heads
    }

    /// Number of image patches, the class token excluded.
    pub fn num_patches(&self) -> (r: usize)
        requires
            self.vision_patch_size > 0,
            self.spec_num_patches() <= usize::MAX,
        ensures
            r == self.spec_num_patches(),
    {
        let side = self.image_resolution / self.vision_patch_size;
        side * side
    }

    /// Number of vision positions: the patches and the class token.
    pub fn num_positions(&self) -> (r: usize)
        requires
            self.vision_patch_size > 0,
            self.spec_num_patches() + 1 <= usize::MAX,
        ensures
            r == self.spec_num_patches() + 1,
    {
        self.num_patches() + 1
    }

    /// Size of the token vocabulary.
    pub fn vocab_size(&self) -> (r: usize)
        ensures
            r == self.vocab_size,
    {
        self.vocab_size
    }

    /// Width of the hidden states.
    pub fn hidden_size(&self) -> (r: usize)
        ensures
            r == self.hidden_size,
    {
        self.hidden_size
    }

    /// Number of transformer (or state-space) layers.
    pub fn num_layers(&self) -> (r: usize)
        ensures
            r == self.num_hidden_layers,
    {
        self.num_hidden_layers
    }
}

impl Default for CLIPConfig {
    fn default() -> (r: Self)
        ensures
            r.is_default(),
    {
        Self {
            vocab_size: 49408,
            hidden_size: 512,
            num_hidden_layers: 12,
            context_length: 77,
            transformer_width: 512,
            transformer_heads: 8,
            transformer_layers: 12,
            image_resolution: 224,
            vision_layers: 12,
            vision_width: 768,
            vision_heads: 12,
            vision_patch_size: 32,
            embed_dim: 512,
            projection_dim: 512,
            layer_norm_eps: F32Bits::from_bits(0x3727c5ac),
            attention_dropout: F32Bits::from_bits(0x00000000),
            initializer_range: F32Bits::from_bits(0x3ca3d70a),
        }
    }
}

/// The CLIP model: a causal text transformer and a vision transformer, projections of both into a shared embedding space, and a learned logit scale.
pub struct CLIPModelV2 {
    pub config: CLIPConfig,
    pub device: Device,
    pub text_model: CLIPTextTransformer,
    pub vision_model: CLIPVisionTransformer,
    pub text_projection: Tensor,
    pub visual_projection: Tensor,
    pub logit_scale: Tensor,
}

/// The CLIP text transformer: embeddings, a causal encoder and a final norm.
pub struct CLIPTextTransformer {
    pub embeddings: CLIPTextEmbeddings,
    pub encoder: CLIPEncoder,
    pub final_layer_norm: Tensor,
    pub final_layer_norm_bias: Option<Tensor>,
    pub config: CLIPConfig,
    pub is_causal: bool,
}

/// The CLIP vision transformer: patch embeddings, a norm, a bidirectional encoder and a final norm.
pub struct CLIPVisionTransformer {
    pub embeddings: CLIPVisionEmbeddings,
    pub pre_layernorm: Tensor,
    pub pre_layernorm_bias: Option<Tensor>,
    pub encoder: CLIPEncoder,
    pub post_layernorm: Tensor,
    pub post_layernorm_bias: Option<Tensor>,
    pub config: CLIPConfig,
}

/// CLIP text embeddings: token and position tables.
pub struct CLIPTextEmbeddings {
    pub token_embedding: Tensor,
    pub position_embedding: Tensor,
    pub config: CLIPConfig,
}

/// CLIP vision embeddings: the patch convolution, the class embedding and one position embedding per patch plus the class token.
pub struct CLIPVisionEmbeddings {
    pub patch_embedding: Tensor,
    pub class_embedding: Tensor,
    pub position_embedding: Tensor,
    pub config: CLIPConfig,
}

/// A stack of CLIP encoder layers, causal for text and bidirectional for images.
pub struct CLIPEncoder {
    pub layers: Vec<CLIPEncoderLayer>,
    pub is_causal: bool,
}

/// A CLIP encoder layer: attention and an MLP of four times the width, each after a layer norm.
pub struct CLIPEncoderLayer {
    pub self_attn: CLIPAttention,
    pub layer_norm1: Tensor,
    pub layer_norm1_bias: Option<Tensor>,
    pub mlp: CLIPMLP,
    pub layer_norm2: Tensor,
    pub layer_norm2_bias: Option<Tensor>,
    pub hidden_size: usize,
}

/// CLIP attention: square query, key, value and output projections; the biases are absent until loaded.
pub struct CLIPAttention {
    pub q_proj: Tensor,
    pub k_proj: Tensor,
    pub v_proj: Tensor,
    pub out_proj: Tensor,
    pub q_bias: Option<Tensor>,
    pub k_bias: Option<Tensor>,
    pub v_bias: Option<Tensor>,
    pub out_bias: Option<Tensor>,
    pub num_heads: usize,
    pub head_dim: usize,
}

/// CLIP feed-forward block: up to the intermediate width and back; the biases are absent until loaded.
pub struct CLIPMLP {
    pub fc1: Tensor,
    pub fc1_bias: Option<Tensor>,
    pub fc2: Tensor,
    pub fc2_bias: Option<Tensor>,
    pub hidden_size: usize,
    pub intermediate_size: usize,
}

impl CLIPModelV2 {
    /// The model as built for `config` on `device`: both transformers, projections `[transformer_width, projection_dim]` and `[vision_width, projection_dim]`, and a one-element logit scale.
    pub closed spec fn built_for(&self, config: CLIPConfig, device: Device) -> bool {
        &&& self.text_model.built_for(config, device)
        &&& self.vision_model.built_for(config, device)
        &&& self.text_projection.is_f32(seq![config.transformer_width, config.projection_dim], device)
        &&& self.visual_projection.is_f32(seq![config.vision_width, config.projection_dim], device)
        &&& self.logit_scale.is_f32(seq![(1) as usize], device)
    }

    /// `self` is `old` moved to `device`: every weight placed there and the device recorded.
    pub closed spec fn moved_from(&self, old: Self, device: Device) -> bool {
        &&& self.config == old.config
        &&& self.device == device
        &&& self.text_model.moved_from(old.text_model, device)
        &&& self.vision_model.moved_from(old.vision_model, device)
        &&& self.text_projection.is_placed(old.text_projection, device)
        &&& self.visual_projection.is_placed(old.visual_projection, device)
        &&& self.logit_scale.is_placed(old.logit_scale, device)
    }

    /// The configuration the model was built with.
    pub closed spec fn spec_config(&self) -> CLIPConfig {
        self.config
    }

    /// The device the model reports.
    pub closed spec fn spec_device(&self) -> Device {
        self.device
    }

    /// Builds the model for `config` on the CPU, with zero weights.
    pub fn new(config: CLIPConfig) -> (r: Result<Self, ModelError>)
        requires
            config.transformer_heads > 0,
            config.vision_heads > 0,
            config.transformer_width * 4 <= usize::MAX,
            config.vision_width * 4 <= usize::MAX,
            config.vision_patch_size > 0,
            config.spec_num_patches() + 1 <= usize::MAX,
        ensures
            r matches Ok(m) && m.spec_config() == config && m.spec_device() == Device::CPU
                && m.built_for(config, Device::CPU),
    {
        let device = Device::CPU;
        let text_model = CLIPTextTransformer::new(&config, &device);
        let vision_model = CLIPVisionTransformer::new(&config, &device);
        let text_projection = zeros2(config.transformer_width, config.projection_dim, &device);
        let visual_projection = zeros2(config.vision_width, config.projection_dim, &device);
        let logit_scale = zeros1(1, &device);
        Ok(CLIPModelV2 { config, device, text_model, vision_model, text_projection, visual_projection, logit_scale })
    }

    /// The configuration the model was built with.
    pub fn config(&self) -> (r: &CLIPConfig)
        ensures
            *r == self.spec_config(),
    {
        &self.config
    }

    /// Moves the model to `device`.
    pub fn to_device(&mut self, device: &Device) -> (r: Result<(), ModelError>)
        ensures
            r is Ok,
            final(self).moved_from(*old(self), *device),
    {
        self.text_model.to_device(device);
        self.vision_model.to_device(device);
        self.text_projection = self.text_projection.to_device(device);
        self.visual_projection = self.visual_projection.to_device(device);
        self.logit_scale = self.logit_scale.to_device(device);
        self.device = *device;
        Ok(())
    }
}

impl CLIPTextTransformer {
    /// The weights as built for `config` on `device`, all zero.
    pub closed spec fn built_for(&self, config: CLIPConfig, device: Device) -> bool {
        &&& self.embeddings.built_for(config, device)
        &&& self.encoder.built_for(config.transformer_width, config.transformer_heads, config.transformer_layers, true, device)
        &&& self.final_layer_norm.is_f32(seq![config.transformer_width], device)
        &&& self.final_layer_norm_bias is None
        &&& self.is_causal == true
    }

    /// `self` is `old` with its weights placed on `device`.
    pub closed spec fn moved_from(&self, old: Self, device: Device) -> bool {
        &&& self.embeddings.moved_from(old.embeddings, device)
        &&& self.encoder.moved_from(old.encoder, device)
        &&& self.final_layer_norm.is_placed(old.final_layer_norm, device)
        &&& (match (self.final_layer_norm_bias, old.final_layer_norm_bias) { (Some(a), Some(b)) => a.is_placed(b, device), (None, None) => true, _ => false })
        &&& self.config == old.config
        &&& self.is_causal == old.is_causal
    }

    fn new(config: &CLIPConfig, device: &Device) -> (r: Self)
        requires
            config.transformer_heads > 0,
            config.vision_heads > 0,
            config.transformer_width * 4 <= usize::MAX,
            config.vision_width * 4 <= usize::MAX,
            config.vision_patch_size > 0,
            config.spec_num_patches() + 1 <= usize::MAX,
        ensures
            r.built_for(*config, *device),
    {
        let embeddings = CLIPTextEmbeddings::new(config, device);
        let encoder = CLIPEncoder::new_text(config, device);
        let final_layer_norm = zeros1(config.transformer_width, device);
        let final_layer_norm_bias: Option<Tensor> = None;
        let config = config.clone();
        let is_causal = true;
        CLIPTextTransformer { embeddings, encoder, final_layer_norm, final_layer_norm_bias, config, is_causal }
    }

    /// Places the weights on `device`.
    fn to_device(&mut self, device: &Device)
        ensures
            final(self).moved_from(*old(self), *device),
    {
        self.embeddings.to_device(device);
        self.encoder.to_device(device);
        self.final_layer_norm = self.final_layer_norm.to_device(device);
        let moved_final_layer_norm_bias = match &self.final_layer_norm_bias { Some(t) => Some(t.to_device(device)), None => None };
        self.final_layer_norm_bias = moved_final_layer_norm_bias;
    }
}

impl CLIPVisionTransformer {
    /// The weights as built for `config` on `device`, all zero.
    pub closed spec fn built_for(&self, config: CLIPConfig, device: Device) -> bool {
        &&& self.embeddings.built_for(config, device)
        &&& self.pre_layernorm.is_f32(seq![config.vision_width], device)
        &&& self.pre_layernorm_bias is None
        &&& self.encoder.built_for(config.vision_width, config.vision_heads, config.vision_layers, false, device)
        &&& self.post_layernorm.is_f32(seq![config.vision_width], device)
        &&& self.post_layernorm_bias is None
    }

    /// `self` is `old` with its weights placed on `device`.
    pub closed spec fn moved_from(&self, old: Self, device: Device) -> bool {
        &&& self.embeddings.moved_from(old.embeddings, device)
        &&& self.pre_layernorm.is_placed(old.pre_layernorm, device)
        &&& (match (self.pre_layernorm_bias, old.pre_layernorm_bias) { (Some(a), Some(b)) => a.is_placed(b, device), (None, None) => true, _ => false })
        &&& self.encoder.moved_from(old.encoder, device)
        &&& self.post_layernorm.is_placed(old.post_layernorm, device)
        &&& (match (self.post_layernorm_bias, old.post_layernorm_bias) { (Some(a), Some(b)) => a.is_placed(b, device), (None, None) => true, _ => false })
        &&& self.config == old.config
    }

    fn new(config: &CLIPConfig, device: &Device) -> (r: Self)
        requires
            config.transformer_heads > 0,
            config.vision_heads > 0,
            config.transformer_width * 4 <= usize::MAX,
            config.vision_width * 4 <= usize::MAX,
            config.vision_patch_size > 0,
            config.spec_num_patches() + 1 <= usize::MAX,
        ensures
            r.built_for(*config, *device),
    {
        let embeddings = CLIPVisionEmbeddings::new(config, device);
        let pre_layernorm = zeros1(config.vision_width, device);
        let pre_layernorm_bias: Option<Tensor> = None;
        let encoder = CLIPEncoder::new_vision(config, device);
        let post_layernorm = zeros1(config.vision_width, device);
        let post_layernorm_bias: Option<Tensor> = None;
        let config = config.clone();
        CLIPVisionTransformer { embeddings, pre_layernorm, pre_layernorm_bias, encoder, post_layernorm, post_layernorm_bias, config }
    }

    /// Places the weights on `device`.
    fn to_device(&mut self, device: &Device)
        ensures
            final(self).moved_from(*old(self), *device),
    {
        self.embeddings.to_device(device);
        self.pre_layernorm = self.pre_layernorm.to_device(device);
        let moved_pre_layernorm_bias = match &self.pre_layernorm_bias { Some(t) => Some(t.to_device(device)), None => None };
        self.pre_layernorm_bias = moved_pre_layernorm_bias;
        self.encoder.to_device(device);
        self.post_layernorm = self.post_layernorm.to_device(device);
        let moved_post_layernorm_bias = match &self.post_layernorm_bias { Some(t) => Some(t.to_device(device)), None => None };
        self.post_layernorm_bias = moved_post_layernorm_bias;
    }
}

impl CLIPTextEmbeddings {
    /// The weights as built for `config` on `device`, all zero.
    pub closed spec fn built_for(&self, config: CLIPConfig, device: Device) -> bool {
        &&& self.token_embedding.is_f32(seq![config.vocab_size, config.transformer_width], device)
        &&& self.position_embedding.is_f32(seq![config.context_length, config.transformer_width], device)
    }

    /// `self` is `old` with its weights placed on `device`.
    pub closed spec fn moved_from(&self, old: Self, device: Device) -> bool {
        &&& self.token_embedding.is_placed(old.token_embedding, device)
        &&& self.position_embedding.is_placed(old.position_embedding, device)
        &&& self.config == old.config
    }

    fn new(config: &CLIPConfig, device: &Device) -> (r: Self)
        ensures
            r.built_for(*config, *device),
    {
        let token_embedding = zeros2(config.vocab_size, config.transformer_width, device);
        let position_embedding = zeros2(config.context_length, config.transformer_width, device);
        let config = config.clone();
        CLIPTextEmbeddings { token_embedding, position_embedding, config }
    }

    /// Places the weights on `device`.
    fn to_device(&mut self, device: &Device)
        ensures
            final(self).moved_from(*old(self), *device),
    {
        self.token_embedding = self.token_embedding.to_device(device);
        self.position_embedding = self.position_embedding.to_device(device);
    }
}

impl CLIPVisionEmbeddings {
    /// Built for `config`: a patch convolution `[vision_width, 3, patch, patch]`, a class embedding `[vision_width]`, and position embeddings `[num_patches + 1, vision_width]`.
    pub closed spec fn built_for(&self, config: CLIPConfig, device: Device) -> bool {
        let num_positions = ((config.spec_num_patches() + 1) as usize) as usize;
        &&& self.patch_embedding.is_f32(seq![config.vision_width, (3) as usize, config.vision_patch_size, config.vision_patch_size], device)
        &&& self.class_embedding.is_f32(seq![config.vision_width], device)
        &&& self.position_embedding.is_f32(seq![num_positions, config.vision_width], device)
    }

    /// `self` is `old` with its weights placed on `device`.
    pub closed spec fn moved_from(&self, old: Self, device: Device) -> bool {
        &&& self.patch_embedding.is_placed(old.patch_embedding, device)
        &&& self.class_embedding.is_placed(old.class_embedding, device)
        &&& self.position_embedding.is_placed(old.position_embedding, device)
        &&& self.config == old.config
    }

    fn new(config: &CLIPConfig, device: &Device) -> (r: Self)
        requires
            config.vision_patch_size > 0,
            config.spec_num_patches() + 1 <= usize::MAX,
        ensures
            r.built_for(*config, *device),
    {
        let num_positions = config.num_positions();
        let patch_embedding = zeros4(config.vision_width, 3, config.vision_patch_size, config.vision_patch_size, device);
        let class_embedding = zeros1(config.vision_width, device);
        let position_embedding = zeros2(num_positions, config.vision_width, device);
        let config = config.clone();
        CLIPVisionEmbeddings { patch_embedding, class_embedding, position_embedding, config }
    }

    /// Places the weights on `device`.
    fn to_device(&mut self, device: &Device)
        ensures
            final(self).moved_from(*old(self), *device),
    {
        self.patch_embedding = self.patch_embedding.to_device(device);
        self.class_embedding = self.class_embedding.to_device(device);
        self.position_embedding = self.position_embedding.to_device(device);
    }
}

impl CLIPEncoder {
    /// `num_layers` layers of width `hidden_size` with `num_heads` heads, and the causality flag.
    pub closed spec fn built_for(&self, hidden_size: usize, num_heads: usize, num_layers: usize, is_causal: bool, device: Device) -> bool {
        &&& self.layers@.len() == num_layers
        &&& forall|k: int| 0 <= k < self.layers@.len() ==> #[trigger] self.layers@[k].built_for(hidden_size, num_heads, device)
        &&& self.is_causal == is_causal
    }

    /// `self` is `old` with its weights placed on `device`.
    pub closed spec fn moved_from(&self, old: Self, device: Device) -> bool {
        &&& self.layers@.len() == old.layers@.len()
        &&& forall|k: int| 0 <= k < self.layers@.len() ==> #[trigger] self.layers@[k].moved_from(old.layers@[k], device)
        &&& self.is_causal == old.is_causal
    }

    fn new(hidden_size: usize, num_heads: usize, num_layers: usize, is_causal: bool, device: &Device) -> (r: Self)
        requires
            num_heads > 0,
            hidden_size * 4 <= usize::MAX,
        ensures
            r.built_for(hidden_size, num_heads, num_layers, is_causal, *device),
    {
        let mut layers: Vec<CLIPEncoderLayer> = Vec::new();
        let mut n: usize = 0;
        while n < num_layers
            invariant
                n <= num_layers,
                num_heads > 0,
                hidden_size * 4 <= usize::MAX,
                layers@.len() == n,
                forall|k: int| 0 <= k < n ==> #[trigger] layers@[k].built_for(hidden_size, num_heads, *device),
            decreases num_layers - n,
        {
            layers.push(CLIPEncoderLayer::new(hidden_size, num_heads, device));
            n += 1;
        }
        CLIPEncoder { layers, is_causal }
    }

    /// The causal text encoder: `transformer_layers` layers of width
    /// `transformer_width` with `transformer_heads` heads.
    fn new_text(config: &CLIPConfig, device: &Device) -> (r: Self)
        requires
            config.transformer_heads > 0,
            config.transformer_width * 4 <= usize::MAX,
        ensures
            r.built_for(config.transformer_width, config.transformer_heads, config.transformer_layers, true, *device),
    {
        CLIPEncoder::new(config.transformer_width, config.transformer_heads, config.transformer_layers, true, device)
    }

    /// The vision encoder: `vision_layers` layers of width `vision_width`
    /// with `vision_heads` heads, attending in both directions.
    fn new_vision(config: &CLIPConfig, device: &Device) -> (r: Self)
        requires
            config.vision_heads > 0,
            config.vision_width * 4 <= usize::MAX,
        ensures
            r.built_for(config.vision_width, config.vision_heads, config.vision_layers, false, *device),
    {
        CLIPEncoder::new(config.vision_width, config.vision_heads, config.vision_layers, false, device)
    }

    /// Places the weights on `device`.
    fn to_device(&mut self, device: &Device)
        ensures
            final(self).moved_from(*old(self), *device),
    {
        let mut taken_layers: Vec<CLIPEncoderLayer> = Vec::new();
        std::mem::swap(&mut taken_layers, &mut self.layers);
        self.layers = CLIPEncoderLayer::all_to_device(taken_layers, device);
    }
}

impl CLIPEncoderLayer {
    /// A layer of width `hidden_size` with `num_heads` heads and an MLP of width `4 * hidden_size`; the norm biases are absent.
    pub closed spec fn built_for(&self, hidden_size: usize, num_heads: usize, device: Device) -> bool {
        let intermediate_size = (hidden_size * 4) as usize;
        &&& self.self_attn.built_for(hidden_size, num_heads, device)
        &&& self.layer_norm1.is_f32(seq![hidden_size], device)
        &&& self.layer_norm1_bias is None
        &&& self.mlp.built_for(hidden_size, intermediate_size, device)
        &&& self.layer_norm2.is_f32(seq![hidden_size], device)
        &&& self.layer_norm2_bias is None
        &&& self.hidden_size == hidden_size
    }

    /// `self` is `old` with its weights placed on `device`.
    pub closed spec fn moved_from(&self, old: Self, device: Device) -> bool {
        &&& self.self_attn.moved_from(old.self_attn, device)
        &&& self.layer_norm1.is_placed(old.layer_norm1, device)
        &&& (match (self.layer_norm1_bias, old.layer_norm1_bias) { (Some(a), Some(b)) => a.is_placed(b, device), (None, None) => true, _ => false })
        &&& self.mlp.moved_from(old.mlp, device)
        &&& self.layer_norm2.is_placed(old.layer_norm2, device)
        &&& (match (self.layer_norm2_bias, old.layer_norm2_bias) { (Some(a), Some(b)) => a.is_placed(b, device), (None, None) => true, _ => false })
        &&& self.hidden_size == old.hidden_size
    }

    fn new(hidden_size: usize, num_heads: usize, device: &Device) -> (r: Self)
        requires
            num_heads > 0,
            hidden_size * 4 <= usize::MAX,
        ensures
            r.built_for(hidden_size, num_heads, *device),
    {
        let intermediate_size = hidden_size * 4;
        let self_attn = CLIPAttention::new(hidden_size, num_heads, device);
        let layer_norm1 = zeros1(hidden_size, device);
        let layer_norm1_bias: Option<Tensor> = None;
        let mlp = CLIPMLP::new(hidden_size, intermediate_size, device);
        let layer_norm2 = zeros1(hidden_size, device);
        let layer_norm2_bias: Option<Tensor> = None;
        CLIPEncoderLayer { self_attn, layer_norm1, layer_norm1_bias, mlp, layer_norm2, layer_norm2_bias, hidden_size }
    }

    /// Places the weights on `device`.
    fn to_device(&mut self, device: &Device)
        ensures
            final(self).moved_from(*old(self), *device),
    {
        self.self_attn.to_device(device);
        self.layer_norm1 = self.layer_norm1.to_device(device);
        let moved_layer_norm1_bias = match &self.layer_norm1_bias { Some(t) => Some(t.to_device(device)), None => None };
        self.layer_norm1_bias = moved_layer_norm1_bias;
        self.mlp.to_device(device);
        self.layer_norm2 = self.layer_norm2.to_device(device);
        let moved_layer_norm2_bias = match &self.layer_norm2_bias { Some(t) => Some(t.to_device(device)), None => None };
        self.layer_norm2_bias = moved_layer_norm2_bias;
    }

    /// The layers, in order, each with its weights placed on `device`.
    fn all_to_device(layers: Vec<CLIPEncoderLayer>, device: &Device) -> (r: Vec<CLIPEncoderLayer>)
        ensures
            r@.len() == layers@.len(),
            forall|k: int| 0 <= k < r@.len() ==> #[trigger] r@[k].moved_from(layers@[k], *device),
    {
        let mut rest = layers;
        let mut moved: Vec<CLIPEncoderLayer> = Vec::new();
        while rest.len() > 0
            invariant
                moved@.len() + rest@.len() == layers@.len(),
                rest@ == layers@.subrange(moved@.len() as int, layers@.len() as int),
                forall|k: int| 0 <= k < moved@.len() ==> #[trigger] moved@[k].moved_from(layers@[k], *device),
            decreases rest@.len(),
        {
            let mut layer = rest.remove(0);
            assert(layer == layers@[moved@.len() as int]);
            layer.to_device(device);
            moved.push(layer);
            assert(rest@ =~= layers@.subrange(moved@.len() as int, layers@.len() as int));
        }
        moved
    }
}

impl CLIPAttention {
    /// Square projections of `hidden_size`, no biases, `num_heads` heads of width `hidden_size / num_heads`.
    pub closed spec fn built_for(&self, hidden_size: usize, num_heads: usize, device: Device) -> bool {
        &&& self.q_proj.is_f32(seq![hidden_size, hidden_size], device)
        &&& self.k_proj.is_f32(seq![hidden_size, hidden_size], device)
        &&& self.v_proj.is_f32(seq![hidden_size, hidden_size], device)
        &&& self.out_proj.is_f32(seq![hidden_size, hidden_size], device)
        &&& self.q_bias is None
        &&& self.k_bias is None
        &&& self.v_bias is None
        &&& self.out_bias is None
        &&& self.num_heads == num_heads
        &&& self.head_dim == hidden_size / num_heads
    }

    /// `self` is `old` with its weights placed on `device`.
    pub closed spec fn moved_from(&self, old: Self, device: Device) -> bool {
        &&& self.q_proj.is_placed(old.q_proj, device)
        &&& self.k_proj.is_placed(old.k_proj, device)
        &&& self.v_proj.is_placed(old.v_proj, device)
        &&& self.out_proj.is_placed(old.out_proj, device)
        &&& (match (self.q_bias, old.q_bias) { (Some(a), Some(b)) => a.is_placed(b, device), (None, None) => true, _ => false })
        &&& (match (self.k_bias, old.k_bias) { (Some(a), Some(b)) => a.is_placed(b, device), (None, None) => true, _ => false })
        &&& (match (self.v_bias, old.v_bias) { (Some(a), Some(b)) => a.is_placed(b, device), (None, None) => true, _ => false })
        &&& (match (self.out_bias, old.out_bias) { (Some(a), Some(b)) => a.is_placed(b, device), (None, None) => true, _ => false })
        &&& self.num_heads == old.num_heads
        &&& self.head_dim == old.head_dim
    }

    fn new(hidden_size: usize, num_heads: usize, device: &Device) -> (r: Self)
        requires
            num_heads > 0,
        ensures
            r.built_for(hidden_size, num_heads, *device),
    {
        let q_proj = zeros2(hidden_size, hidden_size, device);
        let k_proj = zeros2(hidden_size, hidden_size, device);
        let v_proj = zeros2(hidden_size, hidden_size, device);
        let out_proj = zeros2(hidden_size, hidden_size, device);
        let q_bias: Option<Tensor> = None;
        let k_bias: Option<Tensor> = None;
        let v_bias: Option<Tensor> = None;
        let out_bias: Option<Tensor> = None;
        let head_dim = hidden_size / num_heads;
        CLIPAttention { q_proj, k_proj, v_proj, out_proj, q_bias, k_bias, v_bias, out_bias, num_heads, head_dim }
    }

    /// Places the weights on `device`.
    fn to_device(&mut self, device: &Device)
        ensures
            final(self).moved_from(*old(self), *device),
    {
        self.q_proj = self.q_proj.to_device(device);
        self.k_proj = self.k_proj.to_device(device);
        self.v_proj = self.v_proj.to_device(device);
        self.out_proj = self.out_proj.to_device(device);
        let moved_q_bias = match &self.q_bias { Some(t) => Some(t.to_device(device)), None => None };
        self.q_bias = moved_q_bias;
        let moved_k_bias = match &self.k_bias { Some(t) => Some(t.to_device(device)), None => None };
        self.k_bias = moved_k_bias;
        let moved_v_bias = match &self.v_bias { Some(t) => Some(t.to_device(device)), None => None };
        self.v_bias = moved_v_bias;
        let moved_out_bias = match &self.out_bias { Some(t) => Some(t.to_device(device)), None => None };
        self.out_bias = moved_out_bias;
    }
}

impl CLIPMLP {
    /// Matrices `[hidden_size, intermediate_size]` and `[intermediate_size, hidden_size]`, no biases.
    pub closed spec fn built_for(&self, hidden_size: usize, intermediate_size: usize, device: Device) -> bool {
        &&& self.fc1.is_f32(seq![hidden_size, intermediate_size], device)
        &&& self.fc1_bias is None
        &&& self.fc2.is_f32(seq![intermediate_size, hidden_size], device)
        &&& self.fc2_bias is None
        &&& self.hidden_size == hidden_size
        &&& self.intermediate_size == intermediate_size
    }

    /// `self` is `old` with its weights placed on `device`.
    pub closed spec fn moved_from(&self, old: Self, device: Device) -> bool {
        &&& self.fc1.is_placed(old.fc1, device)
        &&& (match (self.fc1_bias, old.fc1_bias) { (Some(a), Some(b)) => a.is_placed(b, device), (None, None) => true, _ => false })
        &&& self.fc2.is_placed(old.fc2, device)
        &&& (match (self.fc2_bias, old.fc2_bias) { (Some(a), Some(b)) => a.is_placed(b, device), (None, None) => true, _ => false })
        &&& self.hidden_size == old.hidden_size
        &&& self.intermediate_size == old.intermediate_size
    }

    fn new(hidden_size: usize, intermediate_size: usize, device: &Device) -> (r: Self)
        ensures
            r.built_for(hidden_size, intermediate_size, *device),
    {
        let fc1 = zeros2(hidden_size, intermediate_size, device);
        let fc1_bias: Option<Tensor> = None;
        let fc2 = zeros2(intermediate_size, hidden_size, device);
        let fc2_bias: Option<Tensor> = None;
        CLIPMLP { fc1, fc1_bias, fc2, fc2_bias, hidden_size, intermediate_size }
    }

    /// Places the weights on `device`.
    fn to_device(&mut self, device: &Device)
        ensures
            final(self).moved_from(*old(self), *device),
    {
        self.fc1 = self.fc1.to_device(device);
        let moved_fc1_bias = match &self.fc1_bias { Some(t) => Some(t.to_device(device)), None => None };
        self.fc1_bias = moved_fc1_bias;
        self.fc2 = self.fc2.to_device(device);
        let moved_fc2_bias = match &self.fc2_bias { Some(t) => Some(t.to_device(device)), None => None };
        self.fc2_bias = moved_fc2_bias;
    }
}
/// Token and position embeddings of the text model.
pub open spec fn clip_text_embedding_params(c: CLIPConfig) -> int {
    c.vocab_size * c.transformer_width + c.context_length * c.transformer_width
}

/// Attention and MLP parameters of the text layers.
pub open spec fn clip_text_layer_params(c: CLIPConfig) -> int {
    c.transformer_layers * (4 * c.transformer_width * c.transformer_width + 2 * c.transformer_width * (c.transformer_width * 4))
}

/// Number of image patches.
pub open spec fn clip_num_patches(c: CLIPConfig) -> int {
    c.image_resolution / c.vision_patch_size * (c.image_resolution / c.vision_patch_size)
}

/// Patch convolution, class embedding and position embeddings of the vision model.
pub open spec fn clip_vision_embedding_params(c: CLIPConfig) -> int {
    3 * c.vision_patch_size * c.vision_patch_size * c.vision_width + c.vision_width + (clip_num_patches(c) + 1) * c.vision_width
}

/// Attention and MLP parameters of the vision layers.
pub open spec fn clip_vision_layer_params(c: CLIPConfig) -> int {
    c.vision_layers * (4 * c.vision_width * c.vision_width + 2 * c.vision_width * (c.vision_width * 4))
}

/// The two projections into the shared space.
pub open spec fn clip_projection_params(c: CLIPConfig) -> int {
    c.transformer_width * c.projection_dim + c.vision_width * c.projection_dim
}

/// All parameters counted by the estimate.
pub open spec fn clip_total_params(c: CLIPConfig) -> int {
    clip_text_embedding_params(c) + clip_text_layer_params(c) + clip_vision_embedding_params(c) + clip_vision_layer_params(c) + clip_projection_params(c)
}

/// Parameter bytes: four per parameter.
pub open spec fn clip_param_bytes(c: CLIPConfig) -> int {
    clip_total_params(c) * 4
}

/// No step of the memory estimate for `CLIPConfig` leaves the range of `usize`
/// or divides by zero.
pub open spec fn clip_memory_fits(c: CLIPConfig) -> bool {
    &&& c.vocab_size * c.transformer_width <= usize::MAX
    &&& c.context_length * c.transformer_width <= usize::MAX
    &&& c.vocab_size * c.transformer_width + c.context_length * c.transformer_width <= usize::MAX
    &&& 4 * c.transformer_width <= usize::MAX
    &&& 4 * c.transformer_width * c.transformer_width <= usize::MAX
    &&& 2 * c.transformer_width <= usize::MAX
    &&& c.transformer_width * 4 <= usize::MAX
    &&& 2 * c.transformer_width * (c.transformer_width * 4) <= usize::MAX
    &&& 4 * c.transformer_width * c.transformer_width + 2 * c.transformer_width * (c.transformer_width * 4) <= usize::MAX
    &&& c.transformer_layers * (4 * c.transformer_width * c.transformer_width + 2 * c.transformer_width * (c.transformer_width * 4)) <= usize::MAX
    &&& c.vision_patch_size > 0
    &&& c.image_resolution / c.vision_patch_size * (c.image_resolution / c.vision_patch_size) <= usize::MAX
    &&& 3 * c.vision_patch_size <= usize::MAX
    &&& 3 * c.vision_patch_size * c.vision_patch_size <= usize::MAX
    &&& 3 * c.vision_patch_size * c.vision_patch_size * c.vision_width <= usize::MAX
    &&& 3 * c.vision_patch_size * c.vision_patch_size * c.vision_width + c.vision_width <= usize::MAX
    &&& c.image_resolution / c.vision_patch_size * (c.image_resolution / c.vision_patch_size) + 1 <= usize::MAX
    &&& (c.image_resolution / c.vision_patch_size * (c.image_resolution / c.vision_patch_size) + 1) * c.vision_width <= usize::MAX
    &&& 3 * c.vision_patch_size * c.vision_patch_size * c.vision_width + c.vision_width + (c.image_resolution / c.vision_patch_size * (c.image_resolution / c.vision_patch_size) + 1) * c.vision_width <= usize::MAX
    &&& 4 * c.vision_width <= usize::MAX
    &&& 4 * c.vision_width * c.vision_width <= usize::MAX
    &&& 2 * c.vision_width <= usize::MAX
    &&& c.vision_width * 4 <= usize::MAX
    &&& 2 * c.vision_width * (c.vision_width * 4) <= usize::MAX
    &&& 4 * c.vision_width * c.vision_width + 2 * c.vision_width * (c.vision_width * 4) <= usize::MAX
    &&& c.vision_layers * (4 * c.vision_width * c.vision_width + 2 * c.vision_width * (c.vision_width * 4)) <= usize::MAX
    &&& c.transformer_width * c.projection_dim <= usize::MAX
    &&& c.vision_width * c.projection_dim <= usize::MAX
    &&& c.transformer_width * c.projection_dim + c.vision_width * c.projection_dim <= usize::MAX
    &&& c.vocab_size * c.transformer_width + c.context_length * c.transformer_width + c.transformer_layers * (4 * c.transformer_width * c.transformer_width + 2 * c.transformer_width * (c.transformer_width * 4)) <= usize::MAX
    &&& c.vocab_size * c.transformer_width + c.context_length * c.transformer_width + c.transformer_layers * (4 * c.transformer_width * c.transformer_width + 2 * c.transformer_width * (c.transformer_width * 4)) + (3 * c.vision_patch_size * c.vision_patch_size * c.vision_width + c.vision_width + (c.image_resolution / c.vision_patch_size * (c.image_resolution / c.vision_patch_size) + 1) * c.vision_width) <= usize::MAX
    &&& c.vocab_size * c.transformer_width + c.context_length * c.transformer_width + c.transformer_layers * (4 * c.transformer_width * c.transformer_width + 2 * c.transformer_width * (c.transformer_width * 4)) + (3 * c.vision_patch_size * c.vision_patch_size * c.vision_width + c.vision_width + (c.image_resolution / c.vision_patch_size * (c.image_resolution / c.vision_patch_size) + 1) * c.vision_width) + c.vision_layers * (4 * c.vision_width * c.vision_width + 2 * c.vision_width * (c.vision_width * 4)) <= usize::MAX
    &&& c.vocab_size * c.transformer_width + c.context_length * c.transformer_width + c.transformer_layers * (4 * c.transformer_width * c.transformer_width + 2 * c.transformer_width * (c.transformer_width * 4)) + (3 * c.vision_patch_size * c.vision_patch_size * c.vision_width + c.vision_width + (c.image_resolution / c.vision_patch_size * (c.image_resolution / c.vision_patch_size) + 1) * c.vision_width) + c.vision_layers * (4 * c.vision_width * c.vision_width + 2 * c.vision_width * (c.vision_width * 4)) + (c.transformer_width * c.projection_dim + c.vision_width * c.projection_dim) <= usize::MAX
    &&& (c.vocab_size * c.transformer_width + c.context_length * c.transformer_width + c.transformer_layers * (4 * c.transformer_width * c.transformer_width + 2 * c.transformer_width * (c.transformer_width * 4)) + (3 * c.vision_patch_size * c.vision_patch_size * c.vision_width + c.vision_width + (c.image_resolution / c.vision_patch_size * (c.image_resolution / c.vision_patch_size) + 1) * c.vision_width) + c.vision_layers * (4 * c.vision_width * c.vision_width + 2 * c.vision_width * (c.vision_width * 4)) + (c.transformer_width * c.projection_dim + c.vision_width * c.projection_dim)) * 4 <= usize::MAX
    &&& (c.vocab_size * c.transformer_width + c.context_length * c.transformer_width + c.transformer_layers * (4 * c.transformer_width * c.transformer_width + 2 * c.transformer_width * (c.transformer_width * 4)) + (3 * c.vision_patch_size * c.vision_patch_size * c.vision_width + c.vision_width + (c.image_resolution / c.vision_patch_size * (c.image_resolution / c.vision_patch_size) + 1) * c.vision_width) + c.vision_layers * (4 * c.vision_width * c.vision_width + 2 * c.vision_width * (c.vision_width * 4)) + (c.transformer_width * c.projection_dim + c.vision_width * c.projection_dim)) * 4 * 2 <= usize::MAX
}

impl CLIPModelV2 {
    /// Estimated memory: the parameter bytes on the GPU, a quarter of them on the CPU, no key-value cache, and twice the parameters at peak.
    pub fn memory_requirements(&self) -> (r: MemoryRequirements)
        requires
            clip_memory_fits(self.spec_config()),
        ensures
            r.gpu_memory == clip_param_bytes(self.spec_config()),
            r.cpu_memory == clip_param_bytes(self.spec_config()) / 4,
            r.kv_cache_memory == 0,
            r.peak_memory == clip_param_bytes(self.spec_config()) * 2,
    {
        let c = &self.config;
        let text_embedding_params = c.vocab_size * c.transformer_width + c.context_length * c.transformer_width;
        let text_layer_params = c.transformer_layers * (4 * c.transformer_width * c.transformer_width + 2 * c.transformer_width * (c.transformer_width * 4));
        let num_patches = (c.image_resolution / c.vision_patch_size) * (c.image_resolution / c.vision_patch_size);
        let vision_embedding_params = 3 * c.vision_patch_size * c.vision_patch_size * c.vision_width + c.vision_width + (num_patches + 1) * c.vision_width;
        let vision_layer_params = c.vision_layers * (4 * c.vision_width * c.vision_width + 2 * c.vision_width * (c.vision_width * 4));
        let projection_params = c.transformer_width * c.projection_dim + c.vision_width * c.projection_dim;
        let total_params = text_embedding_params + text_layer_params + vision_embedding_params + vision_layer_params + projection_params;
        let param_bytes = total_params * 4;
        MemoryRequirements {
            gpu_memory: param_bytes,
            cpu_memory: param_bytes / 4,
            kv_cache_memory: 0,
            peak_memory: param_bytes * 2,
        }
    }
}

impl CLIPModelV2 {
    /// CLIP compares images and texts and does not generate text: always an error.
    pub fn generate(&self, _prompt: &str, _config: &GenerationConfig) -> (r: Result<String, ModelError>)
        ensures
            r matches Err(ModelError::Unsupported(m)) && m@ == "CLIP is a contrastive model for computing image-text similarity. It does not support text generation. Use encode_text() and encode_image() to compute embeddings, then compare them for similarity."@,
    {
        Err(ModelError::Unsupported(String::from_str("CLIP is a contrastive model for computing image-text similarity. It does not support text generation. Use encode_text() and encode_image() to compute embeddings, then compare them for similarity.")))
    }
}

impl CLIPModelV2 {
    /// `self` is `old` after loading from `weights`: each weight whose
    /// checkpoint name `weights` holds takes that tensor's shape, element
    /// type, device and elements (as is, or transposed for a matrix product),
    /// and nothing else changes.
    pub closed spec fn loaded(&self, old: Self, weights: ModelWeights) -> bool {
        &&& self.config == old.config
        &&& self.device == old.device
        &&& self.text_model.loaded(old.text_model, weights)
        &&& self.vision_model.loaded(old.vision_model, weights)
        &&& transposed(self.text_projection, old.text_projection, first_found(weights, seq!["text_projection.weight"@, "text_projection"@]))
        &&& transposed(self.visual_projection, old.visual_projection, first_found(weights, seq!["visual_projection.weight"@, "visual_projection"@]))
        &&& copied(self.logit_scale, old.logit_scale, weights.lookup("logit_scale"@))
    }

    /// Every tensor that loading from `weights` would transpose has at least
    /// two dimensions.
    pub closed spec fn loadable(&self, weights: ModelWeights) -> bool {
        &&& transposable(first_found(weights, seq!["text_projection.weight"@, "text_projection"@]))
        &&& transposable(first_found(weights, seq!["visual_projection.weight"@, "visual_projection"@]))
        &&& self.text_model.loadable(weights)
        &&& self.vision_model.loadable(weights)
    }

    /// Loads the weights of `weights` that this part names.
    fn load_weights(&mut self, weights: &ModelWeights) -> (r: Result<(), ModelError>)
        ensures
            r is Ok <==> old(self).loadable(*weights),
            r is Ok ==> final(self).loaded(*old(self), *weights),
            r matches Err(e) ==> is_transpose_error(e),
    {
        take_transposed(&mut self.text_projection, get_first2(weights, "text_projection.weight", "text_projection"))?;
        take_transposed(&mut self.visual_projection, get_first2(weights, "visual_projection.weight", "visual_projection"))?;
        load_copy(&mut self.logit_scale, weights, "logit_scale");
        self.text_model.load_weights(weights)?;
        self.vision_model.load_weights(weights)?;
        Ok(())
    }
}

impl CLIPTextTransformer {
    /// `self` is `old` after loading from `weights`: each weight whose
    /// checkpoint name `weights` holds takes that tensor's shape, element
    /// type, device and elements (as is, or transposed for a matrix product),
    /// and nothing else changes.
    pub closed spec fn loaded(&self, old: Self, weights: ModelWeights) -> bool {
        &&& self.embeddings.loaded(old.embeddings, weights)
        &&& self.encoder.loaded(old.encoder, weights, "text_model"@)
        &&& copied(self.final_layer_norm, old.final_layer_norm, weights.lookup("text_model.final_layer_norm.weight"@))
        &&& copied_opt(self.final_layer_norm_bias, old.final_layer_norm_bias, weights.lookup("text_model.final_layer_norm.bias"@))
        &&& self.config == old.config
        &&& self.is_causal == old.is_causal
    }

    /// Every tensor that loading from `weights` would transpose has at least
    /// two dimensions.
    pub closed spec fn loadable(&self, weights: ModelWeights) -> bool {
        &&& self.embeddings.loadable(weights)
        &&& self.encoder.loadable(weights, "text_model"@)
    }

    /// Loads the weights of `weights` that this part names.
    fn load_weights(&mut self, weights: &ModelWeights) -> (r: Result<(), ModelError>)
        ensures
            r is Ok <==> old(self).loadable(*weights),
            r is Ok ==> final(self).loaded(*old(self), *weights),
            r matches Err(e) ==> is_transpose_error(e),
    {
        load_copy(&mut self.final_layer_norm, weights, "text_model.final_layer_norm.weight");
        load_copy_opt(&mut self.final_layer_norm_bias, weights, "text_model.final_layer_norm.bias");
        self.embeddings.load_weights(weights)?;
        self.encoder.load_weights(weights, "text_model")?;
        Ok(())
    }
}

impl CLIPVisionTransformer {
    /// `self` is `old` after loading from `weights`: each weight whose
    /// checkpoint name `weights` holds takes that tensor's shape, element
    /// type, device and elements (as is, or transposed for a matrix product),
    /// and nothing else changes.
    pub closed spec fn loaded(&self, old: Self, weights: ModelWeights) -> bool {
        &&& self.embeddings.loaded(old.embeddings, weights)
        &&& copied(self.pre_layernorm, old.pre_layernorm, first_found(weights, seq!["vision_model.pre_layrnorm.weight"@, "vision_model.pre_layernorm.weight"@]))
        &&& copied_opt(self.pre_layernorm_bias, old.pre_layernorm_bias, first_found(weights, seq!["vision_model.pre_layrnorm.bias"@, "vision_model.pre_layernorm.bias"@]))
        &&& self.encoder.loaded(old.encoder, weights, "vision_model"@)
        &&& copied(self.post_layernorm, old.post_layernorm, weights.lookup("vision_model.post_layernorm.weight"@))
        &&& copied_opt(self.post_layernorm_bias, old.post_layernorm_bias, weights.lookup("vision_model.post_layernorm.bias"@))
        &&& self.config == old.config
    }

    /// Every tensor that loading from `weights` would transpose has at least
    /// two dimensions.
    pub closed spec fn loadable(&self, weights: ModelWeights) -> bool {
        &&& self.embeddings.loadable(weights)
        &&& self.encoder.loadable(weights, "vision_model"@)
    }

    /// Loads the weights of `weights` that this part names.
    fn load_weights(&mut self, weights: &ModelWeights) -> (r: Result<(), ModelError>)
        ensures
            r is Ok <==> old(self).loadable(*weights),
            r is Ok ==> final(self).loaded(*old(self), *weights),
            r matches Err(e) ==> is_transpose_error(e),
    {
        take_copy(&mut self.pre_layernorm, get_first2(weights, "vision_model.pre_layrnorm.weight", "vision_model.pre_layernorm.weight"));
        take_copy_opt(&mut self.pre_layernorm_bias, get_first2(weights, "vision_model.pre_layrnorm.bias", "vision_model.pre_layernorm.bias"));
        load_copy(&mut self.post_layernorm, weights, "vision_model.post_layernorm.weight");
        load_copy_opt(&mut self.post_layernorm_bias, weights, "vision_model.post_layernorm.bias");
        self.embeddings.load_weights(weights)?;
        self.encoder.load_weights(weights, "vision_model")?;
        Ok(())
    }
}

impl CLIPTextEmbeddings {
    /// `self` is `old` after loading from `weights`: each weight whose
    /// checkpoint name `weights` holds takes that tensor's shape, element
    /// type, device and elements (as is, or transposed for a matrix product),
    /// and nothing else changes.
    pub closed spec fn loaded(&self, old: Self, weights: ModelWeights) -> bool {
        &&& copied(self.token_embedding, old.token_embedding, weights.lookup("text_model.embeddings.token_embedding.weight"@))
        &&& copied(self.position_embedding, old.position_embedding, weights.lookup("text_model.embeddings.position_embedding.weight"@))
        &&& self.config == old.config
    }

    /// Every tensor that loading from `weights` would transpose has at least
    /// two dimensions.
    pub closed spec fn loadable(&self, weights: ModelWeights) -> bool {
        true
    }

    /// Loads the weights of `weights` that this part names.
    fn load_weights(&mut self, weights: &ModelWeights) -> (r: Result<(), ModelError>)
        ensures
            r is Ok <==> old(self).loadable(*weights),
            r is Ok ==> final(self).loaded(*old(self), *weights),
            r matches Err(e) ==> is_transpose_error(e),
    {
        load_copy(&mut self.token_embedding, weights, "text_model.embeddings.token_embedding.weight");
        load_copy(&mut self.position_embedding, weights, "text_model.embeddings.position_embedding.weight");
        Ok(())
    }
}

impl CLIPVisionEmbeddings {
    /// `self` is `old` after loading from `weights`: each weight whose
    /// checkpoint name `weights` holds takes that tensor's shape, element
    /// type, device and elements (as is, or transposed for a matrix product),
    /// and nothing else changes.
    pub closed spec fn loaded(&self, old: Self, weights: ModelWeights) -> bool {
        &&& copied(self.patch_embedding, old.patch_embedding, weights.lookup("vision_model.embeddings.patch_embedding.weight"@))
        &&& copied(self.class_embedding, old.class_embedding, weights.lookup("vision_model.embeddings.class_embedding"@))
        &&& copied(self.position_embedding, old.position_embedding, weights.lookup("vision_model.embeddings.position_embedding.weight"@))
        &&& self.config == old.config
    }

    /// Every tensor that loading from `weights` would transpose has at least
    /// two dimensions.
    pub closed spec fn loadable(&self, weights: ModelWeights) -> bool {
        true
    }

    /// Loads the weights of `weights` that this part names.
    fn load_weights(&mut self, weights: &ModelWeights) -> (r: Result<(), ModelError>)
        ensures
            r is Ok <==> old(self).loadable(*weights),
            r is Ok ==> final(self).loaded(*old(self), *weights),
            r matches Err(e) ==> is_transpose_error(e),
    {
        load_copy(&mut self.patch_embedding, weights, "vision_model.embeddings.patch_embedding.weight");
        load_copy(&mut self.class_embedding, weights, "vision_model.embeddings.class_embedding");
        load_copy(&mut self.position_embedding, weights, "vision_model.embeddings.position_embedding.weight");
        Ok(())
    }
}

impl CLIPEncoder {
    /// `self` is `old` after loading from `weights`: each weight whose
    /// checkpoint name `weights` holds takes that tensor's shape, element
    /// type, device and elements (as is, or transposed for a matrix product),
    /// and nothing else changes.
    pub closed spec fn loaded(&self, old: Self, weights: ModelWeights, prefix: Seq<char>) -> bool {
        &&& self.layers@.len() == old.layers@.len()
        &&& forall|k: int| 0 <= k < old.layers@.len() ==> #[trigger] self.layers@[k].loaded(old.layers@[k], weights, indexed(joined(prefix, ".encoder.layers."@), k, ""@))
        &&& self.is_causal == old.is_causal
    }

    /// Every tensor that loading from `weights` would transpose has at least
    /// two dimensions.
    pub closed spec fn loadable(&self, weights: ModelWeights, prefix: Seq<char>) -> bool {
        &&& forall|k: int| 0 <= k < self.layers@.len() ==> #[trigger] self.layers@[k].loadable(weights, indexed(joined(prefix, ".encoder.layers."@), k, ""@))
    }

    /// Loads the weights of `weights` that this part names.
    fn load_weights(&mut self, weights: &ModelWeights, prefix: &str) -> (r: Result<(), ModelError>)
        ensures
            r is Ok <==> old(self).loadable(*weights, prefix@),
            r is Ok ==> final(self).loaded(*old(self), *weights, prefix@),
            r matches Err(e) ==> is_transpose_error(e),
    {
        let mut taken_layers: Vec<CLIPEncoderLayer> = Vec::new();
        std::mem::swap(&mut taken_layers, &mut self.layers);
        self.layers = Self::load_layers(taken_layers, weights, prefix)?;
        Ok(())
    }

    /// Loads each of `items`, in order, from `weights`.
    fn load_layers(items: Vec<CLIPEncoderLayer>, weights: &ModelWeights, prefix: &str) -> (r: Result<Vec<CLIPEncoderLayer>, ModelError>)
        ensures
            r is Ok <==> forall|k: int| 0 <= k < items@.len() ==> #[trigger] items@[k].loadable(*weights, indexed(joined(prefix@, ".encoder.layers."@), k, ""@)),
            r matches Ok(v) ==> v@.len() == items@.len() && forall|k: int| 0 <= k < items@.len() ==> #[trigger] v@[k].loaded(items@[k], *weights, indexed(joined(prefix@, ".encoder.layers."@), k, ""@)),
            r matches Err(e) ==> is_transpose_error(e),
    {
        let mut rest = items;
        let mut done: Vec<CLIPEncoderLayer> = Vec::new();
        while rest.len() > 0
            invariant
                done@.len() + rest@.len() == items@.len(),
                rest@ == items@.subrange(done@.len() as int, items@.len() as int),
                forall|k: int| 0 <= k < done@.len() ==> #[trigger] done@[k].loaded(items@[k], *weights, indexed(joined(prefix@, ".encoder.layers."@), k, ""@)),
                forall|k: int| 0 <= k < done@.len() ==> #[trigger] items@[k].loadable(*weights, indexed(joined(prefix@, ".encoder.layers."@), k, ""@)),
            decreases rest@.len(),
        {
            let n = done.len();
            let mut item = rest.remove(0);
            assert(item == items@[n as int]);
            match item.load_weights(weights, indexed_name(joined_name(prefix, ".encoder.layers.").as_str(), n, "").as_str()) {
                Ok(()) => {},
                Err(e) => {
                    assert(!items@[n as int].loadable(*weights, indexed(joined(prefix@, ".encoder.layers."@), n as int, ""@)));
                    return Err(e);
                },
            }
            done.push(item);
            assert(rest@ =~= items@.subrange(done@.len() as int, items@.len() as int));
        }
        Ok(done)
    }
}

impl CLIPEncoderLayer {
    /// `self` is `old` after loading from `weights`: each weight whose
    /// checkpoint name `weights` holds takes that tensor's shape, element
    /// type, device and elements (as is, or transposed for a matrix product),
    /// and nothing else changes.
    pub closed spec fn loaded(&self, old: Self, weights: ModelWeights, prefix: Seq<char>) -> bool {
        &&& self.self_attn.loaded(old.self_attn, weights, joined(prefix, ".self_attn"@))
        &&& copied(self.layer_norm1, old.layer_norm1, weights.lookup(joined(prefix, ".layer_norm1.weight"@)))
        &&& copied_opt(self.layer_norm1_bias, old.layer_norm1_bias, weights.lookup(joined(prefix, ".layer_norm1.bias"@)))
        &&& self.mlp.loaded(old.mlp, weights, joined(prefix, ".mlp"@))
        &&& copied(self.layer_norm2, old.layer_norm2, weights.lookup(joined(prefix, ".layer_norm2.weight"@)))
        &&& copied_opt(self.layer_norm2_bias, old.layer_norm2_bias, weights.lookup(joined(prefix, ".layer_norm2.bias"@)))
        &&& self.hidden_size == old.hidden_size
    }

    /// Every tensor that loading from `weights` would transpose has at least
    /// two dimensions.
    pub closed spec fn loadable(&self, weights: ModelWeights, prefix: Seq<char>) -> bool {
        &&& self.self_attn.loadable(weights, joined(prefix, ".self_attn"@))
        &&& self.mlp.loadable(weights, joined(prefix, ".mlp"@))
    }

    /// Loads the weights of `weights` that this part names.
    fn load_weights(&mut self, weights: &ModelWeights, prefix: &str) -> (r: Result<(), ModelError>)
        ensures
            r is Ok <==> old(self).loadable(*weights, prefix@),
            r is Ok ==> final(self).loaded(*old(self), *weights, prefix@),
            r matches Err(e) ==> is_transpose_error(e),
    {
        load_copy(&mut self.layer_norm1, weights, joined_name(prefix, ".layer_norm1.weight").as_str());
        load_copy_opt(&mut self.layer_norm1_bias, weights, joined_name(prefix, ".layer_norm1.bias").as_str());
        load_copy(&mut self.layer_norm2, weights, joined_name(prefix, ".layer_norm2.weight").as_str());
        load_copy_opt(&mut self.layer_norm2_bias, weights, joined_name(prefix, ".layer_norm2.bias").as_str());
        self.self_attn.load_weights(weights, joined_name(prefix, ".self_attn").as_str())?;
        self.mlp.load_weights(weights, joined_name(prefix, ".mlp").as_str())?;
        Ok(())
    }
}

impl CLIPAttention {
    /// `self` is `old` after loading from `weights`: each weight whose
    /// checkpoint name `weights` holds takes that tensor's shape, element
    /// type, device and elements (as is, or transposed for a matrix product),
    /// and nothing else changes.
    pub closed spec fn loaded(&self, old: Self, weights: ModelWeights, prefix: Seq<char>) -> bool {
        &&& transposed(self.q_proj, old.q_proj, weights.lookup(joined(prefix, ".q_proj.weight"@)))
        &&& transposed(self.k_proj, old.k_proj, weights.lookup(joined(prefix, ".k_proj.weight"@)))
        &&& transposed(self.v_proj, old.v_proj, weights.lookup(joined(prefix, ".v_proj.weight"@)))
        &&& transposed(self.out_proj, old.out_proj, weights.lookup(joined(prefix, ".out_proj.weight"@)))
        &&& copied_opt(self.q_bias, old.q_bias, weights.lookup(joined(prefix, ".q_proj.bias"@)))
        &&& copied_opt(self.k_bias, old.k_bias, weights.lookup(joined(prefix, ".k_proj.bias"@)))
        &&& copied_opt(self.v_bias, old.v_bias, weights.lookup(joined(prefix, ".v_proj.bias"@)))
        &&& copied_opt(self.out_bias, old.out_bias, weights.lookup(joined(prefix, ".out_proj.bias"@)))
        &&& self.num_heads == old.num_heads
        &&& self.head_dim == old.head_dim
    }

    /// Every tensor that loading from `weights` would transpose has at least
    /// two dimensions.
    pub closed spec fn loadable(&self, weights: ModelWeights, prefix: Seq<char>) -> bool {
        &&& transposable(weights.lookup(joined(prefix, ".q_proj.weight"@)))
        &&& transposable(weights.lookup(joined(prefix, ".k_proj.weight"@)))
        &&& transposable(weights.lookup(joined(prefix, ".v_proj.weight"@)))
        &&& transposable(weights.lookup(joined(prefix, ".out_proj.weight"@)))
    }

    /// Loads the weights of `weights` that this part names.
    fn load_weights(&mut self, weights: &ModelWeights, prefix: &str) -> (r: Result<(), ModelError>)
        ensures
            r is Ok <==> old(self).loadable(*weights, prefix@),
            r is Ok ==> final(self).loaded(*old(self), *weights, prefix@),
            r matches Err(e) ==> is_transpose_error(e),
    {
        load_transposed(&mut self.q_proj, weights, joined_name(prefix, ".q_proj.weight").as_str())?;
        load_transposed(&mut self.k_proj, weights, joined_name(prefix, ".k_proj.weight").as_str())?;
        load_transposed(&mut self.v_proj, weights, joined_name(prefix, ".v_proj.weight").as_str())?;
        load_transposed(&mut self.out_proj, weights, joined_name(prefix, ".out_proj.weight").as_str())?;
        load_copy_opt(&mut self.q_bias, weights, joined_name(prefix, ".q_proj.bias").as_str());
        load_copy_opt(&mut self.k_bias, weights, joined_name(prefix, ".k_proj.bias").as_str());
        load_copy_opt(&mut self.v_bias, weights, joined_name(prefix, ".v_proj.bias").as_str());
        load_copy_opt(&mut self.out_bias, weights, joined_name(prefix, ".out_proj.bias").as_str());
        Ok(())
    }
}

impl CLIPMLP {
    /// `self` is `old` after loading from `weights`: each weight whose
    /// checkpoint name `weights` holds takes that tensor's shape, element
    /// type, device and elements (as is, or transposed for a matrix product),
    /// and nothing else changes.
    pub closed spec fn loaded(&self, old: Self, weights: ModelWeights, prefix: Seq<char>) -> bool {
        &&& transposed(self.fc1, old.fc1, weights.lookup(joined(prefix, ".fc1.weight"@)))
        &&& copied_opt(self.fc1_bias, old.fc1_bias, weights.lookup(joined(prefix, ".fc1.bias"@)))
        &&& transposed(self.fc2, old.fc2, weights.lookup(joined(prefix, ".fc2.weight"@)))
        &&& copied_opt(self.fc2_bias, old.fc2_bias, weights.lookup(joined(prefix, ".fc2.bias"@)))
        &&& self.hidden_size == old.hidden_size
        &&& self.intermediate_size == old.intermediate_size
    }

    /// Every tensor that loading from `weights` would transpose has at least
    /// two dimensions.
    pub closed spec fn loadable(&self, weights: ModelWeights, prefix: Seq<char>) -> bool {
        &&& transposable(weights.lookup(joined(prefix, ".fc1.weight"@)))
        &&& transposable(weights.lookup(joined(prefix, ".fc2.weight"@)))
    }

    /// Loads the weights of `weights` that this part names.
    fn load_weights(&mut self, weights: &ModelWeights, prefix: &str) -> (r: Result<(), ModelError>)
        ensures
            r is Ok <==> old(self).loadable(*weights, prefix@),
            r is Ok ==> final(self).loaded(*old(self), *weights, prefix@),
            r matches Err(e) ==> is_transpose_error(e),
    {
        load_transposed(&mut self.fc1, weights, joined_name(prefix, ".fc1.weight").as_str())?;
        load_copy_opt(&mut self.fc1_bias, weights, joined_name(prefix, ".fc1.bias").as_str());
        load_transposed(&mut self.fc2, weights, joined_name(prefix, ".fc2.weight").as_str())?;
        load_copy_opt(&mut self.fc2_bias, weights, joined_name(prefix, ".fc2.bias").as_str());
        Ok(())
    }
}


impl CLIPModelV2 {
    /// Builds the model for `config` as `new` does and loads the weights that
    /// `weights` holds under their checkpoint names: the result is the built
    /// model with those weights taken, and an error exactly when a tensor that
    /// must be transposed has fewer than two dimensions.
    pub fn from_weights(config: CLIPConfig, weights: ModelWeights) -> (r: Result<Self, ModelError>)
        requires
            config.transformer_heads > 0,
            config.vision_heads > 0,
            config.transformer_width * 4 <= usize::MAX,
            config.vision_width * 4 <= usize::MAX,
            config.vision_patch_size > 0,
            config.spec_num_patches() + 1 <= usize::MAX,
        ensures
            exists|built: Self| #[trigger] built.built_for(config, Device::CPU) && built.spec_config() == config
                && built.spec_device() == Device::CPU && (r is Ok <==> built.loadable(weights))
                && (r matches Ok(m) ==> m.spec_config() == config && m.spec_device() == Device::CPU && m.loaded(built, weights))
                && (r matches Err(e) ==> is_transpose_error(e)),
    {
        let mut model = match Self::new(config) {
            Ok(m) => m,
            Err(e) => {
                return Err(e);
            },
        };
        let ghost built = model;
        match model.load_weights(&weights) {
            Ok(()) => {
                assert(built.built_for(config, Device::CPU));
                Ok(model)
            },
            Err(e) => {
                assert(built.built_for(config, Device::CPU));
                Err(e)
            },
        }
    }
}

impl CLIPModelV2 {
    /// Moving to `d1` and then to `d2` leaves the model as a single move to
    /// `d2` would: the second move overrides the first.
    pub proof fn lemma_moves_compose(first: Self, second: Self, third: Self, d1: Device, d2: Device)
        requires
            second.moved_from(first, d1),
            third.moved_from(second, d2),
        ensures
            third.moved_from(first, d2),
    {
        CLIPTextTransformer::lemma_moves_compose(first.text_model, second.text_model, third.text_model, d1, d2);
        CLIPVisionTransformer::lemma_moves_compose(first.vision_model, second.vision_model, third.vision_model, d1, d2);
    }
}

impl CLIPTextTransformer {
    /// A move to `d1` followed by a move to `d2` is a move to `d2`.
    proof fn lemma_moves_compose(first: Self, second: Self, third: Self, d1: Device, d2: Device)
        requires
            second.moved_from(first, d1),
            third.moved_from(second, d2),
        ensures
            third.moved_from(first, d2),
    {
        CLIPTextEmbeddings::lemma_moves_compose(first.embeddings, second.embeddings, third.embeddings, d1, d2);
        CLIPEncoder::lemma_moves_compose(first.encoder, second.encoder, third.encoder, d1, d2);
    }
}

impl CLIPVisionTransformer {
    /// A move to `d1` followed by a move to `d2` is a move to `d2`.
    proof fn lemma_moves_compose(first: Self, second: Self, third: Self, d1: Device, d2: Device)
        requires
            second.moved_from(first, d1),
            third.moved_from(second, d2),
        ensures
            third.moved_from(first, d2),
    {
        CLIPVisionEmbeddings::lemma_moves_compose(first.embeddings, second.embeddings, third.embeddings, d1, d2);
        CLIPEncoder::lemma_moves_compose(first.encoder, second.encoder, third.encoder, d1, d2);
    }
}

impl CLIPTextEmbeddings {
    /// A move to `d1` followed by a move to `d2` is a move to `d2`.
    proof fn lemma_moves_compose(first: Self, second: Self, third: Self, d1: Device, d2: Device)
        requires
            second.moved_from(first, d1),
            third.moved_from(second, d2),
        ensures
            third.moved_from(first, d2),
    {
    }
}

impl CLIPVisionEmbeddings {
    /// A move to `d1` followed by a move to `d2` is a move to `d2`.
    proof fn lemma_moves_compose(first: Self, second: Self, third: Self, d1: Device, d2: Device)
        requires
            second.moved_from(first, d1),
            third.moved_from(second, d2),
        ensures
            third.moved_from(first, d2),
    {
    }
}

impl CLIPEncoder {
    /// A move to `d1` followed by a move to `d2` is a move to `d2`.
    proof fn lemma_moves_compose(first: Self, second: Self, third: Self, d1: Device, d2: Device)
        requires
            second.moved_from(first, d1),
            third.moved_from(second, d2),
        ensures
            third.moved_from(first, d2),
    {
        assert forall|k: int| 0 <= k < third.layers@.len() implies #[trigger] third.layers@[k].moved_from(first.layers@[k], d2) by {
            CLIPEncoderLayer::lemma_moves_compose(first.layers@[k], second.layers@[k], third.layers@[k], d1, d2);
        }
    }
}

impl CLIPEncoderLayer {
    /// A move to `d1` followed by a move to `d2` is a move to `d2`.
    proof fn lemma_moves_compose(first: Self, second: Self, third: Self, d1: Device, d2: Device)
        requires
            second.moved_from(first, d1),
            third.moved_from(second, d2),
        ensures
            third.moved_from(first, d2),
    {
        CLIPAttention::lemma_moves_compose(first.self_attn, second.self_attn, third.self_attn, d1, d2);
        CLIPMLP::lemma_moves_compose(first.mlp, second.mlp, third.mlp, d1, d2);
    }
}

impl CLIPAttention {
    /// A move to `d1` followed by a move to `d2` is a move to `d2`.
    proof fn lemma_moves_compose(first: Self, second: Self, third: Self, d1: Device, d2: Device)
        requires
            second.moved_from(first, d1),
            third.moved_from(second, d2),
        ensures
            third.moved_from(first, d2),
    {
    }
}

impl CLIPMLP {
    /// A move to `d1` followed by a move to `d2` is a move to `d2`.
    proof fn lemma_moves_compose(first: Self, second: Self, third: Self, d1: Device, d2: Device)
        requires
            second.moved_from(first, d1),
            third.moved_from(second, d2),
        ensures
            third.moved_from(first, d2),
    {
    }
}

} // verus!

verus! {

impl CLIPConfig {
    /// The default configuration has these sizes: the clauses below.
    pub proof fn lemma_default_sizes(&self)
        requires
            self.gguf_fields_default(),
        ensures
            self.vocab_size == 49408,
            self.hidden_size == 512,
            self.num_hidden_layers == 12,
            self.transformer_width == 512,
            self.transformer_heads == 8,
            self.transformer_layers == 12,
            self.vision_layers == 12,
            self.vision_width == 768,
            self.vision_heads == 12,
    {
    }

    /// The default configuration has these remaining settings: the clauses below.
    pub proof fn lemma_default_settings(&self)
        requires
            self.other_fields_default(),
        ensures
            self.context_length == 77,
            self.image_resolution == 224,
            self.vision_patch_size == 32,
            self.embed_dim == 512,
            self.projection_dim == 512,
            self.layer_norm_eps.bits == 0x3727c5ac,
            self.attention_dropout.bits == 0x00000000,
            self.initializer_range.bits == 0x3ca3d70a,
    {
    }

    /// The default configuration is the one with the default sizes and settings: the clauses below.
    pub proof fn lemma_default_parts(&self)
        requires
            self.is_default(),
        ensures
            ({
            self.gguf_fields_default() && self.other_fields_default()
        }),
    {
    }
}

impl CLIPModelV2 {
    /// Built for `config` on `device`, each weight is the zero tensor of the shape the configuration gives, on `device`, and each recorded size is the configured one: the clauses below.
    pub proof fn lemma_built_weights(&self, config: CLIPConfig, device: Device)
        requires
            self.built_for(config, device),
        ensures
            self.text_model.built_for(config, device),
            self.vision_model.built_for(config, device),
            self.text_projection.is_f32(seq![config.transformer_width, config.projection_dim], device),
            self.visual_projection.is_f32(seq![config.vision_width, config.projection_dim], device),
            self.logit_scale.is_f32(seq![(1) as usize], device),
    {
    }

    /// After a move to `device`, every weight lies on `device` with its shape, element type and elements kept, and nothing else changes: the clauses below.
    pub proof fn lemma_moved_weights(&self, before: Self, device: Device)
        requires
            self.moved_from(before, device),
        ensures
            self.config == before.config,
            self.device == device,
            self.text_model.moved_from(before.text_model, device),
            self.vision_model.moved_from(before.vision_model, device),
            self.text_projection.is_placed(before.text_projection, device),
            self.visual_projection.is_placed(before.visual_projection, device),
            self.logit_scale.is_placed(before.logit_scale, device),
    {
    }

    /// After loading from `weights`, each weight holds the tensor stored under its checkpoint name, copied or transposed, and keeps its previous value when the name is absent; nothing else changes: the clauses below.
    pub proof fn lemma_loaded_weights(&self, before: Self, weights: ModelWeights)
        requires
            self.loaded(before, weights),
        ensures
            self.config == before.config,
            self.device == before.device,
            self.text_model.loaded(before.text_model, weights),
            self.vision_model.loaded(before.vision_model, weights),
            transposed(self.text_projection, before.text_projection, first_found(weights, seq!["text_projection.weight"@, "text_projection"@])),
            transposed(self.visual_projection, before.visual_projection, first_found(weights, seq!["visual_projection.weight"@, "visual_projection"@])),
            copied(self.logit_scale, before.logit_scale, weights.lookup("logit_scale"@)),
    {
    }

    /// Loading from `weights` succeeds only when every tensor it must transpose, found under these checkpoint names, has at least two dimensions: the clauses below.
    pub proof fn lemma_loadable_names(&self, weights: ModelWeights)
        requires
            self.loadable(weights),
        ensures
            transposable(first_found(weights, seq!["text_projection.weight"@, "text_projection"@])),
            transposable(first_found(weights, seq!["visual_projection.weight"@, "visual_projection"@])),
            self.text_model.loadable(weights),
            self.vision_model.loadable(weights),
    {
    }
}

impl CLIPTextTransformer {
    /// Built for `config` on `device`, each weight is the zero tensor of the shape the configuration gives, on `device`, and each recorded size is the configured one: the clauses below.
    pub proof fn lemma_built_weights(&self, config: CLIPConfig, device: Device)
        requires
            self.built_for(config, device),
        ensures
            self.embeddings.built_for(config, device),
            self.encoder.built_for(config.transformer_width, config.transformer_heads, config.transformer_layers, true, device),
            self.final_layer_norm.is_f32(seq![config.transformer_width], device),
            self.final_layer_norm_bias is None,
            self.is_causal == true,
    {
    }

    /// After a move to `device`, every weight lies on `device` with its shape, element type and elements kept, and nothing else changes: the clauses below.
    pub proof fn lemma_moved_weights(&self, before: Self, device: Device)
        requires
            self.moved_from(before, device),
        ensures
            self.embeddings.moved_from(before.embeddings, device),
            self.encoder.moved_from(before.encoder, device),
            self.final_layer_norm.is_placed(before.final_layer_norm, device),
            (match (self.final_layer_norm_bias, before.final_layer_norm_bias) { (Some(a), Some(b)) => a.is_placed(b, device), (None, None) => true, _ => false }),
            self.config == before.config,
            self.is_causal == before.is_causal,
    {
    }

    /// After loading from `weights`, each weight holds the tensor stored under its checkpoint name, copied or transposed, and keeps its previous value when the name is absent; nothing else changes: the clauses below.
    pub proof fn lemma_loaded_weights(&self, before: Self, weights: ModelWeights)
        requires
            self.loaded(before, weights),
        ensures
            self.embeddings.loaded(before.embeddings, weights),
            self.encoder.loaded(before.encoder, weights, "text_model"@),
            copied(self.final_layer_norm, before.final_layer_norm, weights.lookup("text_model.final_layer_norm.weight"@)),
            copied_opt(self.final_layer_norm_bias, before.final_layer_norm_bias, weights.lookup("text_model.final_layer_norm.bias"@)),
            self.config == before.config,
            self.is_causal == before.is_causal,
    {
    }

    /// Loading from `weights` succeeds only when every tensor it must transpose, found under these checkpoint names, has at least two dimensions: the clauses below.
    pub proof fn lemma_loadable_names(&self, weights: ModelWeights)
        requires
            self.loadable(weights),
        ensures
            self.embeddings.loadable(weights),
            self.encoder.loadable(weights, "text_model"@),
    {
    }
}

impl CLIPVisionTransformer {
    /// Built for `config` on `device`, each weight is the zero tensor of the shape the configuration gives, on `device`, and each recorded size is the configured one: the clauses below.
    pub proof fn lemma_built_weights(&self, config: CLIPConfig, device: Device)
        requires
            self.built_for(config, device),
        ensures
            self.embeddings.built_for(config, device),
            self.pre_layernorm.is_f32(seq![config.vision_width], device),
            self.pre_layernorm_bias is None,
            self.encoder.built_for(config.vision_width, config.vision_heads, config.vision_layers, false, device),
            self.post_layernorm.is_f32(seq![config.vision_width], device),
            self.post_layernorm_bias is None,
    {
    }

    /// After a move to `device`, every weight lies on `device` with its shape, element type and elements kept, and nothing else changes: the clauses below.
    pub proof fn lemma_moved_weights(&self, before: Self, device: Device)
        requires
            self.moved_from(before, device),
        ensures
            self.embeddings.moved_from(before.embeddings, device),
            self.pre_layernorm.is_placed(before.pre_layernorm, device),
            (match (self.pre_layernorm_bias, before.pre_layernorm_bias) { (Some(a), Some(b)) => a.is_placed(b, device), (None, None) => true, _ => false }),
            self.encoder.moved_from(before.encoder, device),
            self.post_layernorm.is_placed(before.post_layernorm, device),
            (match (self.post_layernorm_bias, before.post_layernorm_bias) { (Some(a), Some(b)) => a.is_placed(b, device), (None, None) => true, _ => false }),
            self.config == before.config,
    {
    }

    /// After loading from `weights`, each weight holds the tensor stored under its checkpoint name, copied or transposed, and keeps its previous value when the name is absent; nothing else changes: the clauses below.
    pub proof fn lemma_loaded_weights(&self, before: Self, weights: ModelWeights)
        requires
            self.loaded(before, weights),
        ensures
            self.embeddings.loaded(before.embeddings, weights),
            copied(self.pre_layernorm, before.pre_layernorm, first_found(weights, seq!["vision_model.pre_layrnorm.weight"@, "vision_model.pre_layernorm.weight"@])),
            copied_opt(self.pre_layernorm_bias, before.pre_layernorm_bias, first_found(weights, seq!["vision_model.pre_layrnorm.bias"@, "vision_model.pre_layernorm.bias"@])),
            self.encoder.loaded(before.encoder, weights, "vision_model"@),
            copied(self.post_layernorm, before.post_layernorm, weights.lookup("vision_model.post_layernorm.weight"@)),
            copied_opt(self.post_layernorm_bias, before.post_layernorm_bias, weights.lookup("vision_model.post_layernorm.bias"@)),
            self.config == before.config,
    {
    }

    /// Loading from `weights` succeeds only when every tensor it must transpose, found under these checkpoint names, has at least two dimensions: the clauses below.
    pub proof fn lemma_loadable_names(&self, weights: ModelWeights)
        requires
            self.loadable(weights),
        ensures
            self.embeddings.loadable(weights),
            self.encoder.loadable(weights, "vision_model"@),
    {
    }
}

impl CLIPTextEmbeddings {
    /// Built for `config` on `device`, each weight is the zero tensor of the shape the configuration gives, on `device`, and each recorded size is the configured one: the clauses below.
    pub proof fn lemma_built_weights(&self, config: CLIPConfig, device: Device)
        requires
            self.built_for(config, device),
        ensures
            self.token_embedding.is_f32(seq![config.vocab_size, config.transformer_width], device),
            self.position_embedding.is_f32(seq![config.context_length, config.transformer_width], device),
    {
    }

    /// After a move to `device`, every weight lies on `device` with its shape, element type and elements kept, and nothing else changes: the clauses below.
    pub proof fn lemma_moved_weights(&self, before: Self, device: Device)
        requires
            self.moved_from(before, device),
        ensures
            self.token_embedding.is_placed(before.token_embedding, device),
            self.position_embedding.is_placed(before.position_embedding, device),
            self.config == before.config,
    {
    }

    /// After loading from `weights`, each weight holds the tensor stored under its checkpoint name, copied or transposed, and keeps its previous value when the name is absent; nothing else changes: the clauses below.
    pub proof fn lemma_loaded_weights(&self, before: Self, weights: ModelWeights)
        requires
            self.loaded(before, weights),
        ensures
            copied(self.token_embedding, before.token_embedding, weights.lookup("text_model.embeddings.token_embedding.weight"@)),
            copied(self.position_embedding, before.position_embedding, weights.lookup("text_model.embeddings.position_embedding.weight"@)),
            self.config == before.config,
    {
    }

    /// Loading from `weights` succeeds only when every tensor it must transpose, found under these checkpoint names, has at least two dimensions: the clauses below.
    pub proof fn lemma_loadable_names(&self, weights: ModelWeights)
        requires
            self.loadable(weights),
        ensures
            ({
            true
        }),
    {
    }
}

impl CLIPVisionEmbeddings {
    /// Built for `config` on `device`, each weight is the zero tensor of the shape the configuration gives, on `device`, and each recorded size is the configured one: the clauses below.
    pub proof fn lemma_built_weights(&self, config: CLIPConfig, device: Device)
        requires
            self.built_for(config, device),
        ensures
            ({
            let num_positions = ((config.spec_num_patches() + 1) as usize) as usize;
            &&& self.patch_embedding.is_f32(seq![config.vision_width, (3) as usize, config.vision_patch_size, config.vision_patch_size], device)
            &&& self.class_embedding.is_f32(seq![config.vision_width], device)
            &&& self.position_embedding.is_f32(seq![num_positions, config.vision_width], device)
        }),
    {
    }

    /// After a move to `device`, every weight lies on `device` with its shape, element type and elements kept, and nothing else changes: the clauses below.
    pub proof fn lemma_moved_weights(&self, before: Self, device: Device)
        requires
            self.moved_from(before, device),
        ensures
            self.patch_embedding.is_placed(before.patch_embedding, device),
            self.class_embedding.is_placed(before.class_embedding, device),
            self.position_embedding.is_placed(before.position_embedding, device),
            self.config == before.config,
    {
    }

    /// After loading from `weights`, each weight holds the tensor stored under its checkpoint name, copied or transposed, and keeps its previous value when the name is absent; nothing else changes: the clauses below.
    pub proof fn lemma_loaded_weights(&self, before: Self, weights: ModelWeights)
        requires
            self.loaded(before, weights),
        ensures
            copied(self.patch_embedding, before.patch_embedding, weights.lookup("vision_model.embeddings.patch_embedding.weight"@)),
            copied(self.class_embedding, before.class_embedding, weights.lookup("vision_model.embeddings.class_embedding"@)),
            copied(self.position_embedding, before.position_embedding, weights.lookup("vision_model.embeddings.position_embedding.weight"@)),
            self.config == before.config,
    {
    }

    /// Loading from `weights` succeeds only when every tensor it must transpose, found under these checkpoint names, has at least two dimensions: the clauses below.
    pub proof fn lemma_loadable_names(&self, weights: ModelWeights)
        requires
            self.loadable(weights),
        ensures
            ({
            true
        }),
    {
    }
}

impl CLIPEncoder {
    /// Built for `config` on `device`, each weight is the zero tensor of the shape the configuration gives, on `device`, and each recorded size is the configured one: the clauses below.
    pub proof fn lemma_built_weights(&self, hidden_size: usize, num_heads: usize, num_layers: usize, is_causal: bool, device: Device)
        requires
            self.built_for(hidden_size, num_heads, num_layers, is_causal, device),
        ensures
            self.layers@.len() == num_layers,
            forall|k: int| 0 <= k < self.layers@.len() ==> #[trigger] self.layers@[k].built_for(hidden_size, num_heads, device),
            self.is_causal == is_causal,
    {
    }

    /// After a move to `device`, every weight lies on `device` with its shape, element type and elements kept, and nothing else changes: the clauses below.
    pub proof fn lemma_moved_weights(&self, before: Self, device: Device)
        requires
            self.moved_from(before, device),
        ensures
            self.layers@.len() == before.layers@.len(),
            forall|k: int| 0 <= k < self.layers@.len() ==> #[trigger] self.layers@[k].moved_from(before.layers@[k], device),
            self.is_causal == before.is_causal,
    {
    }

    /// After loading from `weights`, each weight holds the tensor stored under its checkpoint name, copied or transposed, and keeps its previous value when the name is absent; nothing else changes: the clauses below.
    pub proof fn lemma_loaded_weights(&self, before: Self, weights: ModelWeights, prefix: Seq<char>)
        requires
            self.loaded(before, weights, prefix),
        ensures
            self.layers@.len() == before.layers@.len(),
            forall|k: int| 0 <= k < before.layers@.len() ==> #[trigger] self.layers@[k].loaded(before.layers@[k], weights, indexed(joined(prefix, ".encoder.layers."@), k, ""@)),
            self.is_causal == before.is_causal,
    {
    }

    /// Loading from `weights` succeeds only when every tensor it must transpose, found under these checkpoint names, has at least two dimensions: the clauses below.
    pub proof fn lemma_loadable_names(&self, weights: ModelWeights, prefix: Seq<char>)
        requires
            self.loadable(weights, prefix),
        ensures
            forall|k: int| 0 <= k < self.layers@.len() ==> #[trigger] self.layers@[k].loadable(weights, indexed(joined(prefix, ".encoder.layers."@), k, ""@)),
    {
    }
}

impl CLIPEncoderLayer {
    /// Built for `config` on `device`, each weight is the zero tensor of the shape the configuration gives, on `device`, and each recorded size is the configured one: the clauses below.
    pub proof fn lemma_built_weights(&self, hidden_size: usize, num_heads: usize, device: Device)
        requires
            self.built_for(hidden_size, num_heads, device),
        ensures
            ({
            let intermediate_size = (hidden_size * 4) as usize;
            &&& self.self_attn.built_for(hidden_size, num_heads, device)
            &&& self.layer_norm1.is_f32(seq![hidden_size], device)
            &&& self.layer_norm1_bias is None
            &&& self.mlp.built_for(hidden_size, intermediate_size, device)
            &&& self.layer_norm2.is_f32(seq![hidden_size], device)
            &&& self.layer_norm2_bias is None
            &&& self.hidden_size == hidden_size
        }),
    {
    }

    /// After a move to `device`, every weight lies on `device` with its shape, element type and elements kept, and nothing else changes: the clauses below.
    pub proof fn lemma_moved_weights(&self, before: Self, device: Device)
        requires
            self.moved_from(before, device),
        ensures
            self.self_attn.moved_from(before.self_attn, device),
            self.layer_norm1.is_placed(before.layer_norm1, device),
            (match (self.layer_norm1_bias, before.layer_norm1_bias) { (Some(a), Some(b)) => a.is_placed(b, device), (None, None) => true, _ => false }),
            self.mlp.moved_from(before.mlp, device),
            self.layer_norm2.is_placed(before.layer_norm2, device),
            (match (self.layer_norm2_bias, before.layer_norm2_bias) { (Some(a), Some(b)) => a.is_placed(b, device), (None, None) => true, _ => false }),
            self.hidden_size == before.hidden_size,
    {
    }

    /// After loading from `weights`, each weight holds the tensor stored under its checkpoint name, copied or transposed, and keeps its previous value when the name is absent; nothing else changes: the clauses below.
    pub proof fn lemma_loaded_weights(&self, before: Self, weights: ModelWeights, prefix: Seq<char>)
        requires
            self.loaded(before, weights, prefix),
        ensures
            self.self_attn.loaded(before.self_attn, weights, joined(prefix, ".self_attn"@)),
            copied(self.layer_norm1, before.layer_norm1, weights.lookup(joined(prefix, ".layer_norm1.weight"@))),
            copied_opt(self.layer_norm1_bias, before.layer_norm1_bias, weights.lookup(joined(prefix, ".layer_norm1.bias"@))),
            self.mlp.loaded(before.mlp, weights, joined(prefix, ".mlp"@)),
            copied(self.layer_norm2, before.layer_norm2, weights.lookup(joined(prefix, ".layer_norm2.weight"@))),
            copied_opt(self.layer_norm2_bias, before.layer_norm2_bias, weights.lookup(joined(prefix, ".layer_norm2.bias"@))),
            self.hidden_size == before.hidden_size,
    {
    }

    /// Loading from `weights` succeeds only when every tensor it must transpose, found under these checkpoint names, has at least two dimensions: the clauses below.
    pub proof fn lemma_loadable_names(&self, weights: ModelWeights, prefix: Seq<char>)
        requires
            self.loadable(weights, prefix),
        ensures
            self.self_attn.loadable(weights, joined(prefix, ".self_attn"@)),
            self.mlp.loadable(weights, joined(prefix, ".mlp"@)),
    {
    }
}

impl CLIPAttention {
    /// Built for `config` on `device`, each weight is the zero tensor of the shape the configuration gives, on `device`, and each recorded size is the configured one: the clauses below.
    pub proof fn lemma_built_weights(&self, hidden_size: usize, num_heads: usize, device: Device)
        requires
            self.built_for(hidden_size, num_heads, device),
        ensures
            self.q_proj.is_f32(seq![hidden_size, hidden_size], device),
            self.k_proj.is_f32(seq![hidden_size, hidden_size], device),
            self.v_proj.is_f32(seq![hidden_size, hidden_size], device),
            self.out_proj.is_f32(seq![hidden_size, hidden_size], device),
            self.q_bias is None,
            self.k_bias is None,
            self.v_bias is None,
            self.out_bias is None,
            self.num_heads == num_heads,
            self.head_dim == hidden_size / num_heads,
    {
    }

    /// After a move to `device`, every weight lies on `device` with its shape, element type and elements kept, and nothing else changes: the clauses below.
    pub proof fn lemma_moved_weights(&self, before: Self, device: Device)
        requires
            self.moved_from(before, device),
        ensures
            self.q_proj.is_placed(before.q_proj, device),
            self.k_proj.is_placed(before.k_proj, device),
            self.v_proj.is_placed(before.v_proj, device),
            self.out_proj.is_placed(before.out_proj, device),
            (match (self.q_bias, before.q_bias) { (Some(a), Some(b)) => a.is_placed(b, device), (None, None) => true, _ => false }),
            (match (self.k_bias, before.k_bias) { (Some(a), Some(b)) => a.is_placed(b, device), (None, None) => true, _ => false }),
            (match (self.v_bias, before.v_bias) { (Some(a), Some(b)) => a.is_placed(b, device), (None, None) => true, _ => false }),
            (match (self.out_bias, before.out_bias) { (Some(a), Some(b)) => a.is_placed(b, device), (None, None) => true, _ => false }),
            self.num_heads == before.num_heads,
            self.head_dim == before.head_dim,
    {
    }

    /// After loading from `weights`, each weight holds the tensor stored under its checkpoint name, copied or transposed, and keeps its previous value when the name is absent; nothing else changes: the clauses below.
    pub proof fn lemma_loaded_weights(&self, before: Self, weights: ModelWeights, prefix: Seq<char>)
        requires
            self.loaded(before, weights, prefix),
        ensures
            transposed(self.q_proj, before.q_proj, weights.lookup(joined(prefix, ".q_proj.weight"@))),
            transposed(self.k_proj, before.k_proj, weights.lookup(joined(prefix, ".k_proj.weight"@))),
            transposed(self.v_proj, before.v_proj, weights.lookup(joined(prefix, ".v_proj.weight"@))),
            transposed(self.out_proj, before.out_proj, weights.lookup(joined(prefix, ".out_proj.weight"@))),
            copied_opt(self.q_bias, before.q_bias, weights.lookup(joined(prefix, ".q_proj.bias"@))),
            copied_opt(self.k_bias, before.k_bias, weights.lookup(joined(prefix, ".k_proj.bias"@))),
            copied_opt(self.v_bias, before.v_bias, weights.lookup(joined(prefix, ".v_proj.bias"@))),
            copied_opt(self.out_bias, before.out_bias, weights.lookup(joined(prefix, ".out_proj.bias"@))),
            self.num_heads == before.num_heads,
            self.head_dim == before.head_dim,
    {
    }

    /// Loading from `weights` succeeds only when every tensor it must transpose, found under these checkpoint names, has at least two dimensions: the clauses below.
    pub proof fn lemma_loadable_names(&self, weights: ModelWeights, prefix: Seq<char>)
        requires
            self.loadable(weights, prefix),
        ensures
            transposable(weights.lookup(joined(prefix, ".q_proj.weight"@))),
            transposable(weights.lookup(joined(prefix, ".k_proj.weight"@))),
            transposable(weights.lookup(joined(prefix, ".v_proj.weight"@))),
            transposable(weights.lookup(joined(prefix, ".out_proj.weight"@))),
    {
    }
}

impl CLIPMLP {
    /// Built for `config` on `device`, each weight is the zero tensor of the shape the configuration gives, on `device`, and each recorded size is the configured one: the clauses below.
    pub proof fn lemma_built_weights(&self, hidden_size: usize, intermediate_size: usize, device: Device)
        requires
            self.built_for(hidden_size, intermediate_size, device),
        ensures
            self.fc1.is_f32(seq![hidden_size, intermediate_size], device),
            self.fc1_bias is None,
            self.fc2.is_f32(seq![intermediate_size, hidden_size], device),
            self.fc2_bias is None,
            self.hidden_size == hidden_size,
            self.intermediate_size == intermediate_size,
    {
    }

    /// After a move to `device`, every weight lies on `device` with its shape, element type and elements kept, and nothing else changes: the clauses below.
    pub proof fn lemma_moved_weights(&self, before: Self, device: Device)
        requires
            self.moved_from(before, device),
        ensures
            self.fc1.is_placed(before.fc1, device),
            (match (self.fc1_bias, before.fc1_bias) { (Some(a), Some(b)) => a.is_placed(b, device), (None, None) => true, _ => false }),
            self.fc2.is_placed(before.fc2, device),
            (match (self.fc2_bias, before.fc2_bias) { (Some(a), Some(b)) => a.is_placed(b, device), (None, None) => true, _ => false }),
            self.hidden_size == before.hidden_size,
            self.intermediate_size == before.intermediate_size,
    {
    }

    /// After loading from `weights`, each weight holds the tensor stored under its checkpoint name, copied or transposed, and keeps its previous value when the name is absent; nothing else changes: the clauses below.
    pub proof fn lemma_loaded_weights(&self, before: Self, weights: ModelWeights, prefix: Seq<char>)
        requires
            self.loaded(before, weights, prefix),
        ensures
            transposed(self.fc1, before.fc1, weights.lookup(joined(prefix, ".fc1.weight"@))),
            copied_opt(self.fc1_bias, before.fc1_bias, weights.lookup(joined(prefix, ".fc1.bias"@))),
            transposed(self.fc2, before.fc2, weights.lookup(joined(prefix, ".fc2.weight"@))),
            copied_opt(self.fc2_bias, before.fc2_bias, weights.lookup(joined(prefix, ".fc2.bias"@))),
            self.hidden_size == before.hidden_size,
            self.intermediate_size == before.intermediate_size,
    {
    }

    /// Loading from `weights` succeeds only when every tensor it must transpose, found under these checkpoint names, has at least two dimensions: the clauses below.
    pub proof fn lemma_loadable_names(&self, weights: ModelWeights, prefix: Seq<char>)
        requires
            self.loadable(weights, prefix),
        ensures
            transposable(weights.lookup(joined(prefix, ".fc1.weight"@))),
            transposable(weights.lookup(joined(prefix, ".fc2.weight"@))),
    {
    }
}

/// `clip_text_embedding_params` is, for every configuration, the formula below.
pub proof fn lemma_clip_text_embedding_params_formula(c: CLIPConfig)
    ensures
        clip_text_embedding_params(c) == (c.vocab_size * c.transformer_width + c.context_length * c.transformer_width),
{
}

/// `clip_text_layer_params` is, for every configuration, the formula below.
pub proof fn lemma_clip_text_layer_params_formula(c: CLIPConfig)
    ensures
        clip_text_layer_params(c) == (c.transformer_layers * (4 * c.transformer_width * c.transformer_width + 2 * c.transformer_width * (c.transformer_width * 4))),
{
}

/// `clip_num_patches` is, for every configuration, the formula below.
pub proof fn lemma_clip_num_patches_formula(c: CLIPConfig)
    ensures
        clip_num_patches(c) == (c.image_resolution / c.vision_patch_size * (c.image_resolution / c.vision_patch_size)),
{
}

/// `clip_vision_embedding_params` is, for every configuration, the formula below.
pub proof fn lemma_clip_vision_embedding_params_formula(c: CLIPConfig)
    ensures
        clip_vision_embedding_params(c) == (3 * c.vision_patch_size * c.vision_patch_size * c.vision_width + c.vision_width + (clip_num_patches(c) + 1) * c.vision_width),
{
}

/// `clip_vision_layer_params` is, for every configuration, the formula below.
pub proof fn lemma_clip_vision_layer_params_formula(c: CLIPConfig)
    ensures
        clip_vision_layer_params(c) == (c.vision_layers * (4 * c.vision_width * c.vision_width + 2 * c.vision_width * (c.vision_width * 4))),
{
}

/// `clip_projection_params` is, for every configuration, the formula below.
pub proof fn lemma_clip_projection_params_formula(c: CLIPConfig)
    ensures
        clip_projection_params(c) == (c.transformer_width * c.projection_dim + c.vision_width * c.projection_dim),
{
}

/// `clip_total_params` is, for every configuration, the formula below.
pub proof fn lemma_clip_total_params_formula(c: CLIPConfig)
    ensures
        clip_total_params(c) == (clip_text_embedding_params(c) + clip_text_layer_params(c) + clip_vision_embedding_params(c) + clip_vision_layer_params(c) + clip_projection_params(c)),
{
}

/// `clip_param_bytes` is, for every configuration, the formula below.
pub proof fn lemma_clip_param_bytes_formula(c: CLIPConfig)
    ensures
        clip_param_bytes(c) == (clip_total_params(c) * 4),
{
}

} // verus!

verus! {

impl CLIPConfig {
    /// `spec_num_patches` is, for every value, the expression below.
    pub proof fn lemma_spec_num_patches_value(&self)
        ensures
            self.spec_num_patches() == ({
            let side = self.image_resolution as int / self.vision_patch_size as int;
            side * side
            }),
    {
    }
}

} // verus!
