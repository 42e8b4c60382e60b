//! The BERT (bidirectional encoder) model.
use vstd::prelude::*;
use crate::common::F32Bits;
use crate::gguf::GGUFModelConfig;
use crate::common::{GenerationConfig, MemoryRequirements, ModelError};
use crate::tensor::{zeros1, zeros2, Device, Tensor};
use crate::weights::{copied, transposed, transposable, is_transpose_error, indexed, first_found, indexed_name, load_copy, load_transposed, get_first2, get_first3, take_copy, take_transposed, ModelWeights};

verus! {

/// Hyperparameters of the BERT (bidirectional encoder) model.
#[derive(Clone, Debug)]
pub struct BertConfig {
    pub vocab_size: usize,
    pub hidden_size: usize,
    pub intermediate_size: usize,
    pub num_hidden_layers: usize,
    pub num_attention_heads: usize,
    pub hidden_act: String,
    pub max_position_embeddings: usize,
    pub initializer_range: F32Bits,
    pub layer_norm_eps: F32Bits,
    pub pad_token_id: i64,
    pub type_vocab_size: usize,
    pub rms_norm_eps: F32Bits,
}

impl BertConfig {
    /// The fields that a GGUF file supplies hold their default values.
    pub open spec fn gguf_fields_default(&self) -> bool {
        &&& self.vocab_size == 30522
        &&& self.hidden_size == 768
        &&& self.intermediate_size == 3072
        &&& self.num_hidden_layers == 12
        &&& self.num_attention_heads == 12
        &&& self.max_position_embeddings == 512
        &&& self.layer_norm_eps.bits == 0x2b8cbccc
    }

    /// The fields that a GGUF file does not supply hold their default values.
    pub open spec fn other_fields_default(&self) -> bool {
        &&& self.hidden_act@ == "gelu"@
        &&& self.initializer_range.bits == 0x3ca3d70a
        &&& self.pad_token_id == 0
        &&& self.type_vocab_size == 2
        &&& self.rms_norm_eps.bits == 0x2b8cbccc
    }

    /// Every field holds its default value.
    pub open spec fn is_default(&self) -> bool {
        self.gguf_fields_default() && self.other_fields_default()
    }

    /// The configuration described by a GGUF file: the architecture fields it
    /// carries, and the defaults for the rest.
    pub fn from_gguf_config(gguf: &GGUFModelConfig) -> (r: Self)
        ensures
            r.vocab_size == gguf.vocab_size,
            r.hidden_size == gguf.hidden_size,
            r.intermediate_size == gguf.intermediate_size,
            r.num_hidden_layers == gguf.num_hidden_layers,
            r.num_attention_heads == gguf.num_attention_heads,
            r.max_position_embeddings == gguf.max_position_embeddings,
            r.layer_norm_eps == gguf.rms_norm_eps,
            r.other_fields_default(),
    {
        let d = Self::default();
        Self {
            vocab_size: gguf.vocab_size,
            hidden_size: gguf.hidden_size,
            intermediate_size: gguf.intermediate_size,
            num_hidden_layers: gguf.num_hidden_layers,
            num_attention_heads: gguf.num_attention_heads,
            max_position_embeddings: gguf.max_position_embeddings,
            layer_norm_eps: gguf.rms_norm_eps,
            ..d
        }
    }

    /// Size of the token vocabulary.
    pub fn vocab_size(&self) -> (r: usize)
        ensures
            r == self.vocab_size,
    {
        self.vocab_size
    }

    /// Width of the hidden states.
    pub fn hidden_size(&self) -> (r: usize)
        ensures
            r == self.hidden_size,
    {
        self.hidden_size
    }

    /// Number of transformer (or state-space) layers.
    pub fn num_layers(&self) -> (r: usize)
        ensures
            r == self.num_hidden_layers,
    {
        self.num_hidden_layers
    }
}

impl Default for BertConfig {
    fn default() -> (r: Self)
        ensures
            r.is_default(),
    {
        Self {
            vocab_size: 30522,
            hidden_size: 768,
            intermediate_size: 3072,
            num_hidden_layers: 12,
            num_attention_heads: 12,
            hidden_act: String::from_str("gelu"),
            max_position_embeddings: 512,
            initializer_range: F32Bits::from_bits(0x3ca3d70a),
            layer_norm_eps: F32Bits::from_bits(0x2b8cbccc),
            pad_token_id: 0,
            type_vocab_size: 2,
            rms_norm_eps: F32Bits::from_bits(0x2b8cbccc),
        }
    }
}

/// The BERT encoder: embeddings, a stack of bidirectional layers, and a pooler over the first token.
pub struct BertModelV2 {
    pub config: BertConfig,
    pub device: Device,
    pub embeddings: BertEmbeddings,
    pub encoder: BertEncoder,
    pub pooler: Option<BertPooler>,
}

/// BERT embeddings: word, position and token-type tables, summed and normalised.
pub struct BertEmbeddings {
    pub word_embeddings: Tensor,
    pub position_embeddings: Tensor,
    pub token_type_embeddings: Tensor,
    pub layer_norm_weight: Tensor,
    pub layer_norm_bias: Tensor,
    pub config: BertConfig,
}

/// The BERT encoder stack.
pub struct BertEncoder {
    pub layers: Vec<BertLayer>,
    pub config: BertConfig,
}

/// A BERT layer: attention, intermediate projection and output projection.
pub struct BertLayer {
    pub attention: BertAttention,
    pub intermediate: BertIntermediate,
    pub output: BertOutput,
}

/// BERT attention: bidirectional self-attention and its output projection.
pub struct BertAttention {
    pub self_attention: BertSelfAttention,
    pub output: BertSelfOutput,
}

/// BERT self-attention: query, key and value projections with biases; no causal mask.
pub struct BertSelfAttention {
    pub query: Tensor,
    pub query_bias: Tensor,
    pub key: Tensor,
    pub key_bias: Tensor,
    pub value: Tensor,
    pub value_bias: Tensor,
    pub num_attention_heads: usize,
    pub head_dim: usize,
}

/// BERT attention output: a dense projection with bias, then a residual layer norm.
pub struct BertSelfOutput {
    pub dense: Tensor,
    pub dense_bias: Tensor,
    pub layer_norm_weight: Tensor,
    pub layer_norm_bias: Tensor,
    pub layer_norm_eps: F32Bits,
}

/// BERT intermediate block: a projection to the intermediate width with bias, and the activation.
pub struct BertIntermediate {
    pub dense: Tensor,
    pub dense_bias: Tensor,
    pub hidden_act: String,
}

/// BERT output block: a projection back to the hidden width with bias, then a residual layer norm.
pub struct BertOutput {
    pub dense: Tensor,
    pub dense_bias: Tensor,
    pub layer_norm_weight: Tensor,
    pub layer_norm_bias: Tensor,
    pub layer_norm_eps: F32Bits,
}

/// BERT pooler: a dense projection with bias of the first token.
pub struct BertPooler {
    pub dense: Tensor,
    pub dense_bias: Tensor,
}

impl BertModelV2 {
    /// The model as built for `config` on `device`: the embeddings, an encoder of `num_hidden_layers` layers, and a pooler.
    pub closed spec fn built_for(&self, config: BertConfig, device: Device) -> bool {
        &&& self.embeddings.built_for(config, device)
        &&& self.encoder.built_for(config, device)
        &&& (self.pooler matches Some(s) && s.built_for(config, device))
    }

    /// `self` is `old` moved to `device`: every weight placed there and the device recorded.
    pub closed spec fn moved_from(&self, old: Self, device: Device) -> bool {
        &&& self.config == old.config
        &&& self.device == device
        &&& self.embeddings.moved_from(old.embeddings, device)
        &&& self.encoder.moved_from(old.encoder, device)
        &&& (match (self.pooler, old.pooler) { (Some(a), Some(b)) => a.moved_from(b, device), (None, None) => true, _ => false })
    }

    /// The configuration the model was built with.
    pub closed spec fn spec_config(&self) -> BertConfig {
        self.config
    }

    /// The device the model reports.
    pub closed spec fn spec_device(&self) -> Device {
        self.device
    }

    /// Builds the model for `config` on the CPU, with zero weights.
    pub fn new(config: BertConfig) -> (r: Result<Self, ModelError>)
        requires
            config.num_attention_heads > 0,
        ensures
            r matches Ok(m) && m.spec_config() == config && m.spec_device() == Device::CPU
                && m.built_for(config, Device::CPU),
    {
        let device = Device::CPU;
        let embeddings = BertEmbeddings::new(&config, &device);
        let encoder = BertEncoder::new(&config, &device);
        let pooler = Some(BertPooler::new(&config, &device));
        Ok(BertModelV2 { config, device, embeddings, encoder, pooler })
    }

    /// The configuration the model was built with.
    pub fn config(&self) -> (r: &BertConfig)
        ensures
            *r == self.spec_config(),
    {
        &self.config
    }

    /// Moves the model to `device`.
    pub fn to_device(&mut self, device: &Device) -> (r: Result<(), ModelError>)
        ensures
            r is Ok,
            final(self).moved_from(*old(self), *device),
    {
        self.embeddings.to_device(device);
        self.encoder.to_device(device);
        let mut taken_pooler: Option<BertPooler> = None;
        std::mem::swap(&mut taken_pooler, &mut self.pooler);
        self.pooler = match taken_pooler { Some(mut s) => { s.to_device(device); Some(s) }, None => None };
        self.device = *device;
        Ok(())
    }
}

impl BertEmbeddings {
    /// Built for `config`: zero tables `[vocab_size, hidden_size]`, `[max_position_embeddings, hidden_size]` and `[type_vocab_size, hidden_size]`, and the layer-norm weight and bias.
    pub closed spec fn built_for(&self, config: BertConfig, device: Device) -> bool {
        &&& self.word_embeddings.is_f32(seq![config.vocab_size, config.hidden_size], device)
        &&& self.position_embeddings.is_f32(seq![config.max_position_embeddings, config.hidden_size], device)
        &&& self.token_type_embeddings.is_f32(seq![config.type_vocab_size, config.hidden_size], device)
        &&& self.layer_norm_weight.is_f32(seq![config.hidden_size], device)
        &&& self.layer_norm_bias.is_f32(seq![config.hidden_size], device)
    }

    /// `self` is `old` with its weights placed on `device`.
    pub closed spec fn moved_from(&self, old: Self, device: Device) -> bool {
        &&& self.word_embeddings.is_placed(old.word_embeddings, device)
        &&& self.position_embeddings.is_placed(old.position_embeddings, device)
        &&& self.token_type_embeddings.is_placed(old.token_type_embeddings, device)
        &&& self.layer_norm_weight.is_placed(old.layer_norm_weight, device)
        &&& self.layer_norm_bias.is_placed(old.layer_norm_bias, device)
        &&& self.config == old.config
    }

    fn new(config: &BertConfig, device: &Device) -> (r: Self)
        ensures
            r.built_for(*config, *device),
    {
        let word_embeddings = zeros2(config.vocab_size, config.hidden_size, device);
        let position_embeddings = zeros2(config.max_position_embeddings, config.hidden_size, device);
        let token_type_embeddings = zeros2(config.type_vocab_size, config.hidden_size, device);
        let layer_norm_weight = zeros1(config.hidden_size, device);
        let layer_norm_bias = zeros1(config.hidden_size, device);
        let config = config.clone();
        BertEmbeddings { word_embeddings, position_embeddings, token_type_embeddings, layer_norm_weight, layer_norm_bias, config }
    }

    /// Places the weights on `device`.
    fn to_device(&mut self, device: &Device)
        ensures
            final(self).moved_from(*old(self), *device),
    {
        self.word_embeddings = self.word_embeddings.to_device(device);
        self.position_embeddings = self.position_embeddings.to_device(device);
        self.token_type_embeddings = self.token_type_embeddings.to_device(device);
        self.layer_norm_weight = self.layer_norm_weight.to_device(device);
        self.layer_norm_bias = self.layer_norm_bias.to_device(device);
    }
}

impl BertEncoder {
    /// The weights as built for `config` on `device`, all zero.
    pub closed spec fn built_for(&self, config: BertConfig, device: Device) -> bool {
        &&& self.layers@.len() == config.num_hidden_layers
        &&& forall|k: int| 0 <= k < self.layers@.len() ==> #[trigger] self.layers@[k].built_for(config, device)
    }

    /// `self` is `old` with its weights placed on `device`.
    pub closed spec fn moved_from(&self, old: Self, device: Device) -> bool {
        &&& self.layers@.len() == old.layers@.len()
        &&& forall|k: int| 0 <= k < self.layers@.len() ==> #[trigger] self.layers@[k].moved_from(old.layers@[k], device)
        &&& self.config == old.config
    }

    fn new(config: &BertConfig, device: &Device) -> (r: Self)
        requires
            config.num_attention_heads > 0,
        ensures
            r.built_for(*config, *device),
    {
        let mut layers: Vec<BertLayer> = Vec::new();
        let mut n: usize = 0;
        while n < config.num_hidden_layers
            invariant
                n <= config.num_hidden_layers,
                config.num_attention_heads > 0,
                layers@.len() == n,
                forall|k: int| 0 <= k < n ==> #[trigger] layers@[k].built_for(*config, *device),
            decreases config.num_hidden_layers - n,
        {
            layers.push(BertLayer::new(config, device));
            n += 1;
        }
        let config = config.clone();
        BertEncoder { layers, config }
    }

    /// Places the weights on `device`.
    fn to_device(&mut self, device: &Device)
        ensures
            final(self).moved_from(*old(self), *device),
    {
        let mut taken_layers: Vec<BertLayer> = Vec::new();
        std::mem::swap(&mut taken_layers, &mut self.layers);
        self.layers = BertLayer::all_to_device(taken_layers, device);
    }
}

impl BertLayer {
    /// The weights as built for `config` on `device`, all zero.
    pub closed spec fn built_for(&self, config: BertConfig, device: Device) -> bool {
        &&& self.attention.built_for(config, device)
        &&& self.intermediate.built_for(config, device)
        &&& self.output.built_for(config, device)
    }

    /// `self` is `old` with its weights placed on `device`.
    pub closed spec fn moved_from(&self, old: Self, device: Device) -> bool {
        &&& self.attention.moved_from(old.attention, device)
        &&& self.intermediate.moved_from(old.intermediate, device)
        &&& self.output.moved_from(old.output, device)
    }

    fn new(config: &BertConfig, device: &Device) -> (r: Self)
        requires
            config.num_attention_heads > 0,
        ensures
            r.built_for(*config, *device),
    {
        let attention = BertAttention::new(config, device);
        let intermediate = BertIntermediate::new(config, device);
        let output = BertOutput::new(config, device);
        BertLayer { attention, intermediate, output }
    }

    /// Places the weights on `device`.
    fn to_device(&mut self, device: &Device)
        ensures
            final(self).moved_from(*old(self), *device),
    {
        self.attention.to_device(device);
        self.intermediate.to_device(device);
        self.output.to_device(device);
    }

    /// The layers, in order, each with its weights placed on `device`.
    fn all_to_device(layers: Vec<BertLayer>, device: &Device) -> (r: Vec<BertLayer>)
        ensures
            r@.len() == layers@.len(),
            forall|k: int| 0 <= k < r@.len() ==> #[trigger] r@[k].moved_from(layers@[k], *device),
    {
        let mut rest = layers;
        let mut moved: Vec<BertLayer> = Vec::new();
        while rest.len() > 0
            invariant
                moved@.len() + rest@.len() == layers@.len(),
                rest@ == layers@.subrange(moved@.len() as int, layers@.len() as int),
                forall|k: int| 0 <= k < moved@.len() ==> #[trigger] moved@[k].moved_from(layers@[k], *device),
            decreases rest@.len(),
        {
            let mut layer = rest.remove(0);
            assert(layer == layers@[moved@.len() as int]);
            layer.to_device(device);
            moved.push(layer);
            assert(rest@ =~= layers@.subrange(moved@.len() as int, layers@.len() as int));
        }
        moved
    }
}

impl BertAttention {
    /// The weights as built for `config` on `device`, all zero.
    pub closed spec fn built_for(&self, config: BertConfig, device: Device) -> bool {
        &&& self.self_attention.built_for(config, device)
        &&& self.output.built_for(config, device)
    }

    /// `self` is `old` with its weights placed on `device`.
    pub closed spec fn moved_from(&self, old: Self, device: Device) -> bool {
        &&& self.self_attention.moved_from(old.self_attention, device)
        &&& self.output.moved_from(old.output, device)
    }

    fn new(config: &BertConfig, device: &Device) -> (r: Self)
        requires
            config.num_attention_heads > 0,
        ensures
            r.built_for(*config, *device),
    {
        let self_attention = BertSelfAttention::new(config, device);
        let output = BertSelfOutput::new(config, device);
        BertAttention { self_attention, output }
    }

    /// Places the weights on `device`.
    fn to_device(&mut self, device: &Device)
        ensures
            final(self).moved_from(*old(self), *device),
    {
        self.self_attention.to_device(device);
        self.output.to_device(device);
    }
}

impl BertSelfAttention {
    /// The weights as built for `config` on `device`, all zero.
    pub closed spec fn built_for(&self, config: BertConfig, device: Device) -> bool {
        &&& self.query.is_f32(seq![config.hidden_size, config.hidden_size], device)
        &&& self.query_bias.is_f32(seq![config.hidden_size], device)
        &&& self.key.is_f32(seq![config.hidden_size, config.hidden_size], device)
        &&& self.key_bias.is_f32(seq![config.hidden_size], device)
        &&& self.value.is_f32(seq![config.hidden_size, config.hidden_size], device)
        &&& self.value_bias.is_f32(seq![config.hidden_size], device)
        &&& self.num_attention_heads == config.num_attention_heads
        &&& self.head_dim == config.hidden_size / config.num_attention_heads
    }

    /// `self` is `old` with its weights placed on `device`.
    pub closed spec fn moved_from(&self, old: Self, device: Device) -> bool {
        &&& self.query.is_placed(old.query, device)
        &&& self.query_bias.is_placed(old.query_bias, device)
        &&& self.key.is_placed(old.key, device)
        &&& self.key_bias.is_placed(old.key_bias, device)
        &&& self.value.is_placed(old.value, device)
        &&& self.value_bias.is_placed(old.value_bias, device)
        &&& self.num_attention_heads == old.num_attention_heads
        &&& self.head_dim == old.head_dim
    }

    fn new(config: &BertConfig, device: &Device) -> (r: Self)
        requires
            config.num_attention_heads > 0,
        ensures
            r.built_for(*config, *device),
    {
        let query = zeros2(config.hidden_size, config.hidden_size, device);
        let query_bias = zeros1(config.hidden_size, device);
        let key = zeros2(config.hidden_size, config.hidden_size, device);
        let key_bias = zeros1(config.hidden_size, device);
        let value = zeros2(config.hidden_size, config.hidden_size, device);
        let value_bias = zeros1(config.hidden_size, device);
        let num_attention_heads = config.num_attention_heads;
        let head_dim = config.hidden_size / config.num_attention_heads;
        BertSelfAttention { query, query_bias, key, key_bias, value, value_bias, num_attention_heads, head_dim }
    }

    /// Places the weights on `device`.
    fn to_device(&mut self, device: &Device)
        ensures
            final(self).moved_from(*old(self), *device),
    {
        self.query = self.query.to_device(device);
        self.query_bias = self.query_bias.to_device(device);
        self.key = self.key.to_device(device);
        self.key_bias = self.key_bias.to_device(device);
        self.value = self.value.to_device(device);
        self.value_bias = self.value_bias.to_device(device);
    }
}

impl BertSelfOutput {
    /// The weights as built for `config` on `device`, all zero.
    pub closed spec fn built_for(&self, config: BertConfig, device: Device) -> bool {
        &&& self.dense.is_f32(seq![config.hidden_size, config.hidden_size], device)
        &&& self.dense_bias.is_f32(seq![config.hidden_size], device)
        &&& self.layer_norm_weight.is_f32(seq![config.hidden_size], device)
        &&& self.layer_norm_bias.is_f32(seq![config.hidden_size], device)
        &&& self.layer_norm_eps == config.layer_norm_eps
    }

    /// `self` is `old` with its weights placed on `device`.
    pub closed spec fn moved_from(&self, old: Self, device: Device) -> bool {
        &&& self.dense.is_placed(old.dense, device)
        &&& self.dense_bias.is_placed(old.dense_bias, device)
        &&& self.layer_norm_weight.is_placed(old.layer_norm_weight, device)
        &&& self.layer_norm_bias.is_placed(old.layer_norm_bias, device)
        &&& self.layer_norm_eps == old.layer_norm_eps
    }

    fn new(config: &BertConfig, device: &Device) -> (r: Self)
        ensures
            r.built_for(*config, *device),
    {
        let dense = zeros2(config.hidden_size, config.hidden_size, device);
        let dense_bias = zeros1(config.hidden_size, device);
        let layer_norm_weight = zeros1(config.hidden_size, device);
        let layer_norm_bias = zeros1(config.hidden_size, device);
        let layer_norm_eps = config.layer_norm_eps;
        BertSelfOutput { dense, dense_bias, layer_norm_weight, layer_norm_bias, layer_norm_eps }
    }

    /// Places the weights on `device`.
    fn to_device(&mut self, device: &Device)
        ensures
            final(self).moved_from(*old(self), *device),
    {
        self.dense = self.dense.to_device(device);
        self.dense_bias = self.dense_bias.to_device(device);
        self.layer_norm_weight = self.layer_norm_weight.to_device(device);
        self.layer_norm_bias = self.layer_norm_bias.to_device(device);
    }
}

impl BertIntermediate {
    /// The weights as built for `config` on `device`, all zero.
    pub closed spec fn built_for(&self, config: BertConfig, device: Device) -> bool {
        &&& self.dense.is_f32(seq![config.hidden_size, config.intermediate_size], device)
        &&& self.dense_bias.is_f32(seq![config.intermediate_size], device)
        &&& self.hidden_act@ == config.hidden_act@
    }

    /// `self` is `old` with its weights placed on `device`.
    pub closed spec fn moved_from(&self, old: Self, device: Device) -> bool {
        &&& self.dense.is_placed(old.dense, device)
        &&& self.dense_bias.is_placed(old.dense_bias, device)
        &&& self.hidden_act == old.hidden_act
    }

    fn new(config: &BertConfig, device: &Device) -> (r: Self)
        ensures
            r.built_for(*config, *device),
    {
        let dense = zeros2(config.hidden_size, config.intermediate_size, device);
        let dense_bias = zeros1(config.intermediate_size, device);
        let hidden_act = config.hidden_act.clone();
        BertIntermediate { dense, dense_bias, hidden_act }
    }

    /// Places the weights on `device`.
    fn to_device(&mut self, device: &Device)
        ensures
            final(self).moved_from(*old(self), *device),
    {
        self.dense = self.dense.to_device(device);
        self.dense_bias = self.dense_bias.to_device(device);
    }
}

impl BertOutput {
    /// The weights as built for `config` on `device`, all zero.
    pub closed spec fn built_for(&self, config: BertConfig, device: Device) -> bool {
        &&& self.dense.is_f32(seq![config.intermediate_size, config.hidden_size], device)
        &&& self.dense_bias.is_f32(seq![config.hidden_size], device)
        &&& self.layer_norm_weight.is_f32(seq![config.hidden_size], device)
        &&& self.layer_norm_bias.is_f32(seq![config.hidden_size], device)
        &&& self.layer_norm_eps == config.layer_norm_eps
    }

    /// `self` is `old` with its weights placed on `device`.
    pub closed spec fn moved_from(&self, old: Self, device: Device) -> bool {
        &&& self.dense.is_placed(old.dense, device)
        &&& self.dense_bias.is_placed(old.dense_bias, device)
        &&& self.layer_norm_weight.is_placed(old.layer_norm_weight, device)
        &&& self.layer_norm_bias.is_placed(old.layer_norm_bias, device)
        &&& self.layer_norm_eps == old.layer_norm_eps
    }

    fn new(config: &BertConfig, device: &Device) -> (r: Self)
        ensures
            r.built_for(*config, *device),
    {
        let dense = zeros2(config.intermediate_size, config.hidden_size, device);
        let dense_bias = zeros1(config.hidden_size, device);
        let layer_norm_weight = zeros1(config.hidden_size, device);
        let layer_norm_bias = zeros1(config.hidden_size, device);
        let layer_norm_eps = config.layer_norm_eps;
        BertOutput { dense, dense_bias, layer_norm_weight, layer_norm_bias, layer_norm_eps }
    }

    /// Places the weights on `device`.
    fn to_device(&mut self, device: &Device)
        ensures
            final(self).moved_from(*old(self), *device),
    {
        self.dense = self.dense.to_device(device);
        self.dense_bias = self.dense_bias.to_device(device);
        self.layer_norm_weight = self.layer_norm_weight.to_device(device);
        self.layer_norm_bias = self.layer_norm_bias.to_device(device);
    }
}

impl BertPooler {
    /// The weights as built for `config` on `device`, all zero.
    pub closed spec fn built_for(&self, config: BertConfig, device: Device) -> bool {
        &&& self.dense.is_f32(seq![config.hidden_size, config.hidden_size], device)
        &&& self.dense_bias.is_f32(seq![config.hidden_size], device)
    }

    /// `self` is `old` with its weights placed on `device`.
    pub closed spec fn moved_from(&self, old: Self, device: Device) -> bool {
        &&& self.dense.is_placed(old.dense, device)
        &&& self.dense_bias.is_placed(old.dense_bias, device)
    }

    fn new(config: &BertConfig, device: &Device) -> (r: Self)
        ensures
            r.built_for(*config, *device),
    {
        let dense = zeros2(config.hidden_size, config.hidden_size, device);
        let dense_bias = zeros1(config.hidden_size, device);
        BertPooler { dense, dense_bias }
    }

    /// Places the weights on `device`.
    fn to_device(&mut self, device: &Device)
        ensures
            final(self).moved_from(*old(self), *device),
    {
        self.dense = self.dense.to_device(device);
        self.dense_bias = self.dense_bias.to_device(device);
    }
}
/// Parameter bytes of the estimate: the three embedding tables, and per layer four square attention matrices and two MLP matrices, four bytes each.
pub open spec fn bert_param_bytes(c: BertConfig) -> int {
    (c.vocab_size * c.hidden_size + c.max_position_embeddings * c.hidden_size + c.type_vocab_size * c.hidden_size + c.num_hidden_layers * c.hidden_size * c.hidden_size * 4 + c.num_hidden_layers * c.hidden_size * c.intermediate_size * 2) * 4
}

/// No step of the memory estimate for `BertConfig` leaves the range of `usize`
/// or divides by zero.
pub open spec fn bert_memory_fits(c: BertConfig) -> bool {
    &&& c.vocab_size * c.hidden_size <= usize::MAX
    &&& c.max_position_embeddings * c.hidden_size <= usize::MAX
    &&& c.vocab_size * c.hidden_size + c.max_position_embeddings * c.hidden_size <= usize::MAX
    &&& c.type_vocab_size * c.hidden_size <= usize::MAX
    &&& c.vocab_size * c.hidden_size + c.max_position_embeddings * c.hidden_size + c.type_vocab_size * c.hidden_size <= usize::MAX
    &&& c.num_hidden_layers * c.hidden_size <= usize::MAX
    &&& c.num_hidden_layers * c.hidden_size * c.hidden_size <= usize::MAX
    &&& c.num_hidden_layers * c.hidden_size * c.hidden_size * 4 <= usize::MAX
    &&& c.vocab_size * c.hidden_size + c.max_position_embeddings * c.hidden_size + c.type_vocab_size * c.hidden_size + c.num_hidden_layers * c.hidden_size * c.hidden_size * 4 <= usize::MAX
    &&& c.num_hidden_layers * c.hidden_size * c.intermediate_size <= usize::MAX
    &&& c.num_hidden_layers * c.hidden_size * c.intermediate_size * 2 <= usize::MAX
    &&& c.vocab_size * c.hidden_size + c.max_position_embeddings * c.hidden_size + c.type_vocab_size * c.hidden_size + c.num_hidden_layers * c.hidden_size * c.hidden_size * 4 + c.num_hidden_layers * c.hidden_size * c.intermediate_size * 2 <= usize::MAX
    &&& (c.vocab_size * c.hidden_size + c.max_position_embeddings * c.hidden_size + c.type_vocab_size * c.hidden_size + c.num_hidden_layers * c.hidden_size * c.hidden_size * 4 + c.num_hidden_layers * c.hidden_size * c.intermediate_size * 2) * 4 <= usize::MAX
    &&& (c.vocab_size * c.hidden_size + c.max_position_embeddings * c.hidden_size + c.type_vocab_size * c.hidden_size + c.num_hidden_layers * c.hidden_size * c.hidden_size * 4 + c.num_hidden_layers * c.hidden_size * c.intermediate_size * 2) * 4 + (c.vocab_size * c.hidden_size + c.max_position_embeddings * c.hidden_size + c.type_vocab_size * c.hidden_size + c.num_hidden_layers * c.hidden_size * c.hidden_size * 4 + c.num_hidden_layers * c.hidden_size * c.intermediate_size * 2) * 4 / 2 <= usize::MAX
}

impl BertModelV2 {
    /// Estimated memory: the parameter bytes on the GPU, a quarter of them on the CPU, no key-value cache (BERT does not decode), and one and a half times the parameters at peak.
    pub fn memory_requirements(&self) -> (r: MemoryRequirements)
        requires
            bert_memory_fits(self.spec_config()),
        ensures
            r.gpu_memory == bert_param_bytes(self.spec_config()),
            r.cpu_memory == bert_param_bytes(self.spec_config()) / 4,
            r.kv_cache_memory == 0,
            r.peak_memory == bert_param_bytes(self.spec_config()) + bert_param_bytes(self.spec_config()) / 2,
    {
        let c = &self.config;
        let param_bytes = (c.vocab_size * c.hidden_size + c.max_position_embeddings * c.hidden_size + c.type_vocab_size * c.hidden_size + c.num_hidden_layers * c.hidden_size * c.hidden_size * 4 + c.num_hidden_layers * c.hidden_size * c.intermediate_size * 2) * 4;
        MemoryRequirements {
            gpu_memory: param_bytes,
            cpu_memory: param_bytes / 4,
            kv_cache_memory: 0,
            peak_memory: param_bytes + param_bytes / 2,
        }
    }
}

impl BertModelV2 {
    /// BERT encodes text and does not generate it: always an error.
    pub fn generate(&self, _prompt: &str, _config: &GenerationConfig) -> (r: Result<String, ModelError>)
        ensures
            r matches Err(ModelError::Unsupported(m)) && m@ == "BERT is an encoder-only model and cannot generate text. Use forward() to get embeddings instead."@,
    {
        Err(ModelError::Unsupported(String::from_str("BERT is an encoder-only model and cannot generate text. Use forward() to get embeddings instead.")))
    }
}

impl BertEmbeddings {
    /// `self` is `old` after loading from `weights`: each weight whose
    /// checkpoint name `weights` holds takes that tensor's shape, element
    /// type, device and elements (as is, or transposed for a matrix product),
    /// and nothing else changes.
    pub closed spec fn loaded(&self, old: Self, weights: ModelWeights) -> bool {
        &&& copied(self.word_embeddings, old.word_embeddings, first_found(weights, seq!["bert.embeddings.word_embeddings.weight"@, "embeddings.word_embeddings.weight"@]))
        &&& copied(self.position_embeddings, old.position_embeddings, first_found(weights, seq!["bert.embeddings.position_embeddings.weight"@, "embeddings.position_embeddings.weight"@]))
        &&& copied(self.token_type_embeddings, old.token_type_embeddings, first_found(weights, seq!["bert.embeddings.token_type_embeddings.weight"@, "embeddings.token_type_embeddings.weight"@]))
        &&& copied(self.layer_norm_weight, old.layer_norm_weight, first_found(weights, seq!["bert.embeddings.LayerNorm.weight"@, "embeddings.LayerNorm.weight"@, "bert.embeddings.LayerNorm.gamma"@]))
        &&& copied(self.layer_norm_bias, old.layer_norm_bias, first_found(weights, seq!["bert.embeddings.LayerNorm.bias"@, "embeddings.LayerNorm.bias"@, "bert.embeddings.LayerNorm.beta"@]))
        &&& self.config == old.config
    }

    /// Every tensor that loading from `weights` would transpose has at least
    /// two dimensions.
    pub closed spec fn loadable(&self, weights: ModelWeights) -> bool {
        true
    }

    /// Loads the weights of `weights` that this part names.
    fn load_weights(&mut self, weights: &ModelWeights) -> (r: Result<(), ModelError>)
        ensures
            r is Ok <==> old(self).loadable(*weights),
            r is Ok ==> final(self).loaded(*old(self), *weights),
            r matches Err(e) ==> is_transpose_error(e),
    {
        take_copy(&mut self.word_embeddings, get_first2(weights, "bert.embeddings.word_embeddings.weight", "embeddings.word_embeddings.weight"));
        take_copy(&mut self.position_embeddings, get_first2(weights, "bert.embeddings.position_embeddings.weight", "embeddings.position_embeddings.weight"));
        take_copy(&mut self.token_type_embeddings, get_first2(weights, "bert.embeddings.token_type_embeddings.weight", "embeddings.token_type_embeddings.weight"));
        take_copy(&mut self.layer_norm_weight, get_first3(weights, "bert.embeddings.LayerNorm.weight", "embeddings.LayerNorm.weight", "bert.embeddings.LayerNorm.gamma"));
        take_copy(&mut self.layer_norm_bias, get_first3(weights, "bert.embeddings.LayerNorm.bias", "embeddings.LayerNorm.bias", "bert.embeddings.LayerNorm.beta"));
        Ok(())
    }
}

impl BertEncoder {
    /// `self` is `old` after loading from `weights`: each weight whose
    /// checkpoint name `weights` holds takes that tensor's shape, element
    /// type, device and elements (as is, or transposed for a matrix product),
    /// and nothing else changes.
    pub closed spec fn loaded(&self, old: Self, weights: ModelWeights) -> bool {
        &&& self.layers@.len() == old.layers@.len()
        &&& forall|k: int| 0 <= k < old.layers@.len() ==> #[trigger] self.layers@[k].loaded(old.layers@[k], weights, k)
        &&& self.config == old.config
    }

    /// Every tensor that loading from `weights` would transpose has at least
    /// two dimensions.
    pub closed spec fn loadable(&self, weights: ModelWeights) -> bool {
        &&& forall|k: int| 0 <= k < self.layers@.len() ==> #[trigger] self.layers@[k].loadable(weights, k)
    }

    /// Loads the weights of `weights` that this part names.
    fn load_weights(&mut self, weights: &ModelWeights) -> (r: Result<(), ModelError>)
        ensures
            r is Ok <==> old(self).loadable(*weights),
            r is Ok ==> final(self).loaded(*old(self), *weights),
            r matches Err(e) ==> is_transpose_error(e),
    {
        let mut taken_layers: Vec<BertLayer> = Vec::new();
        std::mem::swap(&mut taken_layers, &mut self.layers);
        self.layers = Self::load_layers(taken_layers, weights)?;
        Ok(())
    }

    /// Loads each of `items`, in order, from `weights`.
    fn load_layers(items: Vec<BertLayer>, weights: &ModelWeights) -> (r: Result<Vec<BertLayer>, ModelError>)
        ensures
            r is Ok <==> forall|k: int| 0 <= k < items@.len() ==> #[trigger] items@[k].loadable(*weights, k),
            r matches Ok(v) ==> v@.len() == items@.len() && forall|k: int| 0 <= k < items@.len() ==> #[trigger] v@[k].loaded(items@[k], *weights, k),
            r matches Err(e) ==> is_transpose_error(e),
    {
        let mut rest = items;
        let mut done: Vec<BertLayer> = Vec::new();
        while rest.len() > 0
            invariant
                done@.len() + rest@.len() == items@.len(),
                rest@ == items@.subrange(done@.len() as int, items@.len() as int),
                forall|k: int| 0 <= k < done@.len() ==> #[trigger] done@[k].loaded(items@[k], *weights, k),
                forall|k: int| 0 <= k < done@.len() ==> #[trigger] items@[k].loadable(*weights, k),
            decreases rest@.len(),
        {
            let n = done.len();
            let mut item = rest.remove(0);
            assert(item == items@[n as int]);
            match item.load_weights(weights, n) {
                Ok(()) => {},
                Err(e) => {
                    assert(!items@[n as int].loadable(*weights, n as int));
                    return Err(e);
                },
            }
            done.push(item);
            assert(rest@ =~= items@.subrange(done@.len() as int, items@.len() as int));
        }
        Ok(done)
    }
}

impl BertLayer {
    /// `self` is `old` after loading from `weights`: each weight whose
    /// checkpoint name `weights` holds takes that tensor's shape, element
    /// type, device and elements (as is, or transposed for a matrix product),
    /// and nothing else changes.
    pub closed spec fn loaded(&self, old: Self, weights: ModelWeights, idx: int) -> bool {
        &&& self.attention.loaded(old.attention, weights, idx)
        &&& self.intermediate.loaded(old.intermediate, weights, idx)
        &&& self.output.loaded(old.output, weights, idx)
    }

    /// Every tensor that loading from `weights` would transpose has at least
    /// two dimensions.
    pub closed spec fn loadable(&self, weights: ModelWeights, idx: int) -> bool {
        &&& self.attention.loadable(weights, idx)
        &&& self.intermediate.loadable(weights, idx)
        &&& self.output.loadable(weights, idx)
    }

    /// Loads the weights of `weights` that this part names.
    fn load_weights(&mut self, weights: &ModelWeights, layer_idx: usize) -> (r: Result<(), ModelError>)
        ensures
            r is Ok <==> old(self).loadable(*weights, layer_idx as int),
            r is Ok ==> final(self).loaded(*old(self), *weights, layer_idx as int),
            r matches Err(e) ==> is_transpose_error(e),
    {
        self.attention.load_weights(weights, layer_idx)?;
        self.intermediate.load_weights(weights, layer_idx)?;
        self.output.load_weights(weights, layer_idx)?;
        Ok(())
    }
}

impl BertAttention {
    /// `self` is `old` after loading from `weights`: each weight whose
    /// checkpoint name `weights` holds takes that tensor's shape, element
    /// type, device and elements (as is, or transposed for a matrix product),
    /// and nothing else changes.
    pub closed spec fn loaded(&self, old: Self, weights: ModelWeights, idx: int) -> bool {
        &&& self.self_attention.loaded(old.self_attention, weights, idx)
        &&& self.output.loaded(old.output, weights, idx)
    }

    /// Every tensor that loading from `weights` would transpose has at least
    /// two dimensions.
    pub closed spec fn loadable(&self, weights: ModelWeights, idx: int) -> bool {
        &&& self.self_attention.loadable(weights, idx)
        &&& self.output.loadable(weights, idx)
    }

    /// Loads the weights of `weights` that this part names.
    fn load_weights(&mut self, weights: &ModelWeights, layer_idx: usize) -> (r: Result<(), ModelError>)
        ensures
            r is Ok <==> old(self).loadable(*weights, layer_idx as int),
            r is Ok ==> final(self).loaded(*old(self), *weights, layer_idx as int),
            r matches Err(e) ==> is_transpose_error(e),
    {
        self.self_attention.load_weights(weights, layer_idx)?;
        self.output.load_weights(weights, layer_idx)?;
        Ok(())
    }
}

impl BertSelfAttention {
    /// `self` is `old` after loading from `weights`: each weight whose
    /// checkpoint name `weights` holds takes that tensor's shape, element
    /// type, device and elements (as is, or transposed for a matrix product),
    /// and nothing else changes.
    pub closed spec fn loaded(&self, old: Self, weights: ModelWeights, idx: int) -> bool {
        &&& transposed(self.query, old.query, first_found(weights, seq![indexed("encoder.layer."@, idx, ".attention.self.query.weight"@), indexed("bert.encoder.layer."@, idx, ".attention.self.query.weight"@)]))
        &&& copied(self.query_bias, old.query_bias, first_found(weights, seq![indexed("encoder.layer."@, idx, ".attention.self.query.bias"@), indexed("bert.encoder.layer."@, idx, ".attention.self.query.bias"@)]))
        &&& transposed(self.key, old.key, first_found(weights, seq![indexed("encoder.layer."@, idx, ".attention.self.key.weight"@), indexed("bert.encoder.layer."@, idx, ".attention.self.key.weight"@)]))
        &&& copied(self.key_bias, old.key_bias, first_found(weights, seq![indexed("encoder.layer."@, idx, ".attention.self.key.bias"@), indexed("bert.encoder.layer."@, idx, ".attention.self.key.bias"@)]))
        &&& transposed(self.value, old.value, first_found(weights, seq![indexed("encoder.layer."@, idx, ".attention.self.value.weight"@), indexed("bert.encoder.layer."@, idx, ".attention.self.value.weight"@)]))
        &&& copied(self.value_bias, old.value_bias, first_found(weights, seq![indexed("encoder.layer."@, idx, ".attention.self.value.bias"@), indexed("bert.encoder.layer."@, idx, ".attention.self.value.bias"@)]))
        &&& self.num_attention_heads == old.num_attention_heads
        &&& self.head_dim == old.head_dim
    }

    /// Every tensor that loading from `weights` would transpose has at least
    /// two dimensions.
    pub closed spec fn loadable(&self, weights: ModelWeights, idx: int) -> bool {
        &&& transposable(weights.lookup(indexed("bert.encoder.layer."@, idx, ".attention.self.query.weight"@)))
        &&& transposable(weights.lookup(indexed("encoder.layer."@, idx, ".attention.self.query.weight"@)))
        &&& transposable(weights.lookup(indexed("bert.encoder.layer."@, idx, ".attention.self.key.weight"@)))
        &&& transposable(weights.lookup(indexed("encoder.layer."@, idx, ".attention.self.key.weight"@)))
        &&& transposable(weights.lookup(indexed("bert.encoder.layer."@, idx, ".attention.self.value.weight"@)))
        &&& transposable(weights.lookup(indexed("encoder.layer."@, idx, ".attention.self.value.weight"@)))
    }

    /// Loads the weights of `weights` that this part names.
    fn load_weights(&mut self, weights: &ModelWeights, layer_idx: usize) -> (r: Result<(), ModelError>)
        ensures
            r is Ok <==> old(self).loadable(*weights, layer_idx as int),
            r is Ok ==> final(self).loaded(*old(self), *weights, layer_idx as int),
            r matches Err(e) ==> is_transpose_error(e),
    {
        proof {
            reveal_with_fuel(first_found, 3);
        }
        load_transposed(&mut self.query, weights, indexed_name("bert.encoder.layer.", layer_idx, ".attention.self.query.weight").as_str())?;
        load_copy(&mut self.query_bias, weights, indexed_name("bert.encoder.layer.", layer_idx, ".attention.self.query.bias").as_str());
        load_transposed(&mut self.key, weights, indexed_name("bert.encoder.layer.", layer_idx, ".attention.self.key.weight").as_str())?;
        load_copy(&mut self.key_bias, weights, indexed_name("bert.encoder.layer.", layer_idx, ".attention.self.key.bias").as_str());
        load_transposed(&mut self.value, weights, indexed_name("bert.encoder.layer.", layer_idx, ".attention.self.value.weight").as_str())?;
        load_copy(&mut self.value_bias, weights, indexed_name("bert.encoder.layer.", layer_idx, ".attention.self.value.bias").as_str());
        load_transposed(&mut self.query, weights, indexed_name("encoder.layer.", layer_idx, ".attention.self.query.weight").as_str())?;
        load_copy(&mut self.query_bias, weights, indexed_name("encoder.layer.", layer_idx, ".attention.self.query.bias").as_str());
        load_transposed(&mut self.key, weights, indexed_name("encoder.layer.", layer_idx, ".attention.self.key.weight").as_str())?;
        load_copy(&mut self.key_bias, weights, indexed_name("encoder.layer.", layer_idx, ".attention.self.key.bias").as_str());
        load_transposed(&mut self.value, weights, indexed_name("encoder.layer.", layer_idx, ".attention.self.value.weight").as_str())?;
        load_copy(&mut self.value_bias, weights, indexed_name("encoder.layer.", layer_idx, ".attention.self.value.bias").as_str());
        Ok(())
    }
}

impl BertSelfOutput {
    /// `self` is `old` after loading from `weights`: each weight whose
    /// checkpoint name `weights` holds takes that tensor's shape, element
    /// type, device and elements (as is, or transposed for a matrix product),
    /// and nothing else changes.
    pub closed spec fn loaded(&self, old: Self, weights: ModelWeights, idx: int) -> bool {
        &&& transposed(self.dense, old.dense, first_found(weights, seq![indexed("encoder.layer."@, idx, ".attention.output.dense.weight"@), indexed("bert.encoder.layer."@, idx, ".attention.output.dense.weight"@)]))
        &&& copied(self.dense_bias, old.dense_bias, first_found(weights, seq![indexed("encoder.layer."@, idx, ".attention.output.dense.bias"@), indexed("bert.encoder.layer."@, idx, ".attention.output.dense.bias"@)]))
        &&& copied(self.layer_norm_weight, old.layer_norm_weight, first_found(weights, seq![indexed("encoder.layer."@, idx, ".attention.output.LayerNorm.weight"@), indexed("bert.encoder.layer."@, idx, ".attention.output.LayerNorm.weight"@)]))
        &&& copied(self.layer_norm_bias, old.layer_norm_bias, first_found(weights, seq![indexed("encoder.layer."@, idx, ".attention.output.LayerNorm.bias"@), indexed("bert.encoder.layer."@, idx, ".attention.output.LayerNorm.bias"@)]))
        &&& self.layer_norm_eps == old.layer_norm_eps
    }

    /// Every tensor that loading from `weights` would transpose has at least
    /// two dimensions.
    pub closed spec fn loadable(&self, weights: ModelWeights, idx: int) -> bool {
        &&& transposable(weights.lookup(indexed("bert.encoder.layer."@, idx, ".attention.output.dense.weight"@)))
        &&& transposable(weights.lookup(indexed("encoder.layer."@, idx, ".attention.output.dense.weight"@)))
    }

    /// Loads the weights of `weights` that this part names.
    fn load_weights(&mut self, weights: &ModelWeights, layer_idx: usize) -> (r: Result<(), ModelError>)
        ensures
            r is Ok <==> old(self).loadable(*weights, layer_idx as int),
            r is Ok ==> final(self).loaded(*old(self), *weights, layer_idx as int),
            r matches Err(e) ==> is_transpose_error(e),
    {
        proof {
            reveal_with_fuel(first_found, 3);
        }
        load_transposed(&mut self.dense, weights, indexed_name("bert.encoder.layer.", layer_idx, ".attention.output.dense.weight").as_str())?;
        load_copy(&mut self.dense_bias, weights, indexed_name("bert.encoder.layer.", layer_idx, ".attention.output.dense.bias").as_str());
        load_copy(&mut self.layer_norm_weight, weights, indexed_name("bert.encoder.layer.", layer_idx, ".attention.output.LayerNorm.weight").as_str());
        load_copy(&mut self.layer_norm_bias, weights, indexed_name("bert.encoder.layer.", layer_idx, ".attention.output.LayerNorm.bias").as_str());
        load_transposed(&mut self.dense, weights, indexed_name("encoder.layer.", layer_idx, ".attention.output.dense.weight").as_str())?;
        load_copy(&mut self.dense_bias, weights, indexed_name("encoder.layer.", layer_idx, ".attention.output.dense.bias").as_str());
        load_copy(&mut self.layer_norm_weight, weights, indexed_name("encoder.layer.", layer_idx, ".attention.output.LayerNorm.weight").as_str());
        load_copy(&mut self.layer_norm_bias, weights, indexed_name("encoder.layer.", layer_idx, ".attention.output.LayerNorm.bias").as_str());
        Ok(())
    }
}

impl BertIntermediate {
    /// `self` is `old` after loading from `weights`: each weight whose
    /// checkpoint name `weights` holds takes that tensor's shape, element
    /// type, device and elements (as is, or transposed for a matrix product),
    /// and nothing else changes.
    pub closed spec fn loaded(&self, old: Self, weights: ModelWeights, idx: int) -> bool {
        &&& transposed(self.dense, old.dense, first_found(weights, seq![indexed("encoder.layer."@, idx, ".intermediate.dense.weight"@), indexed("bert.encoder.layer."@, idx, ".intermediate.dense.weight"@)]))
        &&& copied(self.dense_bias, old.dense_bias, first_found(weights, seq![indexed("encoder.layer."@, idx, ".intermediate.dense.bias"@), indexed("bert.encoder.layer."@, idx, ".intermediate.dense.bias"@)]))
        &&& self.hidden_act == old.hidden_act
    }

    /// Every tensor that loading from `weights` would transpose has at least
    /// two dimensions.
    pub closed spec fn loadable(&self, weights: ModelWeights, idx: int) -> bool {
        &&& transposable(weights.lookup(indexed("bert.encoder.layer."@, idx, ".intermediate.dense.weight"@)))
        &&& transposable(weights.lookup(indexed("encoder.layer."@, idx, ".intermediate.dense.weight"@)))
    }

    /// Loads the weights of `weights` that this part names.
    fn load_weights(&mut self, weights: &ModelWeights, layer_idx: usize) -> (r: Result<(), ModelError>)
        ensures
            r is Ok <==> old(self).loadable(*weights, layer_idx as int),
            r is Ok ==> final(self).loaded(*old(self), *weights, layer_idx as int),
            r matches Err(e) ==> is_transpose_error(e),
    {
        proof {
            reveal_with_fuel(first_found, 3);
        }
        load_transposed(&mut self.dense, weights, indexed_name("bert.encoder.layer.", layer_idx, ".intermediate.dense.weight").as_str())?;
        load_copy(&mut self.dense_bias, weights, indexed_name("bert.encoder.layer.", layer_idx, ".intermediate.dense.bias").as_str());
        load_transposed(&mut self.dense, weights, indexed_name("encoder.layer.", layer_idx, ".intermediate.dense.weight").as_str())?;
        load_copy(&mut self.dense_bias, weights, indexed_name("encoder.layer.", layer_idx, ".intermediate.dense.bias").as_str());
        Ok(())
    }
}

impl BertOutput {
    /// `self` is `old` after loading from `weights`: each weight whose
    /// checkpoint name `weights` holds takes that tensor's shape, element
    /// type, device and elements (as is, or transposed for a matrix product),
    /// and nothing else changes.
    pub closed spec fn loaded(&self, old: Self, weights: ModelWeights, idx: int) -> bool {
        &&& transposed(self.dense, old.dense, first_found(weights, seq![indexed("encoder.layer."@, idx, ".output.dense.weight"@), indexed("bert.encoder.layer."@, idx, ".output.dense.weight"@)]))
        &&& copied(self.dense_bias, old.dense_bias, first_found(weights, seq![indexed("encoder.layer."@, idx, ".output.dense.bias"@), indexed("bert.encoder.layer."@, idx, ".output.dense.bias"@)]))
        &&& copied(self.layer_norm_weight, old.layer_norm_weight, first_found(weights, seq![indexed("encoder.layer."@, idx, ".output.LayerNorm.weight"@), indexed("bert.encoder.layer."@, idx, ".output.LayerNorm.weight"@)]))
        &&& copied(self.layer_norm_bias, old.layer_norm_bias, first_found(weights, seq![indexed("encoder.layer."@, idx, ".output.LayerNorm.bias"@), indexed("bert.encoder.layer."@, idx, ".output.LayerNorm.bias"@)]))
        &&& self.layer_norm_eps == old.layer_norm_eps
    }

    /// Every tensor that loading from `weights` would transpose has at least
    /// two dimensions.
    pub closed spec fn loadable(&self, weights: ModelWeights, idx: int) -> bool {
        &&& transposable(weights.lookup(indexed("bert.encoder.layer."@, idx, ".output.dense.weight"@)))
        &&& transposable(weights.lookup(indexed("encoder.layer."@, idx, ".output.dense.weight"@)))
    }

    /// Loads the weights of `weights` that this part names.
    fn load_weights(&mut self, weights: &ModelWeights, layer_idx: usize) -> (r: Result<(), ModelError>)
        ensures
            r is Ok <==> old(self).loadable(*weights, layer_idx as int),
            r is Ok ==> final(self).loaded(*old(self), *weights, layer_idx as int),
            r matches Err(e) ==> is_transpose_error(e),
    {
        proof {
            reveal_with_fuel(first_found, 3);
        }
        load_transposed(&mut self.dense, weights, indexed_name("bert.encoder.layer.", layer_idx, ".output.dense.weight").as_str())?;
        load_copy(&mut self.dense_bias, weights, indexed_name("bert.encoder.layer.", layer_idx, ".output.dense.bias").as_str());
        load_copy(&mut self.layer_norm_weight, weights, indexed_name("bert.encoder.layer.", layer_idx, ".output.LayerNorm.weight").as_str());
        load_copy(&mut self.layer_norm_bias, weights, indexed_name("bert.encoder.layer.", layer_idx, ".output.LayerNorm.bias").as_str());
        load_transposed(&mut self.dense, weights, indexed_name("encoder.layer.", layer_idx, ".output.dense.weight").as_str())?;
        load_copy(&mut self.dense_bias, weights, indexed_name("encoder.layer.", layer_idx, ".output.dense.bias").as_str());
        load_copy(&mut self.layer_norm_weight, weights, indexed_name("encoder.layer.", layer_idx, ".output.LayerNorm.weight").as_str());
        load_copy(&mut self.layer_norm_bias, weights, indexed_name("encoder.layer.", layer_idx, ".output.LayerNorm.bias").as_str());
        Ok(())
    }
}

impl BertPooler {
    /// `self` is `old` after loading from `weights`: each weight whose
    /// checkpoint name `weights` holds takes that tensor's shape, element
    /// type, device and elements (as is, or transposed for a matrix product),
    /// and nothing else changes.
    pub closed spec fn loaded(&self, old: Self, weights: ModelWeights) -> bool {
        &&& transposed(self.dense, old.dense, first_found(weights, seq!["bert.pooler.dense.weight"@, "pooler.dense.weight"@]))
        &&& copied(self.dense_bias, old.dense_bias, first_found(weights, seq!["bert.pooler.dense.bias"@, "pooler.dense.bias"@]))
    }

    /// Every tensor that loading from `weights` would transpose has at least
    /// two dimensions.
    pub closed spec fn loadable(&self, weights: ModelWeights) -> bool {
        &&& transposable(first_found(weights, seq!["bert.pooler.dense.weight"@, "pooler.dense.weight"@]))
    }

    /// Loads the weights of `weights` that this part names.
    fn load_weights(&mut self, weights: &ModelWeights) -> (r: Result<(), ModelError>)
        ensures
            r is Ok <==> old(self).loadable(*weights),
            r is Ok ==> final(self).loaded(*old(self), *weights),
            r matches Err(e) ==> is_transpose_error(e),
    {
        take_transposed(&mut self.dense, get_first2(weights, "bert.pooler.dense.weight", "pooler.dense.weight"))?;
        take_copy(&mut self.dense_bias, get_first2(weights, "bert.pooler.dense.bias", "pooler.dense.bias"));
        Ok(())
    }
}

impl BertModelV2 {
    /// `self` is `old` after loading from `weights`: the embeddings, the
    /// encoder and the pooler, when there is one, each loaded, and nothing
    /// else changed.
    /// Copying or transposing a tensor takes its shape, element type,
    /// device and elements.
    pub closed spec fn loaded(&self, old: Self, weights: ModelWeights) -> bool {
        &&& self.config == old.config
        &&& self.device == old.device
        &&& self.embeddings.loaded(old.embeddings, weights)
        &&& self.encoder.loaded(old.encoder, weights)
        &&& match (self.pooler, old.pooler) {
            (Some(p), Some(q)) => p.loaded(q, weights),
            (None, None) => true,
            _ => false,
        }
    }

    /// Every tensor that loading from `weights` would transpose has at least
    /// two dimensions.
    pub closed spec fn loadable(&self, weights: ModelWeights) -> bool {
        &&& self.embeddings.loadable(weights)
        &&& self.encoder.loadable(weights)
        &&& match self.pooler {
            Some(p) => p.loadable(weights),
            None => true,
        }
    }

    /// Loads the weights of `weights` that this model names.
    fn load_weights(&mut self, weights: &ModelWeights) -> (r: Result<(), ModelError>)
        ensures
            r is Ok <==> old(self).loadable(*weights),
            r is Ok ==> final(self).loaded(*old(self), *weights),
            r matches Err(e) ==> is_transpose_error(e),
    {
        self.embeddings.load_weights(weights)?;
        self.encoder.load_weights(weights)?;
        let mut taken: Option<BertPooler> = None;
        std::mem::swap(&mut taken, &mut self.pooler);
        match taken {
            Some(mut p) => {
                let r = p.load_weights(weights);
                self.pooler = Some(p);
                r
            },
            None => Ok(()),
        }
    }
}

impl BertModelV2 {
    /// Builds the model for `config` as `new` does and loads the weights that
    /// `weights` holds under their checkpoint names: the result is the built
    /// model with those weights taken, and an error exactly when a tensor that
    /// must be transposed has fewer than two dimensions.
    pub fn from_weights(config: BertConfig, weights: ModelWeights) -> (r: Result<Self, ModelError>)
        requires
            config.num_attention_heads > 0,
        ensures
            exists|built: Self| #[trigger] built.built_for(config, Device::CPU) && built.spec_config() == config
                && built.spec_device() == Device::CPU && (r is Ok <==> built.loadable(weights))
                && (r matches Ok(m) ==> m.spec_config() == config && m.spec_device() == Device::CPU && m.loaded(built, weights))
                && (r matches Err(e) ==> is_transpose_error(e)),
    {
        let mut model = match Self::new(config) {
            Ok(m) => m,
            Err(e) => {
                return Err(e);
            },
        };
        let ghost built = model;
        match model.load_weights(&weights) {
            Ok(()) => {
                assert(built.built_for(config, Device::CPU));
                Ok(model)
            },
            Err(e) => {
                assert(built.built_for(config, Device::CPU));
                Err(e)
            },
        }
    }
}

impl BertModelV2 {
    /// Moving to `d1` and then to `d2` leaves the model as a single move to
    /// `d2` would: the second move overrides the first.
    pub proof fn lemma_moves_compose(first: Self, second: Self, third: Self, d1: Device, d2: Device)
        requires
            second.moved_from(first, d1),
            third.moved_from(second, d2),
        ensures
            third.moved_from(first, d2),
    {
        BertEmbeddings::lemma_moves_compose(first.embeddings, second.embeddings, third.embeddings, d1, d2);
        BertEncoder::lemma_moves_compose(first.encoder, second.encoder, third.encoder, d1, d2);
        match (first.pooler, second.pooler, third.pooler) {
            (Some(a), Some(b), Some(c)) => {
                BertPooler::lemma_moves_compose(a, b, c, d1, d2);
            },
            _ => {},
        }
    }
}

impl BertEmbeddings {
    /// A move to `d1` followed by a move to `d2` is a move to `d2`.
    proof fn lemma_moves_compose(first: Self, second: Self, third: Self, d1: Device, d2: Device)
        requires
            second.moved_from(first, d1),
            third.moved_from(second, d2),
        ensures
            third.moved_from(first, d2),
    {
    }
}

impl BertEncoder {
    /// A move to `d1` followed by a move to `d2` is a move to `d2`.
    proof fn lemma_moves_compose(first: Self, second: Self, third: Self, d1: Device, d2: Device)
        requires
            second.moved_from(first, d1),
            third.moved_from(second, d2),
        ensures
            third.moved_from(first, d2),
    {
        assert forall|k: int| 0 <= k < third.layers@.len() implies #[trigger] third.layers@[k].moved_from(first.layers@[k], d2) by {
            BertLayer::lemma_moves_compose(first.layers@[k], second.layers@[k], third.layers@[k], d1, d2);
        }
    }
}

impl BertLayer {
    /// A move to `d1` followed by a move to `d2` is a move to `d2`.
    proof fn lemma_moves_compose(first: Self, second: Self, third: Self, d1: Device, d2: Device)
        requires
            second.moved_from(first, d1),
            third.moved_from(second, d2),
        ensures
            third.moved_from(first, d2),
    {
        BertAttention::lemma_moves_compose(first.attention, second.attention, third.attention, d1, d2);
        BertIntermediate::lemma_moves_compose(first.intermediate, second.intermediate, third.intermediate, d1, d2);
        BertOutput::lemma_moves_compose(first.output, second.output, third.output, d1, d2);
    }
}

impl BertAttention {
    /// A move to `d1` followed by a move to `d2` is a move to `d2`.
    proof fn lemma_moves_compose(first: Self, second: Self, third: Self, d1: Device, d2: Device)
        requires
            second.moved_from(first, d1),
            third.moved_from(second, d2),
        ensures
            third.moved_from(first, d2),
    {
        BertSelfAttention::lemma_moves_compose(first.self_attention, second.self_attention, third.self_attention, d1, d2);
        BertSelfOutput::lemma_moves_compose(first.output, second.output, third.output, d1, d2);
    }
}

impl BertSelfAttention {
    /// A move to `d1` followed by a move to `d2` is a move to `d2`.
    proof fn lemma_moves_compose(first: Self, second: Self, third: Self, d1: Device, d2: Device)
        requires
            second.moved_from(first, d1),
            third.moved_from(second, d2),
        ensures
            third.moved_from(first, d2),
    {
    }
}

impl BertSelfOutput {
    /// A move to `d1` followed by a move to `d2` is a move to `d2`.
    proof fn lemma_moves_compose(first: Self, second: Self, third: Self, d1: Device, d2: Device)
        requires
            second.moved_from(first, d1),
            third.moved_from(second, d2),
        ensures
            third.moved_from(first, d2),
    {
    }
}

impl BertIntermediate {
    /// A move to `d1` followed by a move to `d2` is a move to `d2`.
    proof fn lemma_moves_compose(first: Self, second: Self, third: Self, d1: Device, d2: Device)
        requires
            second.moved_from(first, d1),
            third.moved_from(second, d2),
        ensures
            third.moved_from(first, d2),
    {
    }
}

impl BertOutput {
    /// A move to `d1` followed by a move to `d2` is a move to `d2`.
    proof fn lemma_moves_compose(first: Self, second: Self, third: Self, d1: Device, d2: Device)
        requires
            second.moved_from(first, d1),
            third.moved_from(second, d2),
        ensures
            third.moved_from(first, d2),
    {
    }
}

impl BertPooler {
    /// A move to `d1` followed by a move to `d2` is a move to `d2`.
    proof fn lemma_moves_compose(first: Self, second: Self, third: Self, d1: Device, d2: Device)
        requires
            second.moved_from(first, d1),
            third.moved_from(second, d2),
        ensures
            third.moved_from(first, d2),
    {
    }
}

} // verus!

verus! {

impl BertConfig {
    /// The default configuration has these sizes: the clauses below.
    pub proof fn lemma_default_sizes(&self)
        requires
            self.gguf_fields_default(),
        ensures
            self.vocab_size == 30522,
            self.hidden_size == 768,
            self.intermediate_size == 3072,
            self.num_hidden_layers == 12,
            self.num_attention_heads == 12,
            self.max_position_embeddings == 512,
            self.layer_norm_eps.bits == 0x2b8cbccc,
    {
    }

    /// The default configuration has these remaining settings: the clauses below.
    pub proof fn lemma_default_settings(&self)
        requires
            self.other_fields_default(),
        ensures
            self.hidden_act@ == "gelu"@,
            self.initializer_range.bits == 0x3ca3d70a,
            self.pad_token_id == 0,
            self.type_vocab_size == 2,
            self.rms_norm_eps.bits == 0x2b8cbccc,
    {
    }

    /// The default configuration is the one with the default sizes and settings: the clauses below.
    pub proof fn lemma_default_parts(&self)
        requires
            self.is_default(),
        ensures
            ({
            self.gguf_fields_default() && self.other_fields_default()
        }),
    {
    }
}

impl BertModelV2 {
    /// Built for `config` on `device`, each weight is the zero tensor of the shape the configuration gives, on `device`, and each recorded size is the configured one: the clauses below.
    pub proof fn lemma_built_weights(&self, config: BertConfig, device: Device)
        requires
            self.built_for(config, device),
        ensures
            self.embeddings.built_for(config, device),
            self.encoder.built_for(config, device),
            (self.pooler matches Some(s) && s.built_for(config, device)),
    {
    }

    /// After a move to `device`, every weight lies on `device` with its shape, element type and elements kept, and nothing else changes: the clauses below.
    pub proof fn lemma_moved_weights(&self, before: Self, device: Device)
        requires
            self.moved_from(before, device),
        ensures
            self.config == before.config,
            self.device == device,
            self.embeddings.moved_from(before.embeddings, device),
            self.encoder.moved_from(before.encoder, device),
            (match (self.pooler, before.pooler) { (Some(a), Some(b)) => a.moved_from(b, device), (None, None) => true, _ => false }),
    {
    }

    /// After loading from `weights`, each weight holds the tensor stored under its checkpoint name, copied or transposed, and keeps its previous value when the name is absent; nothing else changes: the clauses below.
    pub proof fn lemma_loaded_weights(&self, before: Self, weights: ModelWeights)
        requires
            self.loaded(before, weights),
        ensures
            self.config == before.config,
            self.device == before.device,
            self.embeddings.loaded(before.embeddings, weights),
            self.encoder.loaded(before.encoder, weights),
            match (self.pooler, before.pooler) {
                (Some(p), Some(q)) => p.loaded(q, weights),
                (None, None) => true,
                _ => false,
            },
    {
    }

    /// Loading from `weights` succeeds only when every tensor it must transpose, found under these checkpoint names, has at least two dimensions: the clauses below.
    pub proof fn lemma_loadable_names(&self, weights: ModelWeights)
        requires
            self.loadable(weights),
        ensures
            self.embeddings.loadable(weights),
            self.encoder.loadable(weights),
            match self.pooler {
                Some(p) => p.loadable(weights),
                None => true,
            },
    {
    }
}

impl BertEmbeddings {
    /// Built for `config` on `device`, each weight is the zero tensor of the shape the configuration gives, on `device`, and each recorded size is the configured one: the clauses below.
    pub proof fn lemma_built_weights(&self, config: BertConfig, device: Device)
        requires
            self.built_for(config, device),
        ensures
            self.word_embeddings.is_f32(seq![config.vocab_size, config.hidden_size], device),
            self.position_embeddings.is_f32(seq![config.max_position_embeddings, config.hidden_size], device),
            self.token_type_embeddings.is_f32(seq![config.type_vocab_size, config.hidden_size], device),
            self.layer_norm_weight.is_f32(seq![config.hidden_size], device),
            self.layer_norm_bias.is_f32(seq![config.hidden_size], device),
    {
    }

    /// After a move to `device`, every weight lies on `device` with its shape, element type and elements kept, and nothing else changes: the clauses below.
    pub proof fn lemma_moved_weights(&self, before: Self, device: Device)
        requires
            self.moved_from(before, device),
        ensures
            self.word_embeddings.is_placed(before.word_embeddings, device),
            self.position_embeddings.is_placed(before.position_embeddings, device),
            self.token_type_embeddings.is_placed(before.token_type_embeddings, device),
            self.layer_norm_weight.is_placed(before.layer_norm_weight, device),
            self.layer_norm_bias.is_placed(before.layer_norm_bias, device),
            self.config == before.config,
    {
    }

    /// After loading from `weights`, each weight holds the tensor stored under its checkpoint name, copied or transposed, and keeps its previous value when the name is absent; nothing else changes: the clauses below.
    pub proof fn lemma_loaded_weights(&self, before: Self, weights: ModelWeights)
        requires
            self.loaded(before, weights),
        ensures
            copied(self.word_embeddings, before.word_embeddings, first_found(weights, seq!["bert.embeddings.word_embeddings.weight"@, "embeddings.word_embeddings.weight"@])),
            copied(self.position_embeddings, before.position_embeddings, first_found(weights, seq!["bert.embeddings.position_embeddings.weight"@, "embeddings.position_embeddings.weight"@])),
            copied(self.token_type_embeddings, before.token_type_embeddings, first_found(weights, seq!["bert.embeddings.token_type_embeddings.weight"@, "embeddings.token_type_embeddings.weight"@])),
            copied(self.layer_norm_weight, before.layer_norm_weight, first_found(weights, seq!["bert.embeddings.LayerNorm.weight"@, "embeddings.LayerNorm.weight"@, "bert.embeddings.LayerNorm.gamma"@])),
            copied(self.layer_norm_bias, before.layer_norm_bias, first_found(weights, seq!["bert.embeddings.LayerNorm.bias"@, "embeddings.LayerNorm.bias"@, "bert.embeddings.LayerNorm.beta"@])),
            self.config == before.config,
    {
    }

    /// Loading from `weights` succeeds only when every tensor it must transpose, found under these checkpoint names, has at least two dimensions: the clauses below.
    pub proof fn lemma_loadable_names(&self, weights: ModelWeights)
        requires
            self.loadable(weights),
        ensures
            ({
            true
        }),
    {
    }
}

impl BertEncoder {
    /// Built for `config` on `device`, each weight is the zero tensor of the shape the configuration gives, on `device`, and each recorded size is the configured one: the clauses below.
    pub proof fn lemma_built_weights(&self, config: BertConfig, device: Device)
        requires
            self.built_for(config, device),
        ensures
            self.layers@.len() == config.num_hidden_layers,
            forall|k: int| 0 <= k < self.layers@.len() ==> #[trigger] self.layers@[k].built_for(config, device),
    {
    }

    /// After a move to `device`, every weight lies on `device` with its shape, element type and elements kept, and nothing else changes: the clauses below.
    pub proof fn lemma_moved_weights(&self, before: Self, device: Device)
        requires
            self.moved_from(before, device),
        ensures
            self.layers@.len() == before.layers@.len(),
            forall|k: int| 0 <= k < self.layers@.len() ==> #[trigger] self.layers@[k].moved_from(before.layers@[k], device),
            self.config == before.config,
    {
    }

    /// After loading from `weights`, each weight holds the tensor stored under its checkpoint name, copied or transposed, and keeps its previous value when the name is absent; nothing else changes: the clauses below.
    pub proof fn lemma_loaded_weights(&self, before: Self, weights: ModelWeights)
        requires
            self.loaded(before, weights),
        ensures
            self.layers@.len() == before.layers@.len(),
            forall|k: int| 0 <= k < before.layers@.len() ==> #[trigger] self.layers@[k].loaded(before.layers@[k], weights, k),
            self.config == before.config,
    {
    }

    /// Loading from `weights` succeeds only when every tensor it must transpose, found under these checkpoint names, has at least two dimensions: the clauses below.
    pub proof fn lemma_loadable_names(&self, weights: ModelWeights)
        requires
            self.loadable(weights),
        ensures
            forall|k: int| 0 <= k < self.layers@.len() ==> #[trigger] self.layers@[k].loadable(weights, k),
    {
    }
}

impl BertLayer {
    /// Built for `config` on `device`, each weight is the zero tensor of the shape the configuration gives, on `device`, and each recorded size is the configured one: the clauses below.
    pub proof fn lemma_built_weights(&self, config: BertConfig, device: Device)
        requires
            self.built_for(config, device),
        ensures
            self.attention.built_for(config, device),
            self.intermediate.built_for(config, device),
            self.output.built_for(config, device),
    {
    }

    /// After a move to `device`, every weight lies on `device` with its shape, element type and elements kept, and nothing else changes: the clauses below.
    pub proof fn lemma_moved_weights(&self, before: Self, device: Device)
        requires
            self.moved_from(before, device),
        ensures
            self.attention.moved_from(before.attention, device),
            self.intermediate.moved_from(before.intermediate, device),
            self.output.moved_from(before.output, device),
    {
    }

    /// After loading from `weights`, each weight holds the tensor stored under its checkpoint name, copied or transposed, and keeps its previous value when the name is absent; nothing else changes: the clauses below.
    pub proof fn lemma_loaded_weights(&self, before: Self, weights: ModelWeights, idx: int)
        requires
            self.loaded(before, weights, idx),
        ensures
            self.attention.loaded(before.attention, weights, idx),
            self.intermediate.loaded(before.intermediate, weights, idx),
            self.output.loaded(before.output, weights, idx),
    {
    }

    /// Loading from `weights` succeeds only when every tensor it must transpose, found under these checkpoint names, has at least two dimensions: the clauses below.
    pub proof fn lemma_loadable_names(&self, weights: ModelWeights, idx: int)
        requires
            self.loadable(weights, idx),
        ensures
            self.attention.loadable(weights, idx),
            self.intermediate.loadable(weights, idx),
            self.output.loadable(weights, idx),
    {
    }
}

impl BertAttention {
    /// Built for `config` on `device`, each weight is the zero tensor of the shape the configuration gives, on `device`, and each recorded size is the configured one: the clauses below.
    pub proof fn lemma_built_weights(&self, config: BertConfig, device: Device)
        requires
            self.built_for(config, device),
        ensures
            self.self_attention.built_for(config, device),
            self.output.built_for(config, device),
    {
    }

    /// After a move to `device`, every weight lies on `device` with its shape, element type and elements kept, and nothing else changes: the clauses below.
    pub proof fn lemma_moved_weights(&self, before: Self, device: Device)
        requires
            self.moved_from(before, device),
        ensures
            self.self_attention.moved_from(before.self_attention, device),
            self.output.moved_from(before.output, device),
    {
    }

    /// After loading from `weights`, each weight holds the tensor stored under its checkpoint name, copied or transposed, and keeps its previous value when the name is absent; nothing else changes: the clauses below.
    pub proof fn lemma_loaded_weights(&self, before: Self, weights: ModelWeights, idx: int)
        requires
            self.loaded(before, weights, idx),
        ensures
            self.self_attention.loaded(before.self_attention, weights, idx),
            self.output.loaded(before.output, weights, idx),
    {
    }

    /// Loading from `weights` succeeds only when every tensor it must transpose, found under these checkpoint names, has at least two dimensions: the clauses below.
    pub proof fn lemma_loadable_names(&self, weights: ModelWeights, idx: int)
        requires
            self.loadable(weights, idx),
        ensures
            self.self_attention.loadable(weights, idx),
            self.output.loadable(weights, idx),
    {
    }
}

impl BertSelfAttention {
    /// Built for `config` on `device`, each weight is the zero tensor of the shape the configuration gives, on `device`, and each recorded size is the configured one: the clauses below.
    pub proof fn lemma_built_weights(&self, config: BertConfig, device: Device)
        requires
            self.built_for(config, device),
        ensures
            self.query.is_f32(seq![config.hidden_size, config.hidden_size], device),
            self.query_bias.is_f32(seq![config.hidden_size], device),
            self.key.is_f32(seq![config.hidden_size, config.hidden_size], device),
            self.key_bias.is_f32(seq![config.hidden_size], device),
            self.value.is_f32(seq![config.hidden_size, config.hidden_size], device),
            self.value_bias.is_f32(seq![config.hidden_size], device),
            self.num_attention_heads == config.num_attention_heads,
            self.head_dim == config.hidden_size / config.num_attention_heads,
    {
    }

    /// After a move to `device`, every weight lies on `device` with its shape, element type and elements kept, and nothing else changes: the clauses below.
    pub proof fn lemma_moved_weights(&self, before: Self, device: Device)
        requires
            self.moved_from(before, device),
        ensures
            self.query.is_placed(before.query, device),
            self.query_bias.is_placed(before.query_bias, device),
            self.key.is_placed(before.key, device),
            self.key_bias.is_placed(before.key_bias, device),
            self.value.is_placed(before.value, device),
            self.value_bias.is_placed(before.value_bias, device),
            self.num_attention_heads == before.num_attention_heads,
            self.head_dim == before.head_dim,
    {
    }

    /// After loading from `weights`, each weight holds the tensor stored under its checkpoint name, copied or transposed, and keeps its previous value when the name is absent; nothing else changes: the clauses below.
    pub proof fn lemma_loaded_weights(&self, before: Self, weights: ModelWeights, idx: int)
        requires
            self.loaded(before, weights, idx),
        ensures
            transposed(self.query, before.query, first_found(weights, seq![indexed("encoder.layer."@, idx, ".attention.self.query.weight"@), indexed("bert.encoder.layer."@, idx, ".attention.self.query.weight"@)])),
            copied(self.query_bias, before.query_bias, first_found(weights, seq![indexed("encoder.layer."@, idx, ".attention.self.query.bias"@), indexed("bert.encoder.layer."@, idx, ".attention.self.query.bias"@)])),
            transposed(self.key, before.key, first_found(weights, seq![indexed("encoder.layer."@, idx, ".attention.self.key.weight"@), indexed("bert.encoder.layer."@, idx, ".attention.self.key.weight"@)])),
            copied(self.key_bias, before.key_bias, first_found(weights, seq![indexed("encoder.layer."@, idx, ".attention.self.key.bias"@), indexed("bert.encoder.layer."@, idx, ".attention.self.key.bias"@)])),
            transposed(self.value, before.value, first_found(weights, seq![indexed("encoder.layer."@, idx, ".attention.self.value.weight"@), indexed("bert.encoder.layer."@, idx, ".attention.self.value.weight"@)])),
            copied(self.value_bias, before.value_bias, first_found(weights, seq![indexed("encoder.layer."@, idx, ".attention.self.value.bias"@), indexed("bert.encoder.layer."@, idx, ".attention.self.value.bias"@)])),
            self.num_attention_heads == before.num_attention_heads,
            self.head_dim == before.head_dim,
    {
    }

    /// Loading from `weights` succeeds only when every tensor it must transpose, found under these checkpoint names, has at least two dimensions: the clauses below.
    pub proof fn lemma_loadable_names(&self, weights: ModelWeights, idx: int)
        requires
            self.loadable(weights, idx),
        ensures
            transposable(weights.lookup(indexed("bert.encoder.layer."@, idx, ".attention.self.query.weight"@))),
            transposable(weights.lookup(indexed("encoder.layer."@, idx, ".attention.self.query.weight"@))),
            transposable(weights.lookup(indexed("bert.encoder.layer."@, idx, ".attention.self.key.weight"@))),
            transposable(weights.lookup(indexed("encoder.layer."@, idx, ".attention.self.key.weight"@))),
            transposable(weights.lookup(indexed("bert.encoder.layer."@, idx, ".attention.self.value.weight"@))),
            transposable(weights.lookup(indexed("encoder.layer."@, idx, ".attention.self.value.weight"@))),
    {
    }
}

impl BertSelfOutput {
    /// Built for `config` on `device`, each weight is the zero tensor of the shape the configuration gives, on `device`, and each recorded size is the configured one: the clauses below.
    pub proof fn lemma_built_weights(&self, config: BertConfig, device: Device)
        requires
            self.built_for(config, device),
        ensures
            self.dense.is_f32(seq![config.hidden_size, config.hidden_size], device),
            self.dense_bias.is_f32(seq![config.hidden_size], device),
            self.layer_norm_weight.is_f32(seq![config.hidden_size], device),
            self.layer_norm_bias.is_f32(seq![config.hidden_size], device),
            self.layer_norm_eps == config.layer_norm_eps,
    {
    }

    /// After a move to `device`, every weight lies on `device` with its shape, element type and elements kept, and nothing else changes: the clauses below.
    pub proof fn lemma_moved_weights(&self, before: Self, device: Device)
        requires
            self.moved_from(before, device),
        ensures
            self.dense.is_placed(before.dense, device),
            self.dense_bias.is_placed(before.dense_bias, device),
            self.layer_norm_weight.is_placed(before.layer_norm_weight, device),
            self.layer_norm_bias.is_placed(before.layer_norm_bias, device),
            self.layer_norm_eps == before.layer_norm_eps,
    {
    }

    /// After loading from `weights`, each weight holds the tensor stored under its checkpoint name, copied or transposed, and keeps its previous value when the name is absent; nothing else changes: the clauses below.
    pub proof fn lemma_loaded_weights(&self, before: Self, weights: ModelWeights, idx: int)
        requires
            self.loaded(before, weights, idx),
        ensures
            transposed(self.dense, before.dense, first_found(weights, seq![indexed("encoder.layer."@, idx, ".attention.output.dense.weight"@), indexed("bert.encoder.layer."@, idx, ".attention.output.dense.weight"@)])),
            copied(self.dense_bias, before.dense_bias, first_found(weights, seq![indexed("encoder.layer."@, idx, ".attention.output.dense.bias"@), indexed("bert.encoder.layer."@, idx, ".attention.output.dense.bias"@)])),
            copied(self.layer_norm_weight, before.layer_norm_weight, first_found(weights, seq![indexed("encoder.layer."@, idx, ".attention.output.LayerNorm.weight"@), indexed("bert.encoder.layer."@, idx, ".attention.output.LayerNorm.weight"@)])),
            copied(self.layer_norm_bias, before.layer_norm_bias, first_found(weights, seq![indexed("encoder.layer."@, idx, ".attention.output.LayerNorm.bias"@), indexed("bert.encoder.layer."@, idx, ".attention.output.LayerNorm.bias"@)])),
            self.layer_norm_eps == before.layer_norm_eps,
    {
    }

    /// Loading from `weights` succeeds only when every tensor it must transpose, found under these checkpoint names, has at least two dimensions: the clauses below.
    pub proof fn lemma_loadable_names(&self, weights: ModelWeights, idx: int)
        requires
            self.loadable(weights, idx),
        ensures
            transposable(weights.lookup(indexed("bert.encoder.layer."@, idx, ".attention.output.dense.weight"@))),
            transposable(weights.lookup(indexed("encoder.layer."@, idx, ".attention.output.dense.weight"@))),
    {
    }
}

impl BertIntermediate {
    /// Built for `config` on `device`, each weight is the zero tensor of the shape the configuration gives, on `device`, and each recorded size is the configured one: the clauses below.
    pub proof fn lemma_built_weights(&self, config: BertConfig, device: Device)
        requires
            self.built_for(config, device),
        ensures
            self.dense.is_f32(seq![config.hidden_size, config.intermediate_size], device),
            self.dense_bias.is_f32(seq![config.intermediate_size], device),
            self.hidden_act@ == config.hidden_act@,
    {
    }

    /// After a move to `device`, every weight lies on `device` with its shape, element type and elements kept, and nothing else changes: the clauses below.
    pub proof fn lemma_moved_weights(&self, before: Self, device: Device)
        requires
            self.moved_from(before, device),
        ensures
            self.dense.is_placed(before.dense, device),
            self.dense_bias.is_placed(before.dense_bias, device),
            self.hidden_act == before.hidden_act,
    {
    }

    /// After loading from `weights`, each weight holds the tensor stored under its checkpoint name, copied or transposed, and keeps its previous value when the name is absent; nothing else changes: the clauses below.
    pub proof fn lemma_loaded_weights(&self, before: Self, weights: ModelWeights, idx: int)
        requires
            self.loaded(before, weights, idx),
        ensures
            transposed(self.dense, before.dense, first_found(weights, seq![indexed("encoder.layer."@, idx, ".intermediate.dense.weight"@), indexed("bert.encoder.layer."@, idx, ".intermediate.dense.weight"@)])),
            copied(self.dense_bias, before.dense_bias, first_found(weights, seq![indexed("encoder.layer."@, idx, ".intermediate.dense.bias"@), indexed("bert.encoder.layer."@, idx, ".intermediate.dense.bias"@)])),
            self.hidden_act == before.hidden_act,
    {
    }

    /// Loading from `weights` succeeds only when every tensor it must transpose, found under these checkpoint names, has at least two dimensions: the clauses below.
    pub proof fn lemma_loadable_names(&self, weights: ModelWeights, idx: int)
        requires
            self.loadable(weights, idx),
        ensures
            transposable(weights.lookup(indexed("bert.encoder.layer."@, idx, ".intermediate.dense.weight"@))),
            transposable(weights.lookup(indexed("encoder.layer."@, idx, ".intermediate.dense.weight"@))),
    {
    }
}

impl BertOutput {
    /// Built for `config` on `device`, each weight is the zero tensor of the shape the configuration gives, on `device`, and each recorded size is the configured one: the clauses below.
    pub proof fn lemma_built_weights(&self, config: BertConfig, device: Device)
        requires
            self.built_for(config, device),
        ensures
            self.dense.is_f32(seq![config.intermediate_size, config.hidden_size], device),
            self.dense_bias.is_f32(seq![config.hidden_size], device),
            self.layer_norm_weight.is_f32(seq![config.hidden_size], device),
            self.layer_norm_bias.is_f32(seq![config.hidden_size], device),
            self.layer_norm_eps == config.layer_norm_eps,
    {
    }

    /// After a move to `device`, every weight lies on `device` with its shape, element type and elements kept, and nothing else changes: the clauses below.
    pub proof fn lemma_moved_weights(&self, before: Self, device: Device)
        requires
            self.moved_from(before, device),
        ensures
            self.dense.is_placed(before.dense, device),
            self.dense_bias.is_placed(before.dense_bias, device),
            self.layer_norm_weight.is_placed(before.layer_norm_weight, device),
            self.layer_norm_bias.is_placed(before.layer_norm_bias, device),
            self.layer_norm_eps == before.layer_norm_eps,
    {
    }

    /// After loading from `weights`, each weight holds the tensor stored under its checkpoint name, copied or transposed, and keeps its previous value when the name is absent; nothing else changes: the clauses below.
    pub proof fn lemma_loaded_weights(&self, before: Self, weights: ModelWeights, idx: int)
        requires
            self.loaded(before, weights, idx),
        ensures
            transposed(self.dense, before.dense, first_found(weights, seq![indexed("encoder.layer."@, idx, ".output.dense.weight"@), indexed("bert.encoder.layer."@, idx, ".output.dense.weight"@)])),
            copied(self.dense_bias, before.dense_bias, first_found(weights, seq![indexed("encoder.layer."@, idx, ".output.dense.bias"@), indexed("bert.encoder.layer."@, idx, ".output.dense.bias"@)])),
            copied(self.layer_norm_weight, before.layer_norm_weight, first_found(weights, seq![indexed("encoder.layer."@, idx, ".output.LayerNorm.weight"@), indexed("bert.encoder.layer."@, idx, ".output.LayerNorm.weight"@)])),
            copied(self.layer_norm_bias, before.layer_norm_bias, first_found(weights, seq![indexed("encoder.layer."@, idx, ".output.LayerNorm.bias"@), indexed("bert.encoder.layer."@, idx, ".output.LayerNorm.bias"@)])),
            self.layer_norm_eps == before.layer_norm_eps,
    {
    }

    /// Loading from `weights` succeeds only when every tensor it must transpose, found under these checkpoint names, has at least two dimensions: the clauses below.
    pub proof fn lemma_loadable_names(&self, weights: ModelWeights, idx: int)
        requires
            self.loadable(weights, idx),
        ensures
            transposable(weights.lookup(indexed("bert.encoder.layer."@, idx, ".output.dense.weight"@))),
            transposable(weights.lookup(indexed("encoder.layer."@, idx, ".output.dense.weight"@))),
    {
    }
}

impl BertPooler {
    /// Built for `config` on `device`, each weight is the zero tensor of the shape the configuration gives, on `device`, and each recorded size is the configured one: the clauses below.
    pub proof fn lemma_built_weights(&self, config: BertConfig, device: Device)
        requires
            self.built_for(config, device),
        ensures
            self.dense.is_f32(seq![config.hidden_size, config.hidden_size], device),
            self.dense_bias.is_f32(seq![config.hidden_size], device),
    {
    }

    /// After a move to `device`, every weight lies on `device` with its shape, element type and elements kept, and nothing else changes: the clauses below.
    pub proof fn lemma_moved_weights(&self, before: Self, device: Device)
        requires
            self.moved_from(before, device),
        ensures
            self.dense.is_placed(before.dense, device),
            self.dense_bias.is_placed(before.dense_bias, device),
    {
    }

    /// After loading from `weights`, each weight holds the tensor stored under its checkpoint name, copied or transposed, and keeps its previous value when the name is absent; nothing else changes: the clauses below.
    pub proof fn lemma_loaded_weights(&self, before: Self, weights: ModelWeights)
        requires
            self.loaded(before, weights),
        ensures
            transposed(self.dense, before.dense, first_found(weights, seq!["bert.pooler.dense.weight"@, "pooler.dense.weight"@])),
            copied(self.dense_bias, before.dense_bias, first_found(weights, seq!["bert.pooler.dense.bias"@, "pooler.dense.bias"@])),
    {
    }

    /// Loading from `weights` succeeds only when every tensor it must transpose, found under these checkpoint names, has at least two dimensions: the clauses below.
    pub proof fn lemma_loadable_names(&self, weights: ModelWeights)
        requires
            self.loadable(weights),
        ensures
            transposable(first_found(weights, seq!["bert.pooler.dense.weight"@, "pooler.dense.weight"@])),
    {
    }
}

/// `bert_param_bytes` is, for every configuration, the formula below.
pub proof fn lemma_bert_param_bytes_formula(c: BertConfig)
    ensures
        bert_param_bytes(c) == ((c.vocab_size * c.hidden_size + c.max_position_embeddings * c.hidden_size + c.type_vocab_size * c.hidden_size + c.num_hidden_layers * c.hidden_size * c.hidden_size * 4 + c.num_hidden_layers * c.hidden_size * c.intermediate_size * 2) * 4),
{
}

} // verus!
