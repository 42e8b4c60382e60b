//! The HuBERT (speech encoder) model.
use vstd::prelude::*;
use crate::common::F32Bits;
use crate::gguf::GGUFModelConfig;
use crate::common::{GenerationConfig, MemoryRequirements, ModelError};
use crate::tensor::{zeros1, zeros2, Device, Tensor};
use crate::weights::{transposed, transposable, is_transpose_error, load_transposed, ModelWeights};

verus! {

/// Hyperparameters of the HuBERT (speech encoder) model.
#[derive(Clone, Debug)]
pub struct HuBERTConfig {
    pub vocab_size: usize,
    pub hidden_size: usize,
    pub intermediate_size: usize,
    pub num_hidden_layers: usize,
    pub num_attention_heads: usize,
    pub conv_dim: Vec<usize>,
    pub conv_kernel: Vec<usize>,
    pub conv_stride: Vec<usize>,
    pub layer_norm_eps: F32Bits,
    pub hidden_dropout: F32Bits,
    pub pad_token_id: i64,
    pub bos_token_id: i64,
    pub eos_token_id: i64,
}

impl HuBERTConfig {
    /// The fields that a GGUF file supplies hold their default values.
    pub open spec fn gguf_fields_default(&self) -> bool {
        &&& self.hidden_size == 768
        &&& self.num_hidden_layers == 12
        &&& self.num_attention_heads == 12
    }

    /// The fields that a GGUF file does not supply hold their default values.
    pub open spec fn other_fields_default(&self) -> bool {
        &&& self.vocab_size == 100
        &&& self.intermediate_size == 3072
        &&& self.conv_dim@ == seq![512usize, 512usize, 512usize, 512usize, 512usize, 512usize, 512usize]
        &&& self.conv_kernel@ == seq![10usize, 3usize, 3usize, 3usize, 3usize, 2usize, 2usize]
        &&& self.conv_stride@ == seq![5usize, 2usize, 2usize, 2usize, 2usize, 2usize, 2usize]
        &&& self.layer_norm_eps.bits == 0x3727c5ac
        &&& self.hidden_dropout.bits == 0x3dcccccd
        &&& self.pad_token_id == 0
        &&& self.bos_token_id == 1
        &&& self.eos_token_id == 2
    }

    /// Every field holds its default value.
    pub open spec fn is_default(&self) -> bool {
        self.gguf_fields_default() && self.other_fields_default()
    }

    /// The configuration described by a GGUF file: the architecture fields it
    /// carries, and the defaults for the rest.
    pub fn from_gguf_config(gguf: &GGUFModelConfig) -> (r: Self)
        ensures
            r.hidden_size == gguf.hidden_size,
            r.num_hidden_layers == gguf.num_hidden_layers,
            r.num_attention_heads == gguf.num_attention_heads,
            r.other_fields_default(),
    {
        let d = Self::default();
        Self {
            hidden_size: gguf.hidden_size,
            num_hidden_layers: gguf.num_hidden_layers,
            num_attention_heads: gguf.num_attention_heads,
            ..d
        }
    }

    /// Size of the token vocabulary.
    pub fn vocab_size(&self) -> (r: usize)
        ensures
            r == self.vocab_size,
    {
        self.vocab_size
    }

    /// Width of the hidden states.
    pub fn hidden_size(&self) -> (r: usize)
        ensures
            r == self.hidden_size,
    {
        self.hidden_size
    }

    /// Number of transformer (or state-space) layers.
    pub fn num_layers(&self) -> (r: usize)
        ensures
            r == self.num_hidden_layers,
    {
        self.num_hidden_layers
    }
}

impl Default for HuBERTConfig {
    fn default() -> (r: Self)
        ensures
            r.is_default(),
    {
        Self {
            vocab_size: 100,
            hidden_size: 768,
            intermediate_size: 3072,
            num_hidden_layers: 12,
            num_attention_heads: 12,
            conv_dim: vec![512, 512, 512, 512, 512, 512, 512],
            conv_kernel: vec![10, 3, 3, 3, 3, 2, 2],
            conv_stride: vec![5, 2, 2, 2, 2, 2, 2],
            layer_norm_eps: F32Bits::from_bits(0x3727c5ac),
            hidden_dropout: F32Bits::from_bits(0x3dcccccd),
            pad_token_id: 0,
            bos_token_id: 1,
            eos_token_id: 2,
        }
    }
}


/// The HuBERT speech encoder: a projection of the extracted audio features,
/// a stack of encoder layers, a final norm and the output head.
pub struct HuBERTModelV2 {
    pub config: HuBERTConfig,
    pub device: Device,
    pub feature_projection: Tensor,
    pub encoder_layers: Vec<HuBERTEncoderLayer>,
    pub encoder_norm: Tensor,
    pub lm_head: Tensor,
}

/// One encoder layer: self-attention and a feed-forward block, each after a norm.
pub struct HuBERTEncoderLayer {
    pub self_attn_q: Tensor,
    pub self_attn_k: Tensor,
    pub self_attn_v: Tensor,
    pub self_attn_o: Tensor,
    pub fc1: Tensor,
    pub fc2: Tensor,
    pub layer_norm: Tensor,
    pub final_layer_norm: Tensor,
    pub num_heads: usize,
    pub head_dim: usize,
}

/// Width of the last feature-extractor convolution: the last entry of
/// `conv_dim`, or 512 when the list is empty.
pub open spec fn last_conv_dim(config: HuBERTConfig) -> usize {
    if config.conv_dim@.len() > 0 { config.conv_dim@.last() } else { 512 }
}

/// Parameter bytes counted by the memory estimate: four square projections
/// of `hidden_size` per layer, four bytes each.
pub open spec fn hubert_param_bytes(config: HuBERTConfig) -> int {
    config.hidden_size * config.hidden_size * 4 * config.num_hidden_layers * 4
}

impl HuBERTEncoderLayer {
    /// The layer as built for `config` on `device`: zero weights of the
    /// attention and feed-forward shapes, and the head split of the config.
    pub closed spec fn built_for(&self, config: HuBERTConfig, device: Device) -> bool {
        let h = config.hidden_size;
        let i = config.intermediate_size;
        &&& self.self_attn_q.is_f32(seq![h, h], device)
        &&& self.self_attn_k.is_f32(seq![h, h], device)
        &&& self.self_attn_v.is_f32(seq![h, h], device)
        &&& self.self_attn_o.is_f32(seq![h, h], device)
        &&& self.fc1.is_f32(seq![h, i], device)
        &&& self.fc2.is_f32(seq![i, h], device)
        &&& self.layer_norm.is_f32(seq![h], device)
        &&& self.final_layer_norm.is_f32(seq![h], device)
        &&& self.num_heads == config.num_attention_heads
        &&& self.head_dim == config.hidden_size / config.num_attention_heads
    }

    fn new(config: &HuBERTConfig, device: &Device) -> (r: Self)
        requires
            config.num_attention_heads > 0,
        ensures
            r.built_for(*config, *device),
    {
        let h = config.hidden_size;
        let i = config.intermediate_size;
        let head_dim = h / config.num_attention_heads;
        HuBERTEncoderLayer {
            self_attn_q: zeros2(h, h, device),
            self_attn_k: zeros2(h, h, device),
            self_attn_v: zeros2(h, h, device),
            self_attn_o: zeros2(h, h, device),
            fc1: zeros2(h, i, device),
            fc2: zeros2(i, h, device),
            layer_norm: zeros1(h, device),
            final_layer_norm: zeros1(h, device),
            num_heads: config.num_attention_heads,
            head_dim,
        }
    }
}

impl HuBERTModelV2 {
    /// The configuration the model was built with.
    pub closed spec fn spec_config(&self) -> HuBERTConfig {
        self.config
    }

    /// The device the model reports.
    pub closed spec fn spec_device(&self) -> Device {
        self.device
    }

    /// The model holds the weights built for `config`, all zero, on `device`:
    /// a projection from the last convolution width to the hidden width,
    /// `num_hidden_layers` encoder layers, the final norm and the head.
    pub closed spec fn built_for(&self, config: HuBERTConfig, device: Device) -> bool {
        let h = config.hidden_size;
        &&& self.feature_projection.is_f32(seq![last_conv_dim(config), h], device)
        &&& self.encoder_norm.is_f32(seq![h], device)
        &&& self.lm_head.is_f32(seq![h, config.vocab_size], device)
        &&& self.encoder_layers@.len() == config.num_hidden_layers
        &&& forall|k: int| 0 <= k < self.encoder_layers@.len()
            ==> #[trigger] self.encoder_layers@[k].built_for(config, device)
    }

    /// `self` is `old` after a move to `device`: the device, the feature
    /// projection, the final norm and the head are placed on `device`; the
    /// encoder layers and the configuration are unchanged.
    pub closed spec fn moved_from(&self, old: Self, device: Device) -> bool {
        &&& self.config == old.config
        &&& self.device == device
        &&& self.feature_projection.is_placed(old.feature_projection, device)
        &&& self.encoder_norm.is_placed(old.encoder_norm, device)
        &&& self.lm_head.is_placed(old.lm_head, device)
        &&& self.encoder_layers == old.encoder_layers
    }

    /// Builds the model for `config` on the CPU, with zero weights.
    pub fn new(config: HuBERTConfig) -> (r: Result<Self, ModelError>)
        requires
            config.num_attention_heads > 0,
        ensures
            r matches Ok(m) && m.spec_config() == config && m.spec_device() == Device::CPU
                && m.built_for(config, Device::CPU),
    {
        let device = Device::CPU;
        let last = if config.conv_dim.len() > 0 {
            config.conv_dim[config.conv_dim.len() - 1]
        } else {
            512
        };
        let feature_projection = zeros2(last, config.hidden_size, &device);
        let encoder_norm = zeros1(config.hidden_size, &device);
        let lm_head = zeros2(config.hidden_size, config.vocab_size, &device);
        let mut encoder_layers: Vec<HuBERTEncoderLayer> = Vec::with_capacity(config.num_hidden_layers);
        let mut n: usize = 0;
        while n < config.num_hidden_layers
            invariant
                n <= config.num_hidden_layers,
                config.num_attention_heads > 0,
                encoder_layers@.len() == n,
                forall|k: int| 0 <= k < n ==> #[trigger] encoder_layers@[k].built_for(config, device),
            decreases config.num_hidden_layers - n,
        {
            encoder_layers.push(HuBERTEncoderLayer::new(&config, &device));
            n += 1;
        }
        Ok(HuBERTModelV2 { config, device, feature_projection, encoder_layers, encoder_norm, lm_head })
    }

    /// The configuration the model was built with.
    pub fn config(&self) -> (r: &HuBERTConfig)
        ensures
            *r == self.spec_config(),
    {
        &self.config
    }

    /// HuBERT encodes speech and does not generate text: always an error.
    pub fn generate(&self, _prompt: &str, _config: &GenerationConfig) -> (r: Result<String, ModelError>)
        ensures
            r matches Err(ModelError::Unsupported(m)) && m@ == "HuBERT is an encoder model"@,
    {
        Err(ModelError::Unsupported(String::from_str("HuBERT is an encoder model")))
    }

    /// Estimated memory: parameters `hubert_param_bytes` on the GPU, a quarter
    /// of that on the CPU, no key-value cache, and twice the parameters at peak.
    pub fn memory_requirements(&self) -> (r: MemoryRequirements)
        requires
            self.spec_config().hidden_size * self.spec_config().hidden_size * 4 <= usize::MAX,
            hubert_param_bytes(self.spec_config()) * 2 <= usize::MAX,
        ensures
            r.gpu_memory == hubert_param_bytes(self.spec_config()),
            r.cpu_memory == hubert_param_bytes(self.spec_config()) / 4,
            r.kv_cache_memory == 0,
            r.peak_memory == hubert_param_bytes(self.spec_config()) * 2,
    {
        let h = self.config.hidden_size;
        let l = self.config.num_hidden_layers;
        proof {
            let a = h * h * 4;
            assert(a >= 0 && l >= 0 && a * l * 4 * 2 <= usize::MAX ==> a * l <= usize::MAX
                && a * l * 4 <= usize::MAX) by (nonlinear_arith);
        }
        let p = (h * h * 4 * l) * 4;
        MemoryRequirements { gpu_memory: p, cpu_memory: p / 4, kv_cache_memory: 0, peak_memory: p * 2 }
    }

    /// Moves the model to `device`: records the device and places the feature
    /// projection, the final norm and the head there.
    pub fn to_device(&mut self, device: &Device) -> (r: Result<(), ModelError>)
        ensures
            r is Ok,
            final(self).moved_from(*old(self), *device),
    {
        self.device = *device;
        self.feature_projection = self.feature_projection.to_device(device);
        self.encoder_norm = self.encoder_norm.to_device(device);
        self.lm_head = self.lm_head.to_device(device);
        Ok(())
    }
}

impl HuBERTModelV2 {
    /// `self` is `old` after loading from `weights`: each weight whose
    /// checkpoint name `weights` holds takes that tensor's shape, element
    /// type, device and elements (as is, or transposed for a matrix product),
    /// and nothing else changes.
    pub closed spec fn loaded(&self, old: Self, weights: ModelWeights) -> bool {
        &&& self.config == old.config
        &&& self.device == old.device
        &&& self.feature_projection == old.feature_projection
        &&& self.encoder_layers == old.encoder_layers
        &&& self.encoder_norm == old.encoder_norm
        &&& transposed(self.lm_head, old.lm_head, weights.lookup("lm_head.weight"@))
    }

    /// Every tensor that loading from `weights` would transpose has at least
    /// two dimensions.
    pub closed spec fn loadable(&self, weights: ModelWeights) -> bool {
        &&& transposable(weights.lookup("lm_head.weight"@))
    }

    /// Loads the weights of `weights` that this part names.
    fn load_weights(&mut self, weights: &ModelWeights) -> (r: Result<(), ModelError>)
        ensures
            r is Ok <==> old(self).loadable(*weights),
            r is Ok ==> final(self).loaded(*old(self), *weights),
            r matches Err(e) ==> is_transpose_error(e),
    {
        load_transposed(&mut self.lm_head, weights, "lm_head.weight")?;
        Ok(())
    }
}


impl HuBERTModelV2 {
    /// Builds the model for `config` as `new` does and loads the weights that
    /// `weights` holds under their checkpoint names: the result is the built
    /// model with those weights taken, and an error exactly when a tensor that
    /// must be transposed has fewer than two dimensions.
    pub fn from_weights(config: HuBERTConfig, weights: ModelWeights) -> (r: Result<Self, ModelError>)
        requires
            config.num_attention_heads > 0,
        ensures
            exists|built: Self| #[trigger] built.built_for(config, Device::CPU) && built.spec_config() == config
                && built.spec_device() == Device::CPU && (r is Ok <==> built.loadable(weights))
                && (r matches Ok(m) ==> m.spec_config() == config && m.spec_device() == Device::CPU && m.loaded(built, weights))
                && (r matches Err(e) ==> is_transpose_error(e)),
    {
        let mut model = match Self::new(config) {
            Ok(m) => m,
            Err(e) => {
                return Err(e);
            },
        };
        let ghost built = model;
        match model.load_weights(&weights) {
            Ok(()) => {
                assert(built.built_for(config, Device::CPU));
                Ok(model)
            },
            Err(e) => {
                assert(built.built_for(config, Device::CPU));
                Err(e)
            },
        }
    }
}

impl HuBERTModelV2 {
    /// Moving to `d1` and then to `d2` leaves the model as a single move to
    /// `d2` would: the second move overrides the first.
    pub proof fn lemma_moves_compose(first: Self, second: Self, third: Self, d1: Device, d2: Device)
        requires
            second.moved_from(first, d1),
            third.moved_from(second, d2),
        ensures
            third.moved_from(first, d2),
    {
    }
}

} // verus!

verus! {

impl HuBERTConfig {
    /// The default configuration has these sizes: the clauses below.
    pub proof fn lemma_default_sizes(&self)
        requires
            self.gguf_fields_default(),
        ensures
            self.hidden_size == 768,
            self.num_hidden_layers == 12,
            self.num_attention_heads == 12,
    {
    }

    /// The default configuration has these remaining settings: the clauses below.
    pub proof fn lemma_default_settings(&self)
        requires
            self.other_fields_default(),
        ensures
            self.vocab_size == 100,
            self.intermediate_size == 3072,
            self.conv_dim@ == seq![512usize, 512usize, 512usize, 512usize, 512usize, 512usize, 512usize],
            self.conv_kernel@ == seq![10usize, 3usize, 3usize, 3usize, 3usize, 2usize, 2usize],
            self.conv_stride@ == seq![5usize, 2usize, 2usize, 2usize, 2usize, 2usize, 2usize],
            self.layer_norm_eps.bits == 0x3727c5ac,
            self.hidden_dropout.bits == 0x3dcccccd,
            self.pad_token_id == 0,
            self.bos_token_id == 1,
            self.eos_token_id == 2,
    {
    }

    /// The default configuration is the one with the default sizes and settings: the clauses below.
    pub proof fn lemma_default_parts(&self)
        requires
            self.is_default(),
        ensures
            ({
            self.gguf_fields_default() && self.other_fields_default()
        }),
    {
    }
}

impl HuBERTEncoderLayer {
    /// Built for `config` on `device`, each weight is the zero tensor of the shape the configuration gives, on `device`, and each recorded size is the configured one: the clauses below.
    pub proof fn lemma_built_weights(&self, config: HuBERTConfig, device: Device)
        requires
            self.built_for(config, device),
        ensures
            ({
            let h = config.hidden_size;
            let i = config.intermediate_size;
            &&& self.self_attn_q.is_f32(seq![h, h], device)
            &&& self.self_attn_k.is_f32(seq![h, h], device)
            &&& self.self_attn_v.is_f32(seq![h, h], device)
            &&& self.self_attn_o.is_f32(seq![h, h], device)
            &&& self.fc1.is_f32(seq![h, i], device)
            &&& self.fc2.is_f32(seq![i, h], device)
            &&& self.layer_norm.is_f32(seq![h], device)
            &&& self.final_layer_norm.is_f32(seq![h], device)
            &&& self.num_heads == config.num_attention_heads
            &&& self.head_dim == config.hidden_size / config.num_attention_heads
        }),
    {
    }
}

impl HuBERTModelV2 {
    /// Built for `config` on `device`, each weight is the zero tensor of the shape the configuration gives, on `device`, and each recorded size is the configured one: the clauses below.
    pub proof fn lemma_built_weights(&self, config: HuBERTConfig, device: Device)
        requires
            self.built_for(config, device),
        ensures
            ({
            let h = config.hidden_size;
            &&& self.feature_projection.is_f32(seq![last_conv_dim(config), h], device)
            &&& self.encoder_norm.is_f32(seq![h], device)
            &&& self.lm_head.is_f32(seq![h, config.vocab_size], device)
            &&& self.encoder_layers@.len() == config.num_hidden_layers
            &&& forall|k: int| 0 <= k < self.encoder_layers@.len()
                ==> #[trigger] self.encoder_layers@[k].built_for(config, device)
        }),
    {
    }

    /// After a move to `device`, every weight lies on `device` with its shape, element type and elements kept, and nothing else changes: the clauses below.
    pub proof fn lemma_moved_weights(&self, before: Self, device: Device)
        requires
            self.moved_from(before, device),
        ensures
            self.config == before.config,
            self.device == device,
            self.feature_projection.is_placed(before.feature_projection, device),
            self.encoder_norm.is_placed(before.encoder_norm, device),
            self.lm_head.is_placed(before.lm_head, device),
            self.encoder_layers == before.encoder_layers,
    {
    }

    /// After loading from `weights`, each weight holds the tensor stored under its checkpoint name, copied or transposed, and keeps its previous value when the name is absent; nothing else changes: the clauses below.
    pub proof fn lemma_loaded_weights(&self, before: Self, weights: ModelWeights)
        requires
            self.loaded(before, weights),
        ensures
            self.config == before.config,
            self.device == before.device,
            self.feature_projection == before.feature_projection,
            self.encoder_layers == before.encoder_layers,
            self.encoder_norm == before.encoder_norm,
            transposed(self.lm_head, before.lm_head, weights.lookup("lm_head.weight"@)),
    {
    }

    /// Loading from `weights` succeeds only when every tensor it must transpose, found under these checkpoint names, has at least two dimensions: the clauses below.
    pub proof fn lemma_loadable_names(&self, weights: ModelWeights)
        requires
            self.loadable(weights),
        ensures
            transposable(weights.lookup("lm_head.weight"@)),
    {
    }
}

/// `hubert_param_bytes` is, for every configuration, the formula below.
pub proof fn lemma_hubert_param_bytes_formula(config: HuBERTConfig)
    ensures
        hubert_param_bytes(config) == (config.hidden_size * config.hidden_size * 4 * config.num_hidden_layers * 4),
{
}

} // verus!

verus! {

/// `last_conv_dim` is, for every argument, the expression below.
pub proof fn lemma_last_conv_dim_value(config: HuBERTConfig)
    ensures
        last_conv_dim(config) == (if config.conv_dim@.len() > 0 { config.conv_dim@.last() } else { 512 }),
{
}

} // verus!
