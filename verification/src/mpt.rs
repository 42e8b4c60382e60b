//! The MPT model.
use vstd::prelude::*;
use crate::common::F32Bits;
use crate::gguf::GGUFModelConfig;
use crate::common::{MemoryRequirements, ModelError};
use crate::tensor::{zeros1, zeros2, Device, Tensor};
use crate::weights::{copied, transposed, transposable, is_transpose_error, indexed, indexed_name, load_copy, load_transposed, ModelWeights};

verus! {

/// Hyperparameters of the MPT model.
#[derive(Clone, Debug)]
pub struct MPTConfig {
    pub vocab_size: usize,
    pub hidden_size: usize,
    pub intermediate_size: usize,
    pub num_hidden_layers: usize,
    pub num_attention_heads: usize,
    pub num_key_value_heads: usize,
    pub hidden_act: String,
    pub max_position_embeddings: usize,
    pub initializer_range: F32Bits,
    pub layer_norm_eps: F32Bits,
    pub use_cache: bool,
    pub pad_token_id: i64,
    pub bos_token_id: i64,
    pub eos_token_id: i64,
    pub tie_word_embeddings: bool,
    pub alibi: bool,
    pub no_bias: bool,
}

impl MPTConfig {
    /// The fields that a GGUF file supplies hold their default values.
    pub open spec fn gguf_fields_default(&self) -> bool {
        &&& self.vocab_size == 50432
        &&& self.hidden_size == 4096
        &&& self.intermediate_size == 16384
        &&& self.num_hidden_layers == 32
        &&& self.num_attention_heads == 32
        &&& self.num_key_value_heads == 32
        &&& self.max_position_embeddings == 2048
    }

    /// The fields that a GGUF file does not supply hold their default values.
    pub open spec fn other_fields_default(&self) -> bool {
        &&& self.hidden_act@ == "gelu"@
        &&& self.initializer_range.bits == 0x3ca3d70a
        &&& self.layer_norm_eps.bits == 0x3727c5ac
        &&& self.use_cache == true
        &&& self.pad_token_id == 0
        &&& self.bos_token_id == 0
        &&& self.eos_token_id == 0
        &&& self.tie_word_embeddings == true
        &&& self.alibi == true
        &&& self.no_bias == true
    }

    /// Every field holds its default value.
    pub open spec fn is_default(&self) -> bool {
        self.gguf_fields_default() && self.other_fields_default()
    }

    /// The configuration described by a GGUF file: the architecture fields it
    /// carries, and the defaults for the rest.
    pub fn from_gguf_config(gguf: &GGUFModelConfig) -> (r: Self)
        ensures
            r.vocab_size == gguf.vocab_size,
            r.hidden_size == gguf.hidden_size,
            r.intermediate_size == gguf.intermediate_size,
            r.num_hidden_layers == gguf.num_hidden_layers,
            r.num_attention_heads == gguf.num_attention_heads,
            r.num_key_value_heads == gguf.num_key_value_heads,
            r.max_position_embeddings == gguf.max_position_embeddings,
            r.other_fields_default(),
    {
        let d = Self::default();
        Self {
            vocab_size: gguf.vocab_size,
            hidden_size: gguf.hidden_size,
            intermediate_size: gguf.intermediate_size,
            num_hidden_layers: gguf.num_hidden_layers,
            num_attention_heads: gguf.num_attention_heads,
            num_key_value_heads: gguf.num_key_value_heads,
            max_position_embeddings: gguf.max_position_embeddings,
            ..d
        }
    }

    /// Size of the token vocabulary.
    pub fn vocab_size(&self) -> (r: usize)
        ensures
            r == self.vocab_size,
    {
        self.vocab_size
    }

    /// Width of the hidden states.
    pub fn hidden_size(&self) -> (r: usize)
        ensures
            r == self.hidden_size,
    {
        self.hidden_size
    }

    /// Number of transformer (or state-space) layers.
    pub fn num_layers(&self) -> (r: usize)
        ensures
            r == self.num_hidden_layers,
    {
        self.num_hidden_layers
    }
}

impl Default for MPTConfig {
    fn default() -> (r: Self)
        ensures
            r.is_default(),
    {
        Self {
            vocab_size: 50432,
            hidden_size: 4096,
            intermediate_size: 16384,
            num_hidden_layers: 32,
            num_attention_heads: 32,
            num_key_value_heads: 32,
            hidden_act: String::from_str("gelu"),
            max_position_embeddings: 2048,
            initializer_range: F32Bits::from_bits(0x3ca3d70a),
            layer_norm_eps: F32Bits::from_bits(0x3727c5ac),
            use_cache: true,
            pad_token_id: 0,
            bos_token_id: 0,
            eos_token_id: 0,
            tie_word_embeddings: true,
            alibi: true,
            no_bias: true,
        }
    }
}

/// The MPT decoder: token embeddings, the blocks and a final norm; the output head reuses the embeddings.
pub struct MPTModelV2 {
    pub config: MPTConfig,
    pub device: Device,
    pub wte: Tensor,
    pub blocks: Vec<MPTBlock>,
    pub norm_f: Tensor,
}

/// An MPT block: attention and feed-forward, each after a layer norm.
pub struct MPTBlock {
    pub attn: MPTAttention,
    pub ffn: MPTFFN,
    pub norm_1: Tensor,
    pub norm_2: Tensor,
}

/// MPT attention: a fused query-key-value projection and an output projection, with ALiBi biases when `alibi` is set.
pub struct MPTAttention {
    pub wqkv: Tensor,
    pub out_proj: Tensor,
    pub num_heads: usize,
    pub head_dim: usize,
    pub alibi: bool,
}

/// MPT feed-forward block: up to the intermediate width and back.
pub struct MPTFFN {
    pub up_proj: Tensor,
    pub down_proj: Tensor,
}

impl MPTModelV2 {
    /// The model as built for `config` on `device`: zero embeddings `[vocab_size, hidden_size]`, `num_hidden_layers` blocks and the final norm.
    pub closed spec fn built_for(&self, config: MPTConfig, device: Device) -> bool {
        &&& self.wte.is_f32(seq![config.vocab_size, config.hidden_size], device)
        &&& self.blocks@.len() == config.num_hidden_layers
        &&& forall|k: int| 0 <= k < self.blocks@.len() ==> #[trigger] self.blocks@[k].built_for(config, device)
        &&& self.norm_f.is_f32(seq![config.hidden_size], device)
    }

    /// `self` is `old` moved to `device`: every weight placed there and the device recorded.
    pub closed spec fn moved_from(&self, old: Self, device: Device) -> bool {
        &&& self.config == old.config
        &&& self.device == device
        &&& self.wte.is_placed(old.wte, device)
        &&& self.blocks@.len() == old.blocks@.len()
        &&& forall|k: int| 0 <= k < self.blocks@.len() ==> #[trigger] self.blocks@[k].moved_from(old.blocks@[k], device)
        &&& self.norm_f.is_placed(old.norm_f, device)
    }

    /// The configuration the model was built with.
    pub closed spec fn spec_config(&self) -> MPTConfig {
        self.config
    }

    /// The device the model reports.
    pub closed spec fn spec_device(&self) -> Device {
        self.device
    }

    /// Builds the model for `config` on the CPU, with zero weights.
    pub fn new(config: MPTConfig) -> (r: Result<Self, ModelError>)
        requires
            config.num_attention_heads > 0,
            3 * config.hidden_size <= usize::MAX,
        ensures
            r matches Ok(m) && m.spec_config() == config && m.spec_device() == Device::CPU
                && m.built_for(config, Device::CPU),
    {
        let device = Device::CPU;
        let wte = zeros2(config.vocab_size, config.hidden_size, &device);
        let mut blocks: Vec<MPTBlock> = Vec::new();
        let mut n: usize = 0;
        while n < config.num_hidden_layers
            invariant
                n <= config.num_hidden_layers,
                config.num_attention_heads > 0,
                3 * config.hidden_size <= usize::MAX,
                blocks@.len() == n,
                forall|k: int| 0 <= k < n ==> #[trigger] blocks@[k].built_for(config, device),
            decreases config.num_hidden_layers - n,
        {
            blocks.push(MPTBlock::new(&config, &device));
            n += 1;
        }
        let norm_f = zeros1(config.hidden_size, &device);
        Ok(MPTModelV2 { config, device, wte, blocks, norm_f })
    }

    /// The configuration the model was built with.
    pub fn config(&self) -> (r: &MPTConfig)
        ensures
            *r == self.spec_config(),
    {
        &self.config
    }

    /// Moves the model to `device`.
    pub fn to_device(&mut self, device: &Device) -> (r: Result<(), ModelError>)
        ensures
            r is Ok,
            final(self).moved_from(*old(self), *device),
    {
        self.wte = self.wte.to_device(device);
        let mut taken_blocks: Vec<MPTBlock> = Vec::new();
        std::mem::swap(&mut taken_blocks, &mut self.blocks);
        self.blocks = MPTBlock::all_to_device(taken_blocks, device);
        self.norm_f = self.norm_f.to_device(device);
        self.device = *device;
        Ok(())
    }
}

impl MPTBlock {
    /// The weights as built for `config` on `device`, all zero.
    pub closed spec fn built_for(&self, config: MPTConfig, device: Device) -> bool {
        &&& self.attn.built_for(config, device)
        &&& self.ffn.built_for(config, device)
        &&& self.norm_1.is_f32(seq![config.hidden_size], device)
        &&& self.norm_2.is_f32(seq![config.hidden_size], device)
    }

    /// `self` is `old` with its weights placed on `device`.
    pub closed spec fn moved_from(&self, old: Self, device: Device) -> bool {
        &&& self.attn.moved_from(old.attn, device)
        &&& self.ffn.moved_from(old.ffn, device)
        &&& self.norm_1.is_placed(old.norm_1, device)
        &&& self.norm_2.is_placed(old.norm_2, device)
    }

    fn new(config: &MPTConfig, device: &Device) -> (r: Self)
        requires
            config.num_attention_heads > 0,
            3 * config.hidden_size <= usize::MAX,
        ensures
            r.built_for(*config, *device),
    {
        let attn = MPTAttention::new(config, device);
        let ffn = MPTFFN::new(config, device);
        let norm_1 = zeros1(config.hidden_size, device);
        let norm_2 = zeros1(config.hidden_size, device);
        MPTBlock { attn, ffn, norm_1, norm_2 }
    }

    /// Places the weights on `device`.
    fn to_device(&mut self, device: &Device)
        ensures
            final(self).moved_from(*old(self), *device),
    {
        self.attn.to_device(device);
        self.ffn.to_device(device);
        self.norm_1 = self.norm_1.to_device(device);
        self.norm_2 = self.norm_2.to_device(device);
    }

    /// The layers, in order, each with its weights placed on `device`.
    fn all_to_device(layers: Vec<MPTBlock>, device: &Device) -> (r: Vec<MPTBlock>)
        ensures
            r@.len() == layers@.len(),
            forall|k: int| 0 <= k < r@.len() ==> #[trigger] r@[k].moved_from(layers@[k], *device),
    {
        let mut rest = layers;
        let mut moved: Vec<MPTBlock> = Vec::new();
        while rest.len() > 0
            invariant
                moved@.len() + rest@.len() == layers@.len(),
                rest@ == layers@.subrange(moved@.len() as int, layers@.len() as int),
                forall|k: int| 0 <= k < moved@.len() ==> #[trigger] moved@[k].moved_from(layers@[k], *device),
            decreases rest@.len(),
        {
            let mut layer = rest.remove(0);
            assert(layer == layers@[moved@.len() as int]);
            layer.to_device(device);
            moved.push(layer);
            assert(rest@ =~= layers@.subrange(moved@.len() as int, layers@.len() as int));
        }
        moved
    }
}

impl MPTAttention {
    /// The weights as built for `config` on `device`, all zero.
    pub closed spec fn built_for(&self, config: MPTConfig, device: Device) -> bool {
        &&& self.wqkv.is_f32(seq![config.hidden_size, (3 * config.hidden_size) as usize], device)
        &&& self.out_proj.is_f32(seq![config.hidden_size, config.hidden_size], device)
        &&& self.num_heads == config.num_attention_heads
        &&& self.head_dim == config.hidden_size / config.num_attention_heads
        &&& self.alibi == config.alibi
    }

    /// `self` is `old` with its weights placed on `device`.
    pub closed spec fn moved_from(&self, old: Self, device: Device) -> bool {
        &&& self.wqkv.is_placed(old.wqkv, device)
        &&& self.out_proj.is_placed(old.out_proj, device)
        &&& self.num_heads == old.num_heads
        &&& self.head_dim == old.head_dim
        &&& self.alibi == old.alibi
    }

    fn new(config: &MPTConfig, device: &Device) -> (r: Self)
        requires
            config.num_attention_heads > 0,
            3 * config.hidden_size <= usize::MAX,
        ensures
            r.built_for(*config, *device),
    {
        let wqkv = zeros2(config.hidden_size, 3 * config.hidden_size, device);
        let out_proj = zeros2(config.hidden_size, config.hidden_size, device);
        let num_heads = config.num_attention_heads;
        let head_dim = config.hidden_size / config.num_attention_heads;
        let alibi = config.alibi;
        MPTAttention { wqkv, out_proj, num_heads, head_dim, alibi }
    }

    /// Places the weights on `device`.
    fn to_device(&mut self, device: &Device)
        ensures
            final(self).moved_from(*old(self), *device),
    {
        self.wqkv = self.wqkv.to_device(device);
        self.out_proj = self.out_proj.to_device(device);
    }
}

impl MPTFFN {
    /// The weights as built for `config` on `device`, all zero.
    pub closed spec fn built_for(&self, config: MPTConfig, device: Device) -> bool {
        &&& self.up_proj.is_f32(seq![config.hidden_size, config.intermediate_size], device)
        &&& self.down_proj.is_f32(seq![config.intermediate_size, config.hidden_size], device)
    }

    /// `self` is `old` with its weights placed on `device`.
    pub closed spec fn moved_from(&self, old: Self, device: Device) -> bool {
        &&& self.up_proj.is_placed(old.up_proj, device)
        &&& self.down_proj.is_placed(old.down_proj, device)
    }

    fn new(config: &MPTConfig, device: &Device) -> (r: Self)
        ensures
            r.built_for(*config, *device),
    {
        let up_proj = zeros2(config.hidden_size, config.intermediate_size, device);
        let down_proj = zeros2(config.intermediate_size, config.hidden_size, device);
        MPTFFN { up_proj, down_proj }
    }

    /// Places the weights on `device`.
    fn to_device(&mut self, device: &Device)
        ensures
            final(self).moved_from(*old(self), *device),
    {
        self.up_proj = self.up_proj.to_device(device);
        self.down_proj = self.down_proj.to_device(device);
    }
}
/// Parameter count of the estimate: embeddings and eight `hidden_size` squared blocks per layer.
pub open spec fn mpt_param_count(c: MPTConfig) -> int {
    c.vocab_size * c.hidden_size + c.num_hidden_layers * 8 * (c.hidden_size * c.hidden_size)
}

/// No step of the memory estimate for `MPTConfig` leaves the range of `usize`
/// or divides by zero.
pub open spec fn mpt_memory_fits(c: MPTConfig) -> bool {
    &&& c.vocab_size * c.hidden_size <= usize::MAX
    &&& c.num_hidden_layers * 8 <= usize::MAX
    &&& c.hidden_size * c.hidden_size <= usize::MAX
    &&& c.num_hidden_layers * 8 * (c.hidden_size * c.hidden_size) <= usize::MAX
    &&& c.vocab_size * c.hidden_size + c.num_hidden_layers * 8 * (c.hidden_size * c.hidden_size) <= usize::MAX
    &&& (c.vocab_size * c.hidden_size + c.num_hidden_layers * 8 * (c.hidden_size * c.hidden_size)) * 4 <= usize::MAX
    &&& 2 * c.num_hidden_layers <= usize::MAX
    &&& 2 * c.num_hidden_layers * c.max_position_embeddings <= usize::MAX
    &&& 2 * c.num_hidden_layers * c.max_position_embeddings * c.hidden_size <= usize::MAX
    &&& 2 * c.num_hidden_layers * c.max_position_embeddings * c.hidden_size * 4 <= usize::MAX
    &&& (c.vocab_size * c.hidden_size + c.num_hidden_layers * 8 * (c.hidden_size * c.hidden_size)) * 5 <= usize::MAX
}

impl MPTModelV2 {
    /// Estimated memory: four bytes per parameter on the GPU, one per parameter on the CPU, the full key-value cache, and five bytes per parameter at peak.
    pub fn memory_requirements(&self) -> (r: MemoryRequirements)
        requires
            mpt_memory_fits(self.spec_config()),
        ensures
            r.gpu_memory == mpt_param_count(self.spec_config()) * 4,
            r.cpu_memory == mpt_param_count(self.spec_config()),
            r.kv_cache_memory == 2 * self.spec_config().num_hidden_layers * self.spec_config().max_position_embeddings * self.spec_config().hidden_size * 4,
            r.peak_memory == mpt_param_count(self.spec_config()) * 5,
    {
        let c = &self.config;
        let param_count = c.vocab_size * c.hidden_size + c.num_hidden_layers * 8 * (c.hidden_size * c.hidden_size);
        MemoryRequirements {
            gpu_memory: param_count * 4,
            cpu_memory: param_count,
            kv_cache_memory: 2 * c.num_hidden_layers * c.max_position_embeddings * c.hidden_size * 4,
            peak_memory: param_count * 5,
        }
    }
}

impl MPTModelV2 {
    /// `self` is `old` after loading from `weights`: each weight whose
    /// checkpoint name `weights` holds takes that tensor's shape, element
    /// type, device and elements (as is, or transposed for a matrix product),
    /// and nothing else changes.
    pub closed spec fn loaded(&self, old: Self, weights: ModelWeights) -> bool {
        &&& self.config == old.config
        &&& self.device == old.device
        &&& copied(self.wte, old.wte, weights.lookup("transformer.wte.weight"@))
        &&& self.blocks@.len() == old.blocks@.len()
        &&& forall|k: int| 0 <= k < old.blocks@.len() ==> #[trigger] self.blocks@[k].loaded(old.blocks@[k], weights, k)
        &&& copied(self.norm_f, old.norm_f, weights.lookup("transformer.norm_f.weight"@))
    }

    /// Every tensor that loading from `weights` would transpose has at least
    /// two dimensions.
    pub closed spec fn loadable(&self, weights: ModelWeights) -> bool {
        &&& forall|k: int| 0 <= k < self.blocks@.len() ==> #[trigger] self.blocks@[k].loadable(weights, k)
    }

    /// Loads the weights of `weights` that this part names.
    fn load_weights(&mut self, weights: &ModelWeights) -> (r: Result<(), ModelError>)
        ensures
            r is Ok <==> old(self).loadable(*weights),
            r is Ok ==> final(self).loaded(*old(self), *weights),
            r matches Err(e) ==> is_transpose_error(e),
    {
        load_copy(&mut self.wte, weights, "transformer.wte.weight");
        load_copy(&mut self.norm_f, weights, "transformer.norm_f.weight");
        let mut taken_blocks: Vec<MPTBlock> = Vec::new();
        std::mem::swap(&mut taken_blocks, &mut self.blocks);
        self.blocks = Self::load_blocks(taken_blocks, weights)?;
        Ok(())
    }

    /// Loads each of `items`, in order, from `weights`.
    fn load_blocks(items: Vec<MPTBlock>, weights: &ModelWeights) -> (r: Result<Vec<MPTBlock>, ModelError>)
        ensures
            r is Ok <==> forall|k: int| 0 <= k < items@.len() ==> #[trigger] items@[k].loadable(*weights, k),
            r matches Ok(v) ==> v@.len() == items@.len() && forall|k: int| 0 <= k < items@.len() ==> #[trigger] v@[k].loaded(items@[k], *weights, k),
            r matches Err(e) ==> is_transpose_error(e),
    {
        let mut rest = items;
        let mut done: Vec<MPTBlock> = Vec::new();
        while rest.len() > 0
            invariant
                done@.len() + rest@.len() == items@.len(),
                rest@ == items@.subrange(done@.len() as int, items@.len() as int),
                forall|k: int| 0 <= k < done@.len() ==> #[trigger] done@[k].loaded(items@[k], *weights, k),
                forall|k: int| 0 <= k < done@.len() ==> #[trigger] items@[k].loadable(*weights, k),
            decreases rest@.len(),
        {
            let n = done.len();
            let mut item = rest.remove(0);
            assert(item == items@[n as int]);
            match item.load_weights(weights, n) {
                Ok(()) => {},
                Err(e) => {
                    assert(!items@[n as int].loadable(*weights, n as int));
                    return Err(e);
                },
            }
            done.push(item);
            assert(rest@ =~= items@.subrange(done@.len() as int, items@.len() as int));
        }
        Ok(done)
    }
}

impl MPTBlock {
    /// `self` is `old` after loading from `weights`: each weight whose
    /// checkpoint name `weights` holds takes that tensor's shape, element
    /// type, device and elements (as is, or transposed for a matrix product),
    /// and nothing else changes.
    pub closed spec fn loaded(&self, old: Self, weights: ModelWeights, idx: int) -> bool {
        &&& transposed(self.attn.wqkv, old.attn.wqkv, weights.lookup(indexed("transformer.blocks."@, idx, ".attn.Wqkv.weight"@)))
        &&& transposed(self.attn.out_proj, old.attn.out_proj, weights.lookup(indexed("transformer.blocks."@, idx, ".attn.out_proj.weight"@)))
        &&& self.attn.num_heads == old.attn.num_heads
        &&& self.attn.head_dim == old.attn.head_dim
        &&& self.attn.alibi == old.attn.alibi
        &&& transposed(self.ffn.up_proj, old.ffn.up_proj, weights.lookup(indexed("transformer.blocks."@, idx, ".ffn.up_proj.weight"@)))
        &&& transposed(self.ffn.down_proj, old.ffn.down_proj, weights.lookup(indexed("transformer.blocks."@, idx, ".ffn.down_proj.weight"@)))
        &&& copied(self.norm_1, old.norm_1, weights.lookup(indexed("transformer.blocks."@, idx, ".norm_1.weight"@)))
        &&& copied(self.norm_2, old.norm_2, weights.lookup(indexed("transformer.blocks."@, idx, ".norm_2.weight"@)))
    }

    /// Every tensor that loading from `weights` would transpose has at least
    /// two dimensions.
    pub closed spec fn loadable(&self, weights: ModelWeights, idx: int) -> bool {
        &&& transposable(weights.lookup(indexed("transformer.blocks."@, idx, ".attn.Wqkv.weight"@)))
        &&& transposable(weights.lookup(indexed("transformer.blocks."@, idx, ".attn.out_proj.weight"@)))
        &&& transposable(weights.lookup(indexed("transformer.blocks."@, idx, ".ffn.up_proj.weight"@)))
        &&& transposable(weights.lookup(indexed("transformer.blocks."@, idx, ".ffn.down_proj.weight"@)))
    }

    /// Loads the weights of `weights` that this part names.
    fn load_weights(&mut self, weights: &ModelWeights, layer_idx: usize) -> (r: Result<(), ModelError>)
        ensures
            r is Ok <==> old(self).loadable(*weights, layer_idx as int),
            r is Ok ==> final(self).loaded(*old(self), *weights, layer_idx as int),
            r matches Err(e) ==> is_transpose_error(e),
    {
        load_transposed(&mut self.attn.wqkv, weights, indexed_name("transformer.blocks.", layer_idx, ".attn.Wqkv.weight").as_str())?;
        load_transposed(&mut self.attn.out_proj, weights, indexed_name("transformer.blocks.", layer_idx, ".attn.out_proj.weight").as_str())?;
        load_transposed(&mut self.ffn.up_proj, weights, indexed_name("transformer.blocks.", layer_idx, ".ffn.up_proj.weight").as_str())?;
        load_transposed(&mut self.ffn.down_proj, weights, indexed_name("transformer.blocks.", layer_idx, ".ffn.down_proj.weight").as_str())?;
        load_copy(&mut self.norm_1, weights, indexed_name("transformer.blocks.", layer_idx, ".norm_1.weight").as_str());
        load_copy(&mut self.norm_2, weights, indexed_name("transformer.blocks.", layer_idx, ".norm_2.weight").as_str());
        Ok(())
    }
}


impl MPTModelV2 {
    /// Builds the model for `config` as `new` does and loads the weights that
    /// `weights` holds under their checkpoint names: the result is the built
    /// model with those weights taken, and an error exactly when a tensor that
    /// must be transposed has fewer than two dimensions.
    pub fn from_weights(config: MPTConfig, weights: ModelWeights) -> (r: Result<Self, ModelError>)
        requires
            config.num_attention_heads > 0,
            3 * config.hidden_size <= usize::MAX,
        ensures
            exists|built: Self| #[trigger] built.built_for(config, Device::CPU) && built.spec_config() == config
                && built.spec_device() == Device::CPU && (r is Ok <==> built.loadable(weights))
                && (r matches Ok(m) ==> m.spec_config() == config && m.spec_device() == Device::CPU && m.loaded(built, weights))
                && (r matches Err(e) ==> is_transpose_error(e)),
    {
        let mut model = match Self::new(config) {
            Ok(m) => m,
            Err(e) => {
                return Err(e);
            },
        };
        let ghost built = model;
        match model.load_weights(&weights) {
            Ok(()) => {
                assert(built.built_for(config, Device::CPU));
                Ok(model)
            },
            Err(e) => {
                assert(built.built_for(config, Device::CPU));
                Err(e)
            },
        }
    }
}

impl MPTModelV2 {
    /// Moving to `d1` and then to `d2` leaves the model as a single move to
    /// `d2` would: the second move overrides the first.
    pub proof fn lemma_moves_compose(first: Self, second: Self, third: Self, d1: Device, d2: Device)
        requires
            second.moved_from(first, d1),
            third.moved_from(second, d2),
        ensures
            third.moved_from(first, d2),
    {
        assert forall|k: int| 0 <= k < third.blocks@.len() implies #[trigger] third.blocks@[k].moved_from(first.blocks@[k], d2) by {
            MPTBlock::lemma_moves_compose(first.blocks@[k], second.blocks@[k], third.blocks@[k], d1, d2);
        }
    }
}

impl MPTBlock {
    /// A move to `d1` followed by a move to `d2` is a move to `d2`.
    proof fn lemma_moves_compose(first: Self, second: Self, third: Self, d1: Device, d2: Device)
        requires
            second.moved_from(first, d1),
            third.moved_from(second, d2),
        ensures
            third.moved_from(first, d2),
    {
        MPTAttention::lemma_moves_compose(first.attn, second.attn, third.attn, d1, d2);
        MPTFFN::lemma_moves_compose(first.ffn, second.ffn, third.ffn, d1, d2);
    }
}

impl MPTAttention {
    /// A move to `d1` followed by a move to `d2` is a move to `d2`.
    proof fn lemma_moves_compose(first: Self, second: Self, third: Self, d1: Device, d2: Device)
        requires
            second.moved_from(first, d1),
            third.moved_from(second, d2),
        ensures
            third.moved_from(first, d2),
    {
    }
}

impl MPTFFN {
    /// A move to `d1` followed by a move to `d2` is a move to `d2`.
    proof fn lemma_moves_compose(first: Self, second: Self, third: Self, d1: Device, d2: Device)
        requires
            second.moved_from(first, d1),
            third.moved_from(second, d2),
        ensures
            third.moved_from(first, d2),
    {
    }
}

} // verus!

verus! {

impl MPTConfig {
    /// The default configuration has these sizes: the clauses below.
    pub proof fn lemma_default_sizes(&self)
        requires
            self.gguf_fields_default(),
        ensures
            self.vocab_size == 50432,
            self.hidden_size == 4096,
            self.intermediate_size == 16384,
            self.num_hidden_layers == 32,
            self.num_attention_heads == 32,
            self.num_key_value_heads == 32,
            self.max_position_embeddings == 2048,
    {
    }

    /// The default configuration has these remaining settings: the clauses below.
    pub proof fn lemma_default_settings(&self)
        requires
            self.other_fields_default(),
        ensures
            self.hidden_act@ == "gelu"@,
            self.initializer_range.bits == 0x3ca3d70a,
            self.layer_norm_eps.bits == 0x3727c5ac,
            self.use_cache == true,
            self.pad_token_id == 0,
            self.bos_token_id == 0,
            self.eos_token_id == 0,
            self.tie_word_embeddings == true,
            self.alibi == true,
            self.no_bias == true,
    {
    }

    /// The default configuration is the one with the default sizes and settings: the clauses below.
    pub proof fn lemma_default_parts(&self)
        requires
            self.is_default(),
        ensures
            ({
            self.gguf_fields_default() && self.other_fields_default()
        }),
    {
    }
}

impl MPTModelV2 {
    /// Built for `config` on `device`, each weight is the zero tensor of the shape the configuration gives, on `device`, and each recorded size is the configured one: the clauses below.
    pub proof fn lemma_built_weights(&self, config: MPTConfig, device: Device)
        requires
            self.built_for(config, device),
        ensures
            self.wte.is_f32(seq![config.vocab_size, config.hidden_size], device),
            self.blocks@.len() == config.num_hidden_layers,
            forall|k: int| 0 <= k < self.blocks@.len() ==> #[trigger] self.blocks@[k].built_for(config, device),
            self.norm_f.is_f32(seq![config.hidden_size], device),
    {
    }

    /// After a move to `device`, every weight lies on `device` with its shape, element type and elements kept, and nothing else changes: the clauses below.
    pub proof fn lemma_moved_weights(&self, before: Self, device: Device)
        requires
            self.moved_from(before, device),
        ensures
            self.config == before.config,
            self.device == device,
            self.wte.is_placed(before.wte, device),
            self.blocks@.len() == before.blocks@.len(),
            forall|k: int| 0 <= k < self.blocks@.len() ==> #[trigger] self.blocks@[k].moved_from(before.blocks@[k], device),
            self.norm_f.is_placed(before.norm_f, device),
    {
    }

    /// After loading from `weights`, each weight holds the tensor stored under its checkpoint name, copied or transposed, and keeps its previous value when the name is absent; nothing else changes: the clauses below.
    pub proof fn lemma_loaded_weights(&self, before: Self, weights: ModelWeights)
        requires
            self.loaded(before, weights),
        ensures
            self.config == before.config,
            self.device == before.device,
            copied(self.wte, before.wte, weights.lookup("transformer.wte.weight"@)),
            self.blocks@.len() == before.blocks@.len(),
            forall|k: int| 0 <= k < before.blocks@.len() ==> #[trigger] self.blocks@[k].loaded(before.blocks@[k], weights, k),
            copied(self.norm_f, before.norm_f, weights.lookup("transformer.norm_f.weight"@)),
    {
    }

    /// Loading from `weights` succeeds only when every tensor it must transpose, found under these checkpoint names, has at least two dimensions: the clauses below.
    pub proof fn lemma_loadable_names(&self, weights: ModelWeights)
        requires
            self.loadable(weights),
        ensures
            forall|k: int| 0 <= k < self.blocks@.len() ==> #[trigger] self.blocks@[k].loadable(weights, k),
    {
    }
}

impl MPTBlock {
    /// Built for `config` on `device`, each weight is the zero tensor of the shape the configuration gives, on `device`, and each recorded size is the configured one: the clauses below.
    pub proof fn lemma_built_weights(&self, config: MPTConfig, device: Device)
        requires
            self.built_for(config, device),
        ensures
            self.attn.built_for(config, device),
            self.ffn.built_for(config, device),
            self.norm_1.is_f32(seq![config.hidden_size], device),
            self.norm_2.is_f32(seq![config.hidden_size], device),
    {
    }

    /// After a move to `device`, every weight lies on `device` with its shape, element type and elements kept, and nothing else changes: the clauses below.
    pub proof fn lemma_moved_weights(&self, before: Self, device: Device)
        requires
            self.moved_from(before, device),
        ensures
            self.attn.moved_from(before.attn, device),
            self.ffn.moved_from(before.ffn, device),
            self.norm_1.is_placed(before.norm_1, device),
            self.norm_2.is_placed(before.norm_2, device),
    {
    }

    /// After loading from `weights`, each weight holds the tensor stored under its checkpoint name, copied or transposed, and keeps its previous value when the name is absent; nothing else changes: the clauses below.
    pub proof fn lemma_loaded_weights(&self, before: Self, weights: ModelWeights, idx: int)
        requires
            self.loaded(before, weights, idx),
        ensures
            transposed(self.attn.wqkv, before.attn.wqkv, weights.lookup(indexed("transformer.blocks."@, idx, ".attn.Wqkv.weight"@))),
            transposed(self.attn.out_proj, before.attn.out_proj, weights.lookup(indexed("transformer.blocks."@, idx, ".attn.out_proj.weight"@))),
            self.attn.num_heads == before.attn.num_heads,
            self.attn.head_dim == before.attn.head_dim,
            self.attn.alibi == before.attn.alibi,
            transposed(self.ffn.up_proj, before.ffn.up_proj, weights.lookup(indexed("transformer.blocks."@, idx, ".ffn.up_proj.weight"@))),
            transposed(self.ffn.down_proj, before.ffn.down_proj, weights.lookup(indexed("transformer.blocks."@, idx, ".ffn.down_proj.weight"@))),
            copied(self.norm_1, before.norm_1, weights.lookup(indexed("transformer.blocks."@, idx, ".norm_1.weight"@))),
            copied(self.norm_2, before.norm_2, weights.lookup(indexed("transformer.blocks."@, idx, ".norm_2.weight"@))),
    {
    }

    /// Loading from `weights` succeeds only when every tensor it must transpose, found under these checkpoint names, has at least two dimensions: the clauses below.
    pub proof fn lemma_loadable_names(&self, weights: ModelWeights, idx: int)
        requires
            self.loadable(weights, idx),
        ensures
            transposable(weights.lookup(indexed("transformer.blocks."@, idx, ".attn.Wqkv.weight"@))),
            transposable(weights.lookup(indexed("transformer.blocks."@, idx, ".attn.out_proj.weight"@))),
            transposable(weights.lookup(indexed("transformer.blocks."@, idx, ".ffn.up_proj.weight"@))),
            transposable(weights.lookup(indexed("transformer.blocks."@, idx, ".ffn.down_proj.weight"@))),
    {
    }
}

impl MPTAttention {
    /// Built for `config` on `device`, each weight is the zero tensor of the shape the configuration gives, on `device`, and each recorded size is the configured one: the clauses below.
    pub proof fn lemma_built_weights(&self, config: MPTConfig, device: Device)
        requires
            self.built_for(config, device),
        ensures
            self.wqkv.is_f32(seq![config.hidden_size, (3 * config.hidden_size) as usize], device),
            self.out_proj.is_f32(seq![config.hidden_size, config.hidden_size], device),
            self.num_heads == config.num_attention_heads,
            self.head_dim == config.hidden_size / config.num_attention_heads,
            self.alibi == config.alibi,
    {
    }

    /// After a move to `device`, every weight lies on `device` with its shape, element type and elements kept, and nothing else changes: the clauses below.
    pub proof fn lemma_moved_weights(&self, before: Self, device: Device)
        requires
            self.moved_from(before, device),
        ensures
            self.wqkv.is_placed(before.wqkv, device),
            self.out_proj.is_placed(before.out_proj, device),
            self.num_heads == before.num_heads,
            self.head_dim == before.head_dim,
            self.alibi == before.alibi,
    {
    }
}

impl MPTFFN {
    /// Built for `config` on `device`, each weight is the zero tensor of the shape the configuration gives, on `device`, and each recorded size is the configured one: the clauses below.
    pub proof fn lemma_built_weights(&self, config: MPTConfig, device: Device)
        requires
            self.built_for(config, device),
        ensures
            self.up_proj.is_f32(seq![config.hidden_size, config.intermediate_size], device),
            self.down_proj.is_f32(seq![config.intermediate_size, config.hidden_size], device),
    {
    }

    /// After a move to `device`, every weight lies on `device` with its shape, element type and elements kept, and nothing else changes: the clauses below.
    pub proof fn lemma_moved_weights(&self, before: Self, device: Device)
        requires
            self.moved_from(before, device),
        ensures
            self.up_proj.is_placed(before.up_proj, device),
            self.down_proj.is_placed(before.down_proj, device),
    {
    }
}

/// `mpt_param_count` is, for every configuration, the formula below.
pub proof fn lemma_mpt_param_count_formula(c: MPTConfig)
    ensures
        mpt_param_count(c) == (c.vocab_size * c.hidden_size + c.num_hidden_layers * 8 * (c.hidden_size * c.hidden_size)),
{
}

} // verus!
