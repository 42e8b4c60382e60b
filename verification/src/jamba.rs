//! The Jamba (hybrid attention and state-space layers with experts) model.
use vstd::prelude::*;
use crate::common::F32Bits;
use crate::gguf::GGUFModelConfig;
use crate::mamba::{auto_dt_rank, compute_auto_dt_rank};
use crate::common::{MemoryRequirements, ModelError};
use crate::tensor::{zeros1, zeros2, Device, Tensor};
use crate::weights::{copied, copied_opt, transposed, transposable, is_transpose_error, indexed, twice_indexed, conv_loaded, indexed_name, twice_indexed_name, load_copy, load_copy_opt, load_transposed, load_conv, ModelWeights};

verus! {

/// Hyperparameters of the Jamba (hybrid attention and state-space layers with experts) model.
#[derive(Clone, Debug)]
pub struct JambaConfig {
    pub vocab_size: usize,
    pub hidden_size: usize,
    pub intermediate_size: usize,
    pub num_hidden_layers: usize,
    pub num_attention_heads: usize,
    pub num_key_value_heads: usize,
    pub hidden_act: String,
    pub max_position_embeddings: usize,
    pub initializer_range: F32Bits,
    pub rms_norm_eps: F32Bits,
    pub use_cache: bool,
    pub pad_token_id: i64,
    pub bos_token_id: i64,
    pub eos_token_id: i64,
    pub tie_word_embeddings: bool,
    pub rope_theta: F32Bits,
    pub attention_dropout: F32Bits,
    pub d_state: usize,
    pub d_conv: usize,
    pub expand: usize,
    pub num_experts: usize,
    pub num_experts_per_tok: usize,
    pub attn_layer_period: usize,
    pub attn_layer_offset: usize,
    pub use_mamba_preprocessing: bool,
    pub mamba_d_inner: usize,
    pub mamba_dt_rank: usize,
}

impl JambaConfig {
    /// The fields that a GGUF file supplies hold their default values.
    pub open spec fn gguf_fields_default(&self) -> bool {
        &&& self.vocab_size == 65536
        &&& self.hidden_size == 4096
        &&& self.intermediate_size == 14336
        &&& self.num_hidden_layers == 32
        &&& self.num_attention_heads == 32
        &&& self.num_key_value_heads == 8
        &&& self.max_position_embeddings == 262144
        &&& self.rms_norm_eps.bits == 0x358637bd
        &&& self.rope_theta.bits == 0x461c4000
    }

    /// The fields that a GGUF file does not supply hold their default values.
    pub open spec fn other_fields_default(&self) -> bool {
        &&& self.hidden_act@ == "silu"@
        &&& self.initializer_range.bits == 0x3ca3d70a
        &&& self.use_cache == true
        &&& self.pad_token_id == 0
        &&& self.bos_token_id == 1
        &&& self.eos_token_id == 2
        &&& self.tie_word_embeddings == false
        &&& self.attention_dropout.bits == 0x00000000
        &&& self.d_state == 16
        &&& self.d_conv == 4
        &&& self.expand == 2
        &&& self.num_experts == 16
        &&& self.num_experts_per_tok == 2
        &&& self.attn_layer_period == 8
        &&& self.attn_layer_offset == 4
        &&& self.use_mamba_preprocessing == true
        &&& self.mamba_d_inner == 0
        &&& self.mamba_dt_rank == 0
    }

    /// Every field holds its default value.
    pub open spec fn is_default(&self) -> bool {
        self.gguf_fields_default() && self.other_fields_default()
    }

    /// The configuration described by a GGUF file: the architecture fields it
    /// carries, and the defaults for the rest.
    pub fn from_gguf_config(gguf: &GGUFModelConfig) -> (r: Self)
        ensures
            r.vocab_size == gguf.vocab_size,
            r.hidden_size == gguf.hidden_size,
            r.intermediate_size == gguf.intermediate_size,
            r.num_hidden_layers == gguf.num_hidden_layers,
            r.num_attention_heads == gguf.num_attention_heads,
            r.num_key_value_heads == gguf.num_key_value_heads,
            r.rms_norm_eps == gguf.rms_norm_eps,
            r.rope_theta == gguf.rope_theta,
            r.max_position_embeddings == gguf.max_position_embeddings,
            r.other_fields_default(),
    {
        let d = Self::default();
        Self {
            vocab_size: gguf.vocab_size,
            hidden_size: gguf.hidden_size,
            intermediate_size: gguf.intermediate_size,
            num_hidden_layers: gguf.num_hidden_layers,
            num_attention_heads: gguf.num_attention_heads,
            num_key_value_heads: gguf.num_key_value_heads,
            rms_norm_eps: gguf.rms_norm_eps,
            rope_theta: gguf.rope_theta,
            max_position_embeddings: gguf.max_position_embeddings,
            ..d
        }
    }

    /// Layer `layer_idx` is an attention layer when it leaves the remainder
    /// `attn_layer_offset` on division by `attn_layer_period`: the first
    /// attention layer is at the offset, then one every period; the others
    /// are Mamba layers.
    pub open spec fn spec_is_attention_layer(&self, layer_idx: int) -> bool {
        layer_idx % (self.attn_layer_period as int) == self.attn_layer_offset
    }

    /// Whether layer `layer_idx` uses attention (rather than a Mamba block).
    pub fn is_attention_layer(&self, layer_idx: usize) -> (r: bool)
        requires
            self.attn_layer_period > 0,
        ensures
            r == self.spec_is_attention_layer(layer_idx as int),
    {
        layer_idx % self.attn_layer_period == self.attn_layer_offset
    }

    /// The inner width of the Mamba blocks: `mamba_d_inner` when set, else
    /// `hidden_size * expand`.
    pub open spec fn spec_effective_mamba_d_inner(&self) -> int {
        if self.mamba_d_inner > 0 { self.mamba_d_inner as int } else { self.hidden_size * self.expand }
    }

    /// The time-step rank of the Mamba blocks: `mamba_dt_rank` when set, else
    /// ceil(hidden_size / 16), at least 1.
    pub open spec fn spec_effective_mamba_dt_rank(&self) -> int {
        if self.mamba_dt_rank > 0 { self.mamba_dt_rank as int } else { auto_dt_rank(self.hidden_size as int) }
    }

    /// The inner width of the Mamba blocks.
    pub fn effective_mamba_d_inner(&self) -> (r: usize)
        requires
            self.spec_effective_mamba_d_inner() <= usize::MAX,
        ensures
            r == self.spec_effective_mamba_d_inner(),
    {
        if self.mamba_d_inner > 0 {
            self.mamba_d_inner
        } else {
            self.hidden_size * self.expand
        }
    }

    /// The time-step rank of the Mamba blocks.
    pub fn effective_mamba_dt_rank(&self) -> (r: usize)
        ensures
            r == self.spec_effective_mamba_dt_rank(),
    {
        if self.mamba_dt_rank > 0 {
            self.mamba_dt_rank
        } else {
            compute_auto_dt_rank(self.hidden_size)
        }
    }

    /// Size of the token vocabulary.
    pub fn vocab_size(&self) -> (r: usize)
        ensures
            r == self.vocab_size,
    {
        self.vocab_size
    }

    /// Width of the hidden states.
    pub fn hidden_size(&self) -> (r: usize)
        ensures
            r == self.hidden_size,
    {
        self.hidden_size
    }

    /// Number of transformer (or state-space) layers.
    pub fn num_layers(&self) -> (r: usize)
        ensures
            r == self.num_hidden_layers,
    {
        self.num_hidden_layers
    }
}

/// The kind of a layer repeats with the attention period: layer
/// `layer_idx + attn_layer_period` is an attention layer exactly when layer
/// `layer_idx` is one.
pub proof fn lemma_attention_layers_repeat(config: JambaConfig, layer_idx: nat)
    requires
        config.attn_layer_period > 0,
    ensures
        config.spec_is_attention_layer(layer_idx + config.attn_layer_period)
            == config.spec_is_attention_layer(layer_idx as int),
{
    let p = config.attn_layer_period as int;
    vstd::arithmetic::div_mod::lemma_mod_add_multiples_vanish(layer_idx as int, p);
}

/// The first attention layer is the one at `attn_layer_offset`: no layer
/// before it uses attention, and it does, when the offset is below the period.
pub proof fn lemma_first_attention_layer_at_offset(config: JambaConfig)
    requires
        config.attn_layer_offset < config.attn_layer_period,
    ensures
        config.spec_is_attention_layer(config.attn_layer_offset as int),
        forall|k: int| 0 <= k < config.attn_layer_offset ==> !#[trigger] config.spec_is_attention_layer(k),
{
    let p = config.attn_layer_period as int;
    vstd::arithmetic::div_mod::lemma_small_mod(config.attn_layer_offset as nat, p as nat);
    assert forall|k: int| 0 <= k < config.attn_layer_offset implies !#[trigger] config.spec_is_attention_layer(k) by {
        vstd::arithmetic::div_mod::lemma_small_mod(k as nat, p as nat);
    }
}

impl Default for JambaConfig {
    fn default() -> (r: Self)
        ensures
            r.is_default(),
    {
        Self {
            vocab_size: 65536,
            hidden_size: 4096,
            intermediate_size: 14336,
            num_hidden_layers: 32,
            num_attention_heads: 32,
            num_key_value_heads: 8,
            hidden_act: String::from_str("silu"),
            max_position_embeddings: 262144,
            initializer_range: F32Bits::from_bits(0x3ca3d70a),
            rms_norm_eps: F32Bits::from_bits(0x358637bd),
            use_cache: true,
            pad_token_id: 0,
            bos_token_id: 1,
            eos_token_id: 2,
            tie_word_embeddings: false,
            rope_theta: F32Bits::from_bits(0x461c4000),
            attention_dropout: F32Bits::from_bits(0x00000000),
            d_state: 16,
            d_conv: 4,
            expand: 2,
            num_experts: 16,
            num_experts_per_tok: 2,
            attn_layer_period: 8,
            attn_layer_offset: 4,
            use_mamba_preprocessing: true,
            mamba_d_inner: 0,
            mamba_dt_rank: 0,
        }
    }
}

/// A Jamba Mamba block: input projection to two branches, a causal depthwise convolution, the selective state-space parameters, and an output projection.
pub struct JambaMambaBlock {
    pub in_proj: Tensor,
    pub conv1d_weight: Tensor,
    pub conv1d_bias: Option<Tensor>,
    pub x_proj: Tensor,
    pub dt_proj: Tensor,
    pub dt_proj_bias: Option<Tensor>,
    pub a_log: Tensor,
    pub d: Tensor,
    pub out_proj: Tensor,
    pub d_inner: usize,
    pub d_state: usize,
    pub d_conv: usize,
    pub dt_rank: usize,
}

/// A Jamba attention block: query, key, value and output projections with grouped key-value heads.
pub struct JambaAttentionBlock {
    pub q_proj: Tensor,
    pub k_proj: Tensor,
    pub v_proj: Tensor,
    pub o_proj: Tensor,
    pub num_heads: usize,
    pub num_key_value_heads: usize,
    pub head_dim: usize,
}

/// Jamba mixture of experts: a router over `num_experts` experts, `num_experts_per_tok` of which serve each token.
pub struct JambaMoE {
    pub router: Tensor,
    pub experts: Vec<JambaExpert>,
    pub num_experts: usize,
    pub num_experts_per_tok: usize,
}

/// One Jamba expert: a gated feed-forward block.
pub struct JambaExpert {
    pub gate_proj: Tensor,
    pub up_proj: Tensor,
    pub down_proj: Tensor,
}

impl JambaMambaBlock {
    /// Built for `config`: with the effective inner width and time-step rank, an input projection `[hidden_size, 2 * d_inner]`, a convolution `[d_inner, d_conv]` with bias, `x_proj` `[d_inner, dt_rank + 2 * d_state]`, `dt_proj` `[dt_rank, d_inner]` with bias, `A_log` `[d_inner, d_state]`, `D` `[d_inner]`, and an output projection `[d_inner, hidden_size]`.
    pub closed spec fn built_for(&self, config: JambaConfig, device: Device) -> bool {
        let d_inner = (config.spec_effective_mamba_d_inner() as usize) as usize;
        let dt_rank = (config.spec_effective_mamba_dt_rank() as usize) as usize;
        &&& self.in_proj.is_f32(seq![config.hidden_size, (d_inner * 2) as usize], device)
        &&& self.conv1d_weight.is_f32(seq![d_inner, config.d_conv], device)
        &&& self.conv1d_bias matches Some(t) && t.is_f32(seq![d_inner], device)
        &&& self.x_proj.is_f32(seq![d_inner, (dt_rank + config.d_state * 2) as usize], device)
        &&& self.dt_proj.is_f32(seq![dt_rank, d_inner], device)
        &&& self.dt_proj_bias matches Some(t) && t.is_f32(seq![d_inner], device)
        &&& self.a_log.is_f32(seq![d_inner, config.d_state], device)
        &&& self.d.is_f32(seq![d_inner], device)
        &&& self.out_proj.is_f32(seq![d_inner, config.hidden_size], device)
        &&& self.d_inner == d_inner
        &&& self.d_state == config.d_state
        &&& self.d_conv == config.d_conv
        &&& self.dt_rank == dt_rank
    }

    /// `self` is `old` with its weights placed on `device`.
    pub closed spec fn moved_from(&self, old: Self, device: Device) -> bool {
        &&& self.in_proj.is_placed(old.in_proj, device)
        &&& self.conv1d_weight.is_placed(old.conv1d_weight, device)
        &&& (match (self.conv1d_bias, old.conv1d_bias) { (Some(a), Some(b)) => a.is_placed(b, device), (None, None) => true, _ => false })
        &&& self.x_proj.is_placed(old.x_proj, device)
        &&& self.dt_proj.is_placed(old.dt_proj, device)
        &&& (match (self.dt_proj_bias, old.dt_proj_bias) { (Some(a), Some(b)) => a.is_placed(b, device), (None, None) => true, _ => false })
        &&& self.a_log.is_placed(old.a_log, device)
        &&& self.d.is_placed(old.d, device)
        &&& self.out_proj.is_placed(old.out_proj, device)
        &&& self.d_inner == old.d_inner
        &&& self.d_state == old.d_state
        &&& self.d_conv == old.d_conv
        &&& self.dt_rank == old.dt_rank
    }

    fn new(config: &JambaConfig, device: &Device) -> (r: Self)
        requires
            config.spec_effective_mamba_d_inner() * 2 <= usize::MAX,
            config.d_state * 2 <= usize::MAX,
            config.spec_effective_mamba_dt_rank() + config.d_state * 2 <= usize::MAX,
        ensures
            r.built_for(*config, *device),
    {
        let d_inner = config.effective_mamba_d_inner();
        let dt_rank = config.effective_mamba_dt_rank();
        let in_proj = zeros2(config.hidden_size, d_inner * 2, device);
        let conv1d_weight = zeros2(d_inner, config.d_conv, device);
        let conv1d_bias = Some(zeros1(d_inner, device));
        let x_proj = zeros2(d_inner, dt_rank + config.d_state * 2, device);
        let dt_proj = zeros2(dt_rank, d_inner, device);
        let dt_proj_bias = Some(zeros1(d_inner, device));
        let a_log = zeros2(d_inner, config.d_state, device);
        let d = zeros1(d_inner, device);
        let out_proj = zeros2(d_inner, config.hidden_size, device);
        let d_state = config.d_state;
        let d_conv = config.d_conv;
        JambaMambaBlock { in_proj, conv1d_weight, conv1d_bias, x_proj, dt_proj, dt_proj_bias, a_log, d, out_proj, d_inner, d_state, d_conv, dt_rank }
    }

    /// Places the weights on `device`.
    fn to_device(&mut self, device: &Device)
        ensures
            final(self).moved_from(*old(self), *device),
    {
        self.in_proj = self.in_proj.to_device(device);
        self.conv1d_weight = self.conv1d_weight.to_device(device);
        let moved_conv1d_bias = match &self.conv1d_bias { Some(t) => Some(t.to_device(device)), None => None };
        self.conv1d_bias = moved_conv1d_bias;
        self.x_proj = self.x_proj.to_device(device);
        self.dt_proj = self.dt_proj.to_device(device);
        let moved_dt_proj_bias = match &self.dt_proj_bias { Some(t) => Some(t.to_device(device)), None => None };
        self.dt_proj_bias = moved_dt_proj_bias;
        self.a_log = self.a_log.to_device(device);
        self.d = self.d.to_device(device);
        self.out_proj = self.out_proj.to_device(device);
    }
}

impl JambaAttentionBlock {
    /// The weights as built for `config` on `device`, all zero.
    pub closed spec fn built_for(&self, config: JambaConfig, device: Device) -> bool {
        let head_dim = config.hidden_size / config.num_attention_heads;
        &&& self.q_proj.is_f32(seq![config.hidden_size, (config.num_attention_heads * head_dim) as usize], device)
        &&& self.k_proj.is_f32(seq![config.hidden_size, (config.num_key_value_heads * head_dim) as usize], device)
        &&& self.v_proj.is_f32(seq![config.hidden_size, (config.num_key_value_heads * head_dim) as usize], device)
        &&& self.o_proj.is_f32(seq![(config.num_attention_heads * head_dim) as usize, config.hidden_size], device)
        &&& self.num_heads == config.num_attention_heads
        &&& self.num_key_value_heads == config.num_key_value_heads
        &&& self.head_dim == head_dim
    }

    /// `self` is `old` with its weights placed on `device`.
    pub closed spec fn moved_from(&self, old: Self, device: Device) -> bool {
        &&& self.q_proj.is_placed(old.q_proj, device)
        &&& self.k_proj.is_placed(old.k_proj, device)
        &&& self.v_proj.is_placed(old.v_proj, device)
        &&& self.o_proj.is_placed(old.o_proj, device)
        &&& self.num_heads == old.num_heads
        &&& self.num_key_value_heads == old.num_key_value_heads
        &&& self.head_dim == old.head_dim
    }

    fn new(config: &JambaConfig, device: &Device) -> (r: Self)
        requires
            config.num_attention_heads > 0,
            config.num_attention_heads * (config.hidden_size / config.num_attention_heads) <= usize::MAX,
            config.num_key_value_heads * (config.hidden_size / config.num_attention_heads) <= usize::MAX,
        ensures
            r.built_for(*config, *device),
    {
        let head_dim = config.hidden_size / config.num_attention_heads;
        let q_proj = zeros2(config.hidden_size, config.num_attention_heads * head_dim, device);
        let k_proj = zeros2(config.hidden_size, config.num_key_value_heads * head_dim, device);
        let v_proj = zeros2(config.hidden_size, config.num_key_value_heads * head_dim, device);
        let o_proj = zeros2(config.num_attention_heads * head_dim, config.hidden_size, device);
        let num_heads = config.num_attention_heads;
        let num_key_value_heads = config.num_key_value_heads;
        JambaAttentionBlock { q_proj, k_proj, v_proj, o_proj, num_heads, num_key_value_heads, head_dim }
    }

    /// Places the weights on `device`.
    fn to_device(&mut self, device: &Device)
        ensures
            final(self).moved_from(*old(self), *device),
    {
        self.q_proj = self.q_proj.to_device(device);
        self.k_proj = self.k_proj.to_device(device);
        self.v_proj = self.v_proj.to_device(device);
        self.o_proj = self.o_proj.to_device(device);
    }
}

impl JambaMoE {
    /// The weights as built for `config` on `device`, all zero.
    pub closed spec fn built_for(&self, config: JambaConfig, device: Device) -> bool {
        &&& self.router.is_f32(seq![config.hidden_size, config.num_experts], device)
        &&& self.experts@.len() == config.num_experts
        &&& forall|k: int| 0 <= k < self.experts@.len() ==> #[trigger] self.experts@[k].built_for(config, device)
        &&& self.num_experts == config.num_experts
        &&& self.num_experts_per_tok == config.num_experts_per_tok
    }

    /// `self` is `old` with its weights placed on `device`.
    pub closed spec fn moved_from(&self, old: Self, device: Device) -> bool {
        &&& self.router.is_placed(old.router, device)
        &&& self.experts@.len() == old.experts@.len()
        &&& forall|k: int| 0 <= k < self.experts@.len() ==> #[trigger] self.experts@[k].moved_from(old.experts@[k], device)
        &&& self.num_experts == old.num_experts
        &&& self.num_experts_per_tok == old.num_experts_per_tok
    }

    fn new(config: &JambaConfig, device: &Device) -> (r: Self)
        ensures
            r.built_for(*config, *device),
    {
        let router = zeros2(config.hidden_size, config.num_experts, device);
        let mut experts: Vec<JambaExpert> = Vec::new();
        let mut n: usize = 0;
        while n < config.num_experts
            invariant
                n <= config.num_experts,
                experts@.len() == n,
                forall|k: int| 0 <= k < n ==> #[trigger] experts@[k].built_for(*config, *device),
            decreases config.num_experts - n,
        {
            experts.push(JambaExpert::new(config, device));
            n += 1;
        }
        let num_experts = config.num_experts;
        let num_experts_per_tok = config.num_experts_per_tok;
        JambaMoE { router, experts, num_experts, num_experts_per_tok }
    }

    /// Places the weights on `device`.
    fn to_device(&mut self, device: &Device)
        ensures
            final(self).moved_from(*old(self), *device),
    {
        self.router = self.router.to_device(device);
        let mut taken_experts: Vec<JambaExpert> = Vec::new();
        std::mem::swap(&mut taken_experts, &mut self.experts);
        self.experts = JambaExpert::all_to_device(taken_experts, device);
    }
}

impl JambaExpert {
    /// The weights as built for `config` on `device`, all zero.
    pub closed spec fn built_for(&self, config: JambaConfig, device: Device) -> bool {
        &&& self.gate_proj.is_f32(seq![config.hidden_size, config.intermediate_size], device)
        &&& self.up_proj.is_f32(seq![config.hidden_size, config.intermediate_size], device)
        &&& self.down_proj.is_f32(seq![config.intermediate_size, config.hidden_size], device)
    }

    /// `self` is `old` with its weights placed on `device`.
    pub closed spec fn moved_from(&self, old: Self, device: Device) -> bool {
        &&& self.gate_proj.is_placed(old.gate_proj, device)
        &&& self.up_proj.is_placed(old.up_proj, device)
        &&& self.down_proj.is_placed(old.down_proj, device)
    }

    fn new(config: &JambaConfig, device: &Device) -> (r: Self)
        ensures
            r.built_for(*config, *device),
    {
        let gate_proj = zeros2(config.hidden_size, config.intermediate_size, device);
        let up_proj = zeros2(config.hidden_size, config.intermediate_size, device);
        let down_proj = zeros2(config.intermediate_size, config.hidden_size, device);
        JambaExpert { gate_proj, up_proj, down_proj }
    }

    /// Places the weights on `device`.
    fn to_device(&mut self, device: &Device)
        ensures
            final(self).moved_from(*old(self), *device),
    {
        self.gate_proj = self.gate_proj.to_device(device);
        self.up_proj = self.up_proj.to_device(device);
        self.down_proj = self.down_proj.to_device(device);
    }

    /// The layers, in order, each with its weights placed on `device`.
    fn all_to_device(layers: Vec<JambaExpert>, device: &Device) -> (r: Vec<JambaExpert>)
        ensures
            r@.len() == layers@.len(),
            forall|k: int| 0 <= k < r@.len() ==> #[trigger] r@[k].moved_from(layers@[k], *device),
    {
        let mut rest = layers;
        let mut moved: Vec<JambaExpert> = Vec::new();
        while rest.len() > 0
            invariant
                moved@.len() + rest@.len() == layers@.len(),
                rest@ == layers@.subrange(moved@.len() as int, layers@.len() as int),
                forall|k: int| 0 <= k < moved@.len() ==> #[trigger] moved@[k].moved_from(layers@[k], *device),
            decreases rest@.len(),
        {
            let mut layer = rest.remove(0);
            assert(layer == layers@[moved@.len() as int]);
            layer.to_device(device);
            moved.push(layer);
            assert(rest@ =~= layers@.subrange(moved@.len() as int, layers@.len() as int));
        }
        moved
    }
}

/// What a Jamba layer mixes with: a Mamba block or an attention block.
pub enum JambaLayerType {
    Mamba(JambaMambaBlock),
    Attention(JambaAttentionBlock),
}

/// A Jamba layer: a Mamba or attention block, then a mixture of experts,
/// each after a norm.
pub struct JambaLayer {
    pub layer_type: JambaLayerType,
    pub moe: JambaMoE,
    pub input_layernorm: Tensor,
    pub post_layernorm: Tensor,
    pub config: JambaConfig,
}

/// The model for `config` builds without overflow or division by zero.
pub open spec fn jamba_dims_fit(config: JambaConfig) -> bool {
    &&& config.attn_layer_period > 0
    &&& config.spec_effective_mamba_d_inner() * 2 <= usize::MAX
    &&& config.d_state * 2 <= usize::MAX
    &&& config.spec_effective_mamba_dt_rank() + config.d_state * 2 <= usize::MAX
    &&& config.num_attention_heads > 0
    &&& config.num_attention_heads * (config.hidden_size / config.num_attention_heads) <= usize::MAX
    &&& config.num_key_value_heads * (config.hidden_size / config.num_attention_heads) <= usize::MAX
}

impl JambaLayerType {
    /// The block is an attention block.
    pub open spec fn is_attention(&self) -> bool {
        self is Attention
    }
}

impl JambaLayer {
    /// Layer `layer_idx` as built for `config` on `device`: an attention block
    /// when `config` makes that layer an attention layer, a Mamba block
    /// otherwise; the mixture of experts; and the two norms.
    pub closed spec fn built_for(&self, config: JambaConfig, layer_idx: int, device: Device) -> bool {
        &&& (if config.spec_is_attention_layer(layer_idx) {
            self.layer_type matches JambaLayerType::Attention(a) && a.built_for(config, device)
        } else {
            self.layer_type matches JambaLayerType::Mamba(m) && m.built_for(config, device)
        })
        &&& self.moe.built_for(config, device)
        &&& self.input_layernorm.is_f32(seq![config.hidden_size], device)
        &&& self.post_layernorm.is_f32(seq![config.hidden_size], device)
    }

    /// The layer uses attention.
    pub closed spec fn uses_attention(&self) -> bool {
        self.layer_type.is_attention()
    }

    /// `self` is `old` with its weights placed on `device`.
    pub closed spec fn moved_from(&self, old: Self, device: Device) -> bool {
        &&& (match (self.layer_type, old.layer_type) {
            (JambaLayerType::Mamba(a), JambaLayerType::Mamba(b)) => a.moved_from(b, device),
            (JambaLayerType::Attention(a), JambaLayerType::Attention(b)) => a.moved_from(b, device),
            _ => false,
        })
        &&& self.moe.moved_from(old.moe, device)
        &&& self.input_layernorm.is_placed(old.input_layernorm, device)
        &&& self.post_layernorm.is_placed(old.post_layernorm, device)
        &&& self.config == old.config
    }

    fn new(config: &JambaConfig, layer_idx: usize, device: &Device) -> (r: Self)
        requires
            jamba_dims_fit(*config),
            layer_idx < config.num_hidden_layers,
        ensures
            r.built_for(*config, layer_idx as int, *device),
    {
        let layer_type = if config.is_attention_layer(layer_idx) {
            JambaLayerType::Attention(JambaAttentionBlock::new(config, device))
        } else {
            JambaLayerType::Mamba(JambaMambaBlock::new(config, device))
        };
        let moe = JambaMoE::new(config, device);
        let input_layernorm = zeros1(config.hidden_size, device);
        let post_layernorm = zeros1(config.hidden_size, device);
        JambaLayer { layer_type, moe, input_layernorm, post_layernorm, config: config.clone() }
    }

    /// Places the weights on `device`.
    fn to_device(&mut self, device: &Device)
        ensures
            final(self).moved_from(*old(self), *device),
    {
        self.input_layernorm = self.input_layernorm.to_device(device);
        self.post_layernorm = self.post_layernorm.to_device(device);
        match &mut self.layer_type {
            JambaLayerType::Mamba(m) => m.to_device(device),
            JambaLayerType::Attention(a) => a.to_device(device),
        }
        self.moe.to_device(device);
    }
}


/// The Jamba model: token embeddings, hybrid layers (attention every
/// `attn_layer_period` layers, Mamba blocks otherwise, each with a mixture of
/// experts), a final norm, and the output head (the embeddings when tied).
pub struct JambaModelV2 {
    pub config: JambaConfig,
    pub device: Device,
    pub embed_tokens: Tensor,
    pub layers: Vec<JambaLayer>,
    pub norm: Tensor,
    pub lm_head: Tensor,
}

impl JambaLayer {
    /// The layers, in order, each with its weights placed on `device`.
    fn all_to_device(layers: Vec<JambaLayer>, device: &Device) -> (r: Vec<JambaLayer>)
        ensures
            r@.len() == layers@.len(),
            forall|k: int| 0 <= k < r@.len() ==> #[trigger] r@[k].moved_from(layers@[k], *device),
    {
        let mut rest = layers;
        let mut moved: Vec<JambaLayer> = Vec::new();
        while rest.len() > 0
            invariant
                moved@.len() + rest@.len() == layers@.len(),
                rest@ == layers@.subrange(moved@.len() as int, layers@.len() as int),
                forall|k: int| 0 <= k < moved@.len() ==> #[trigger] moved@[k].moved_from(layers@[k], *device),
            decreases rest@.len(),
        {
            let mut layer = rest.remove(0);
            assert(layer == layers@[moved@.len() as int]);
            layer.to_device(device);
            moved.push(layer);
            assert(rest@ =~= layers@.subrange(moved@.len() as int, layers@.len() as int));
        }
        moved
    }
}

impl JambaModelV2 {
    /// The configuration the model was built with.
    pub closed spec fn spec_config(&self) -> JambaConfig {
        self.config
    }

    /// The device the model reports.
    pub closed spec fn spec_device(&self) -> Device {
        self.device
    }

    /// Number of layers the model holds.
    pub closed spec fn num_layers_held(&self) -> int {
        self.layers@.len() as int
    }

    /// Layer `k` mixes with attention (rather than a Mamba block).
    pub closed spec fn layer_uses_attention(&self, k: int) -> bool {
        self.layers@[k].uses_attention()
    }

    /// The model as built for `config` on `device`: zero embeddings
    /// `[vocab_size, hidden_size]`, layer `k` built as layer `k` of `config`
    /// for each of the `num_hidden_layers` layers, the final norm, and a head
    /// that describes the embeddings when `tie_word_embeddings` and is a zero
    /// `[hidden_size, vocab_size]` matrix otherwise.
    pub closed spec fn built_for(&self, config: JambaConfig, device: Device) -> bool {
        &&& self.embed_tokens.is_f32(seq![config.vocab_size, config.hidden_size], device)
        &&& self.layers@.len() == config.num_hidden_layers
        &&& forall|k: int| 0 <= k < self.layers@.len() ==> #[trigger] self.layers@[k].built_for(config, k, device)
        &&& self.norm.is_f32(seq![config.hidden_size], device)
        &&& (if config.tie_word_embeddings {
            self.lm_head.same(self.embed_tokens)
        } else {
            self.lm_head.is_f32(seq![config.hidden_size, config.vocab_size], device)
        })
    }

    /// `self` is `old` moved to `device`: every weight placed there and the
    /// device recorded.
    pub closed spec fn moved_from(&self, old: Self, device: Device) -> bool {
        &&& self.config == old.config
        &&& self.device == device
        &&& self.embed_tokens.is_placed(old.embed_tokens, device)
        &&& self.layers@.len() == old.layers@.len()
        &&& forall|k: int| 0 <= k < self.layers@.len() ==> #[trigger] self.layers@[k].moved_from(old.layers@[k], device)
        &&& self.norm.is_placed(old.norm, device)
        &&& self.lm_head.is_placed(old.lm_head, device)
    }

    /// Builds the model for `config` on the CPU, with zero weights.
    pub fn new(config: JambaConfig) -> (r: Result<Self, ModelError>)
        requires
            jamba_dims_fit(config),
        ensures
            r matches Ok(m) && m.spec_config() == config && m.spec_device() == Device::CPU
                && m.built_for(config, Device::CPU),
    {
        let device = Device::CPU;
        let embed_tokens = zeros2(config.vocab_size, config.hidden_size, &device);
        let norm = zeros1(config.hidden_size, &device);
        let lm_head = if config.tie_word_embeddings {
            embed_tokens.duplicate()
        } else {
            zeros2(config.hidden_size, config.vocab_size, &device)
        };
        let mut layers: Vec<JambaLayer> = Vec::new();
        let mut n: usize = 0;
        while n < config.num_hidden_layers
            invariant
                n <= config.num_hidden_layers,
                jamba_dims_fit(config),
                layers@.len() == n,
                forall|k: int| 0 <= k < n ==> #[trigger] layers@[k].built_for(config, k, device),
            decreases config.num_hidden_layers - n,
        {
            layers.push(JambaLayer::new(&config, n, &device));
            n += 1;
        }
        Ok(JambaModelV2 { config, device, embed_tokens, layers, norm, lm_head })
    }

    /// The configuration the model was built with.
    pub fn config(&self) -> (r: &JambaConfig)
        ensures
            *r == self.spec_config(),
    {
        &self.config
    }

    /// Moves the model to `device`.
    pub fn to_device(&mut self, device: &Device) -> (r: Result<(), ModelError>)
        ensures
            r is Ok,
            final(self).moved_from(*old(self), *device),
    {
        self.device = *device;
        self.embed_tokens = self.embed_tokens.to_device(device);
        self.norm = self.norm.to_device(device);
        self.lm_head = self.lm_head.to_device(device);
        let mut taken_layers: Vec<JambaLayer> = Vec::new();
        std::mem::swap(&mut taken_layers, &mut self.layers);
        self.layers = JambaLayer::all_to_device(taken_layers, device);
        Ok(())
    }
}

/// The built model interleaves its layers as the configuration says: layer
/// `k` mixes with attention exactly when `k % attn_layer_period` is
/// `attn_layer_offset`, and with a Mamba block otherwise.
pub proof fn lemma_layer_kinds_follow_schedule(model: JambaModelV2, config: JambaConfig, device: Device)
    requires
        model.built_for(config, device),
    ensures
        model.num_layers_held() == config.num_hidden_layers,
        forall|k: int| 0 <= k < model.num_layers_held()
            ==> #[trigger] model.layer_uses_attention(k) == config.spec_is_attention_layer(k),
{
    assert forall|k: int| 0 <= k < model.num_layers_held()
        implies #[trigger] model.layer_uses_attention(k) == config.spec_is_attention_layer(k) by {
        assert(model.layers@[k].built_for(config, k, device));
    }
}
/// Parameter count of the estimate: embeddings, and per layer four square attention matrices and the experts.
pub open spec fn jamba_param_count(c: JambaConfig) -> int {
    c.vocab_size * c.hidden_size + c.num_hidden_layers * (4 * c.hidden_size * c.hidden_size + c.num_experts * 3 * c.hidden_size * c.intermediate_size)
}

/// Parameter bytes: four per parameter.
pub open spec fn jamba_param_bytes(c: JambaConfig) -> int {
    jamba_param_count(c) * 4
}

/// No step of the memory estimate for `JambaConfig` leaves the range of `usize`
/// or divides by zero.
pub open spec fn jamba_memory_fits(c: JambaConfig) -> bool {
    &&& c.vocab_size * c.hidden_size <= usize::MAX
    &&& 4 * c.hidden_size <= usize::MAX
    &&& 4 * c.hidden_size * c.hidden_size <= usize::MAX
    &&& c.num_experts * 3 <= usize::MAX
    &&& c.num_experts * 3 * c.hidden_size <= usize::MAX
    &&& c.num_experts * 3 * c.hidden_size * c.intermediate_size <= usize::MAX
    &&& 4 * c.hidden_size * c.hidden_size + c.num_experts * 3 * c.hidden_size * c.intermediate_size <= usize::MAX
    &&& c.num_hidden_layers * (4 * c.hidden_size * c.hidden_size + c.num_experts * 3 * c.hidden_size * c.intermediate_size) <= usize::MAX
    &&& c.vocab_size * c.hidden_size + c.num_hidden_layers * (4 * c.hidden_size * c.hidden_size + c.num_experts * 3 * c.hidden_size * c.intermediate_size) <= usize::MAX
    &&& (c.vocab_size * c.hidden_size + c.num_hidden_layers * (4 * c.hidden_size * c.hidden_size + c.num_experts * 3 * c.hidden_size * c.intermediate_size)) * 4 <= usize::MAX
    &&& (c.vocab_size * c.hidden_size + c.num_hidden_layers * (4 * c.hidden_size * c.hidden_size + c.num_experts * 3 * c.hidden_size * c.intermediate_size)) * 4 + (c.vocab_size * c.hidden_size + c.num_hidden_layers * (4 * c.hidden_size * c.hidden_size + c.num_experts * 3 * c.hidden_size * c.intermediate_size)) * 4 / 2 <= usize::MAX
}

impl JambaModelV2 {
    /// Estimated memory: the parameter bytes on the GPU, a quarter of them on the CPU, an eighth for the cache, and one and a half times the parameters at peak.
    pub fn memory_requirements(&self) -> (r: MemoryRequirements)
        requires
            jamba_memory_fits(self.spec_config()),
        ensures
            r.gpu_memory == jamba_param_bytes(self.spec_config()),
            r.cpu_memory == jamba_param_bytes(self.spec_config()) / 4,
            r.kv_cache_memory == jamba_param_bytes(self.spec_config()) / 8,
            r.peak_memory == jamba_param_bytes(self.spec_config()) + jamba_param_bytes(self.spec_config()) / 2,
    {
        let c = &self.config;
        let param_count = c.vocab_size * c.hidden_size + c.num_hidden_layers * (4 * c.hidden_size * c.hidden_size + c.num_experts * 3 * c.hidden_size * c.intermediate_size);
        let param_bytes = param_count * 4;
        MemoryRequirements {
            gpu_memory: param_bytes,
            cpu_memory: param_bytes / 4,
            kv_cache_memory: param_bytes / 8,
            peak_memory: param_bytes + param_bytes / 2,
        }
    }
}

impl JambaModelV2 {
    /// `self` is `old` after loading from `weights`: each weight whose
    /// checkpoint name `weights` holds takes that tensor's shape, element
    /// type, device and elements (as is, or transposed for a matrix product),
    /// and nothing else changes.
    pub closed spec fn loaded(&self, old: Self, weights: ModelWeights) -> bool {
        &&& self.config == old.config
        &&& self.device == old.device
        &&& copied(self.embed_tokens, old.embed_tokens, weights.lookup("model.embed_tokens.weight"@))
        &&& self.layers@.len() == old.layers@.len()
        &&& forall|k: int| 0 <= k < old.layers@.len() ==> #[trigger] self.layers@[k].loaded(old.layers@[k], weights, k)
        &&& copied(self.norm, old.norm, weights.lookup("model.norm.weight"@))
        &&& transposed(self.lm_head, old.lm_head, weights.lookup("lm_head.weight"@))
    }

    /// Every tensor that loading from `weights` would transpose has at least
    /// two dimensions.
    pub closed spec fn loadable(&self, weights: ModelWeights) -> bool {
        &&& transposable(weights.lookup("lm_head.weight"@))
        &&& forall|k: int| 0 <= k < self.layers@.len() ==> #[trigger] self.layers@[k].loadable(weights, k)
    }

    /// Loads the weights of `weights` that this part names.
    fn load_weights(&mut self, weights: &ModelWeights) -> (r: Result<(), ModelError>)
        ensures
            r is Ok <==> old(self).loadable(*weights),
            r is Ok ==> final(self).loaded(*old(self), *weights),
            r matches Err(e) ==> is_transpose_error(e),
    {
        load_copy(&mut self.embed_tokens, weights, "model.embed_tokens.weight");
        load_copy(&mut self.norm, weights, "model.norm.weight");
        load_transposed(&mut self.lm_head, weights, "lm_head.weight")?;
        let mut taken_layers: Vec<JambaLayer> = Vec::new();
        std::mem::swap(&mut taken_layers, &mut self.layers);
        self.layers = Self::load_layers(taken_layers, weights)?;
        Ok(())
    }

    /// Loads each of `items`, in order, from `weights`.
    fn load_layers(items: Vec<JambaLayer>, weights: &ModelWeights) -> (r: Result<Vec<JambaLayer>, ModelError>)
        ensures
            r is Ok <==> forall|k: int| 0 <= k < items@.len() ==> #[trigger] items@[k].loadable(*weights, k),
            r matches Ok(v) ==> v@.len() == items@.len() && forall|k: int| 0 <= k < items@.len() ==> #[trigger] v@[k].loaded(items@[k], *weights, k),
            r matches Err(e) ==> is_transpose_error(e),
    {
        let mut rest = items;
        let mut done: Vec<JambaLayer> = Vec::new();
        while rest.len() > 0
            invariant
                done@.len() + rest@.len() == items@.len(),
                rest@ == items@.subrange(done@.len() as int, items@.len() as int),
                forall|k: int| 0 <= k < done@.len() ==> #[trigger] done@[k].loaded(items@[k], *weights, k),
                forall|k: int| 0 <= k < done@.len() ==> #[trigger] items@[k].loadable(*weights, k),
            decreases rest@.len(),
        {
            let n = done.len();
            let mut item = rest.remove(0);
            assert(item == items@[n as int]);
            match item.load_weights(weights, n) {
                Ok(()) => {},
                Err(e) => {
                    assert(!items@[n as int].loadable(*weights, n as int));
                    return Err(e);
                },
            }
            done.push(item);
            assert(rest@ =~= items@.subrange(done@.len() as int, items@.len() as int));
        }
        Ok(done)
    }
}

impl JambaMambaBlock {
    /// `self` is `old` after loading from `weights`: each weight whose
    /// checkpoint name `weights` holds takes that tensor's shape, element
    /// type, device and elements (as is, or transposed for a matrix product),
    /// and nothing else changes.
    pub closed spec fn loaded(&self, old: Self, weights: ModelWeights, idx: int) -> bool {
        &&& transposed(self.in_proj, old.in_proj, weights.lookup(indexed("model.layers."@, idx, ".mamba.in_proj.weight"@)))
        &&& conv_loaded(self.conv1d_weight, old.conv1d_weight, weights.lookup(indexed("model.layers."@, idx, ".mamba.conv1d.weight"@)))
        &&& copied_opt(self.conv1d_bias, old.conv1d_bias, weights.lookup(indexed("model.layers."@, idx, ".mamba.conv1d.bias"@)))
        &&& transposed(self.x_proj, old.x_proj, weights.lookup(indexed("model.layers."@, idx, ".mamba.x_proj.weight"@)))
        &&& copied(self.dt_proj, old.dt_proj, weights.lookup(indexed("model.layers."@, idx, ".mamba.dt_proj.weight"@)))
        &&& copied_opt(self.dt_proj_bias, old.dt_proj_bias, weights.lookup(indexed("model.layers."@, idx, ".mamba.dt_proj.bias"@)))
        &&& copied(self.a_log, old.a_log, weights.lookup(indexed("model.layers."@, idx, ".mamba.A_log"@)))
        &&& copied(self.d, old.d, weights.lookup(indexed("model.layers."@, idx, ".mamba.D"@)))
        &&& transposed(self.out_proj, old.out_proj, weights.lookup(indexed("model.layers."@, idx, ".mamba.out_proj.weight"@)))
        &&& self.d_inner == old.d_inner
        &&& self.d_state == old.d_state
        &&& self.d_conv == old.d_conv
        &&& self.dt_rank == old.dt_rank
    }

    /// Every tensor that loading from `weights` would transpose has at least
    /// two dimensions.
    pub closed spec fn loadable(&self, weights: ModelWeights, idx: int) -> bool {
        &&& transposable(weights.lookup(indexed("model.layers."@, idx, ".mamba.in_proj.weight"@)))
        &&& transposable(weights.lookup(indexed("model.layers."@, idx, ".mamba.x_proj.weight"@)))
        &&& transposable(weights.lookup(indexed("model.layers."@, idx, ".mamba.out_proj.weight"@)))
    }

    /// Loads the weights of `weights` that this part names.
    fn load_weights(&mut self, weights: &ModelWeights, layer_idx: usize) -> (r: Result<(), ModelError>)
        ensures
            r is Ok <==> old(self).loadable(*weights, layer_idx as int),
            r is Ok ==> final(self).loaded(*old(self), *weights, layer_idx as int),
            r matches Err(e) ==> is_transpose_error(e),
    {
        load_transposed(&mut self.in_proj, weights, indexed_name("model.layers.", layer_idx, ".mamba.in_proj.weight").as_str())?;
        load_conv(&mut self.conv1d_weight, weights, indexed_name("model.layers.", layer_idx, ".mamba.conv1d.weight").as_str());
        load_copy_opt(&mut self.conv1d_bias, weights, indexed_name("model.layers.", layer_idx, ".mamba.conv1d.bias").as_str());
        load_transposed(&mut self.x_proj, weights, indexed_name("model.layers.", layer_idx, ".mamba.x_proj.weight").as_str())?;
        load_copy(&mut self.dt_proj, weights, indexed_name("model.layers.", layer_idx, ".mamba.dt_proj.weight").as_str());
        load_copy_opt(&mut self.dt_proj_bias, weights, indexed_name("model.layers.", layer_idx, ".mamba.dt_proj.bias").as_str());
        load_copy(&mut self.a_log, weights, indexed_name("model.layers.", layer_idx, ".mamba.A_log").as_str());
        load_copy(&mut self.d, weights, indexed_name("model.layers.", layer_idx, ".mamba.D").as_str());
        load_transposed(&mut self.out_proj, weights, indexed_name("model.layers.", layer_idx, ".mamba.out_proj.weight").as_str())?;
        Ok(())
    }
}

impl JambaAttentionBlock {
    /// `self` is `old` after loading from `weights`: each weight whose
    /// checkpoint name `weights` holds takes that tensor's shape, element
    /// type, device and elements (as is, or transposed for a matrix product),
    /// and nothing else changes.
    pub closed spec fn loaded(&self, old: Self, weights: ModelWeights, idx: int) -> bool {
        &&& transposed(self.q_proj, old.q_proj, weights.lookup(indexed("model.layers."@, idx, ".self_attn.q_proj.weight"@)))
        &&& transposed(self.k_proj, old.k_proj, weights.lookup(indexed("model.layers."@, idx, ".self_attn.k_proj.weight"@)))
        &&& transposed(self.v_proj, old.v_proj, weights.lookup(indexed("model.layers."@, idx, ".self_attn.v_proj.weight"@)))
        &&& transposed(self.o_proj, old.o_proj, weights.lookup(indexed("model.layers."@, idx, ".self_attn.o_proj.weight"@)))
        &&& self.num_heads == old.num_heads
        &&& self.num_key_value_heads == old.num_key_value_heads
        &&& self.head_dim == old.head_dim
    }

    /// Every tensor that loading from `weights` would transpose has at least
    /// two dimensions.
    pub closed spec fn loadable(&self, weights: ModelWeights, idx: int) -> bool {
        &&& transposable(weights.lookup(indexed("model.layers."@, idx, ".self_attn.q_proj.weight"@)))
        &&& transposable(weights.lookup(indexed("model.layers."@, idx, ".self_attn.k_proj.weight"@)))
        &&& transposable(weights.lookup(indexed("model.layers."@, idx, ".self_attn.v_proj.weight"@)))
        &&& transposable(weights.lookup(indexed("model.layers."@, idx, ".self_attn.o_proj.weight"@)))
    }

    /// Loads the weights of `weights` that this part names.
    fn load_weights(&mut self, weights: &ModelWeights, layer_idx: usize) -> (r: Result<(), ModelError>)
        ensures
            r is Ok <==> old(self).loadable(*weights, layer_idx as int),
            r is Ok ==> final(self).loaded(*old(self), *weights, layer_idx as int),
            r matches Err(e) ==> is_transpose_error(e),
    {
        load_transposed(&mut self.q_proj, weights, indexed_name("model.layers.", layer_idx, ".self_attn.q_proj.weight").as_str())?;
        load_transposed(&mut self.k_proj, weights, indexed_name("model.layers.", layer_idx, ".self_attn.k_proj.weight").as_str())?;
        load_transposed(&mut self.v_proj, weights, indexed_name("model.layers.", layer_idx, ".self_attn.v_proj.weight").as_str())?;
        load_transposed(&mut self.o_proj, weights, indexed_name("model.layers.", layer_idx, ".self_attn.o_proj.weight").as_str())?;
        Ok(())
    }
}

impl JambaMoE {
    /// `self` is `old` after loading from `weights`: each weight whose
    /// checkpoint name `weights` holds takes that tensor's shape, element
    /// type, device and elements (as is, or transposed for a matrix product),
    /// and nothing else changes.
    pub closed spec fn loaded(&self, old: Self, weights: ModelWeights, idx: int) -> bool {
        &&& transposed(self.router, old.router, weights.lookup(indexed("model.layers."@, idx, ".block_sparse_moe.gate.weight"@)))
        &&& self.experts@.len() == old.experts@.len()
        &&& forall|k: int| 0 <= k < old.experts@.len() ==> #[trigger] self.experts@[k].loaded(old.experts@[k], weights, idx, k)
        &&& self.num_experts == old.num_experts
        &&& self.num_experts_per_tok == old.num_experts_per_tok
    }

    /// Every tensor that loading from `weights` would transpose has at least
    /// two dimensions.
    pub closed spec fn loadable(&self, weights: ModelWeights, idx: int) -> bool {
        &&& transposable(weights.lookup(indexed("model.layers."@, idx, ".block_sparse_moe.gate.weight"@)))
        &&& forall|k: int| 0 <= k < self.experts@.len() ==> #[trigger] self.experts@[k].loadable(weights, idx, k)
    }

    /// Loads the weights of `weights` that this part names.
    fn load_weights(&mut self, weights: &ModelWeights, layer_idx: usize) -> (r: Result<(), ModelError>)
        ensures
            r is Ok <==> old(self).loadable(*weights, layer_idx as int),
            r is Ok ==> final(self).loaded(*old(self), *weights, layer_idx as int),
            r matches Err(e) ==> is_transpose_error(e),
    {
        load_transposed(&mut self.router, weights, indexed_name("model.layers.", layer_idx, ".block_sparse_moe.gate.weight").as_str())?;
        let mut taken_experts: Vec<JambaExpert> = Vec::new();
        std::mem::swap(&mut taken_experts, &mut self.experts);
        self.experts = Self::load_experts(taken_experts, weights, layer_idx)?;
        Ok(())
    }

    /// Loads each of `items`, in order, from `weights`.
    fn load_experts(items: Vec<JambaExpert>, weights: &ModelWeights, layer_idx: usize) -> (r: Result<Vec<JambaExpert>, ModelError>)
        ensures
            r is Ok <==> forall|k: int| 0 <= k < items@.len() ==> #[trigger] items@[k].loadable(*weights, layer_idx as int, k),
            r matches Ok(v) ==> v@.len() == items@.len() && forall|k: int| 0 <= k < items@.len() ==> #[trigger] v@[k].loaded(items@[k], *weights, layer_idx as int, k),
            r matches Err(e) ==> is_transpose_error(e),
    {
        let mut rest = items;
        let mut done: Vec<JambaExpert> = Vec::new();
        while rest.len() > 0
            invariant
                done@.len() + rest@.len() == items@.len(),
                rest@ == items@.subrange(done@.len() as int, items@.len() as int),
                forall|k: int| 0 <= k < done@.len() ==> #[trigger] done@[k].loaded(items@[k], *weights, layer_idx as int, k),
                forall|k: int| 0 <= k < done@.len() ==> #[trigger] items@[k].loadable(*weights, layer_idx as int, k),
            decreases rest@.len(),
        {
            let n = done.len();
            let mut item = rest.remove(0);
            assert(item == items@[n as int]);
            match item.load_weights(weights, layer_idx, n) {
                Ok(()) => {},
                Err(e) => {
                    assert(!items@[n as int].loadable(*weights, layer_idx as int, n as int));
                    return Err(e);
                },
            }
            done.push(item);
            assert(rest@ =~= items@.subrange(done@.len() as int, items@.len() as int));
        }
        Ok(done)
    }
}

impl JambaExpert {
    /// `self` is `old` after loading from `weights`: each weight whose
    /// checkpoint name `weights` holds takes that tensor's shape, element
    /// type, device and elements (as is, or transposed for a matrix product),
    /// and nothing else changes.
    pub closed spec fn loaded(&self, old: Self, weights: ModelWeights, idx: int, idx2: int) -> bool {
        &&& transposed(self.gate_proj, old.gate_proj, weights.lookup(twice_indexed("model.layers."@, idx, ".block_sparse_moe.experts."@, idx2, ".w1.weight"@)))
        &&& transposed(self.up_proj, old.up_proj, weights.lookup(twice_indexed("model.layers."@, idx, ".block_sparse_moe.experts."@, idx2, ".w3.weight"@)))
        &&& transposed(self.down_proj, old.down_proj, weights.lookup(twice_indexed("model.layers."@, idx, ".block_sparse_moe.experts."@, idx2, ".w2.weight"@)))
    }

    /// Every tensor that loading from `weights` would transpose has at least
    /// two dimensions.
    pub closed spec fn loadable(&self, weights: ModelWeights, idx: int, idx2: int) -> bool {
        &&& transposable(weights.lookup(twice_indexed("model.layers."@, idx, ".block_sparse_moe.experts."@, idx2, ".w1.weight"@)))
        &&& transposable(weights.lookup(twice_indexed("model.layers."@, idx, ".block_sparse_moe.experts."@, idx2, ".w3.weight"@)))
        &&& transposable(weights.lookup(twice_indexed("model.layers."@, idx, ".block_sparse_moe.experts."@, idx2, ".w2.weight"@)))
    }

    /// Loads the weights of `weights` that this part names.
    fn load_weights(&mut self, weights: &ModelWeights, layer_idx: usize, expert_idx: usize) -> (r: Result<(), ModelError>)
        ensures
            r is Ok <==> old(self).loadable(*weights, layer_idx as int, expert_idx as int),
            r is Ok ==> final(self).loaded(*old(self), *weights, layer_idx as int, expert_idx as int),
            r matches Err(e) ==> is_transpose_error(e),
    {
        load_transposed(&mut self.gate_proj, weights, twice_indexed_name("model.layers.", layer_idx, ".block_sparse_moe.experts.", expert_idx, ".w1.weight").as_str())?;
        load_transposed(&mut self.up_proj, weights, twice_indexed_name("model.layers.", layer_idx, ".block_sparse_moe.experts.", expert_idx, ".w3.weight").as_str())?;
        load_transposed(&mut self.down_proj, weights, twice_indexed_name("model.layers.", layer_idx, ".block_sparse_moe.experts.", expert_idx, ".w2.weight").as_str())?;
        Ok(())
    }
}

impl JambaLayer {
    /// `self` is `old` after loading from `weights`: the two norms copied from
    /// their checkpoint names when `weights` holds them, the mixer (Mamba or
    /// attention, as before) and the mixture of experts loaded, and nothing
    /// else changed.
    /// Copying or transposing a tensor takes its shape, element type,
    /// device and elements.
    pub closed spec fn loaded(&self, old: Self, weights: ModelWeights, idx: int) -> bool {
        &&& match (self.layer_type, old.layer_type) {
            (JambaLayerType::Mamba(a), JambaLayerType::Mamba(b)) => a.loaded(b, weights, idx),
            (JambaLayerType::Attention(a), JambaLayerType::Attention(b)) => a.loaded(b, weights, idx),
            _ => false,
        }
        &&& self.moe.loaded(old.moe, weights, idx)
        &&& copied(self.input_layernorm, old.input_layernorm, weights.lookup(indexed("model.layers."@, idx, ".input_layernorm.weight"@)))
        &&& copied(self.post_layernorm, old.post_layernorm, weights.lookup(indexed("model.layers."@, idx, ".post_attention_layernorm.weight"@)))
        &&& self.config == old.config
    }

    /// Every tensor that loading from `weights` would transpose has at least
    /// two dimensions.
    pub closed spec fn loadable(&self, weights: ModelWeights, idx: int) -> bool {
        &&& match self.layer_type {
            JambaLayerType::Mamba(m) => m.loadable(weights, idx),
            JambaLayerType::Attention(a) => a.loadable(weights, idx),
        }
        &&& self.moe.loadable(weights, idx)
    }

    /// Loads the weights of `weights` that this layer names.
    fn load_weights(&mut self, weights: &ModelWeights, layer_idx: usize) -> (r: Result<(), ModelError>)
        ensures
            r is Ok <==> old(self).loadable(*weights, layer_idx as int),
            r is Ok ==> final(self).loaded(*old(self), *weights, layer_idx as int),
            r matches Err(e) ==> is_transpose_error(e),
    {
        load_copy(&mut self.input_layernorm, weights, indexed_name("model.layers.", layer_idx, ".input_layernorm.weight").as_str());
        load_copy(&mut self.post_layernorm, weights, indexed_name("model.layers.", layer_idx, ".post_attention_layernorm.weight").as_str());
        match &mut self.layer_type {
            JambaLayerType::Mamba(m) => m.load_weights(weights, layer_idx)?,
            JambaLayerType::Attention(a) => a.load_weights(weights, layer_idx)?,
        }
        self.moe.load_weights(weights, layer_idx)?;
        Ok(())
    }
}

impl JambaModelV2 {
    /// Builds the model for `config` as `new` does and loads the weights that
    /// `weights` holds under their checkpoint names: the result is the built
    /// model with those weights taken, and an error exactly when a tensor that
    /// must be transposed has fewer than two dimensions.
    pub fn from_weights(config: JambaConfig, weights: ModelWeights) -> (r: Result<Self, ModelError>)
        requires
            jamba_dims_fit(config),
        ensures
            exists|built: Self| #[trigger] built.built_for(config, Device::CPU) && built.spec_config() == config
                && built.spec_device() == Device::CPU && (r is Ok <==> built.loadable(weights))
                && (r matches Ok(m) ==> m.spec_config() == config && m.spec_device() == Device::CPU && m.loaded(built, weights))
                && (r matches Err(e) ==> is_transpose_error(e)),
    {
        let mut model = match Self::new(config) {
            Ok(m) => m,
            Err(e) => {
                return Err(e);
            },
        };
        let ghost built = model;
        match model.load_weights(&weights) {
            Ok(()) => {
                assert(built.built_for(config, Device::CPU));
                Ok(model)
            },
            Err(e) => {
                assert(built.built_for(config, Device::CPU));
                Err(e)
            },
        }
    }
}

impl JambaMambaBlock {
    /// A move to `d1` followed by a move to `d2` is a move to `d2`.
    proof fn lemma_moves_compose(first: Self, second: Self, third: Self, d1: Device, d2: Device)
        requires
            second.moved_from(first, d1),
            third.moved_from(second, d2),
        ensures
            third.moved_from(first, d2),
    {
    }
}

impl JambaAttentionBlock {
    /// A move to `d1` followed by a move to `d2` is a move to `d2`.
    proof fn lemma_moves_compose(first: Self, second: Self, third: Self, d1: Device, d2: Device)
        requires
            second.moved_from(first, d1),
            third.moved_from(second, d2),
        ensures
            third.moved_from(first, d2),
    {
    }
}

impl JambaMoE {
    /// A move to `d1` followed by a move to `d2` is a move to `d2`.
    proof fn lemma_moves_compose(first: Self, second: Self, third: Self, d1: Device, d2: Device)
        requires
            second.moved_from(first, d1),
            third.moved_from(second, d2),
        ensures
            third.moved_from(first, d2),
    {
        assert forall|k: int| 0 <= k < third.experts@.len() implies #[trigger] third.experts@[k].moved_from(first.experts@[k], d2) by {
            JambaExpert::lemma_moves_compose(first.experts@[k], second.experts@[k], third.experts@[k], d1, d2);
        }
    }
}

impl JambaExpert {
    /// A move to `d1` followed by a move to `d2` is a move to `d2`.
    proof fn lemma_moves_compose(first: Self, second: Self, third: Self, d1: Device, d2: Device)
        requires
            second.moved_from(first, d1),
            third.moved_from(second, d2),
        ensures
            third.moved_from(first, d2),
    {
    }
}

impl JambaLayer {
    /// A move to `d1` followed by a move to `d2` is a move to `d2`.
    proof fn lemma_moves_compose(first: Self, second: Self, third: Self, d1: Device, d2: Device)
        requires
            second.moved_from(first, d1),
            third.moved_from(second, d2),
        ensures
            third.moved_from(first, d2),
    {
        JambaMoE::lemma_moves_compose(first.moe, second.moe, third.moe, d1, d2);
        match (first.layer_type, second.layer_type, third.layer_type) {
            (JambaLayerType::Mamba(a), JambaLayerType::Mamba(b), JambaLayerType::Mamba(c)) => {
                JambaMambaBlock::lemma_moves_compose(a, b, c, d1, d2);
            },
            (JambaLayerType::Attention(a), JambaLayerType::Attention(b), JambaLayerType::Attention(c)) => {
                JambaAttentionBlock::lemma_moves_compose(a, b, c, d1, d2);
            },
            _ => {},
        }
    }
}

impl JambaModelV2 {
    /// Moving to `d1` and then to `d2` leaves the model as a single move to
    /// `d2` would: the second move overrides the first.
    pub proof fn lemma_moves_compose(first: Self, second: Self, third: Self, d1: Device, d2: Device)
        requires
            second.moved_from(first, d1),
            third.moved_from(second, d2),
        ensures
            third.moved_from(first, d2),
    {
        assert forall|k: int| 0 <= k < third.layers@.len() implies #[trigger] third.layers@[k].moved_from(first.layers@[k], d2) by {
            JambaLayer::lemma_moves_compose(first.layers@[k], second.layers@[k], third.layers@[k], d1, d2);
        }
    }
}

} // verus!

verus! {

impl JambaConfig {
    /// The default configuration has these sizes: the clauses below.
    pub proof fn lemma_default_sizes(&self)
        requires
            self.gguf_fields_default(),
        ensures
            self.vocab_size == 65536,
            self.hidden_size == 4096,
            self.intermediate_size == 14336,
            self.num_hidden_layers == 32,
            self.num_attention_heads == 32,
            self.num_key_value_heads == 8,
            self.max_position_embeddings == 262144,
            self.rms_norm_eps.bits == 0x358637bd,
            self.rope_theta.bits == 0x461c4000,
    {
    }

    /// The default configuration has these remaining settings: the clauses below.
    pub proof fn lemma_default_settings(&self)
        requires
            self.other_fields_default(),
        ensures
            self.hidden_act@ == "silu"@,
            self.initializer_range.bits == 0x3ca3d70a,
            self.use_cache == true,
            self.pad_token_id == 0,
            self.bos_token_id == 1,
            self.eos_token_id == 2,
            self.tie_word_embeddings == false,
            self.attention_dropout.bits == 0x00000000,
            self.d_state == 16,
            self.d_conv == 4,
            self.expand == 2,
            self.num_experts == 16,
            self.num_experts_per_tok == 2,
            self.attn_layer_period == 8,
            self.attn_layer_offset == 4,
            self.use_mamba_preprocessing == true,
            self.mamba_d_inner == 0,
            self.mamba_dt_rank == 0,
    {
    }

    /// The default configuration is the one with the default sizes and settings: the clauses below.
    pub proof fn lemma_default_parts(&self)
        requires
            self.is_default(),
        ensures
            ({
            self.gguf_fields_default() && self.other_fields_default()
        }),
    {
    }
}

impl JambaMambaBlock {
    /// Built for `config` on `device`, each weight is the zero tensor of the shape the configuration gives, on `device`, and each recorded size is the configured one: the clauses below.
    pub proof fn lemma_built_weights(&self, config: JambaConfig, device: Device)
        requires
            self.built_for(config, device),
        ensures
            ({
            let d_inner = (config.spec_effective_mamba_d_inner() as usize) as usize;
            let dt_rank = (config.spec_effective_mamba_dt_rank() as usize) as usize;
            &&& self.in_proj.is_f32(seq![config.hidden_size, (d_inner * 2) as usize], device)
            &&& self.conv1d_weight.is_f32(seq![d_inner, config.d_conv], device)
            &&& self.conv1d_bias matches Some(t) && t.is_f32(seq![d_inner], device)
            &&& self.x_proj.is_f32(seq![d_inner, (dt_rank + config.d_state * 2) as usize], device)
            &&& self.dt_proj.is_f32(seq![dt_rank, d_inner], device)
            &&& self.dt_proj_bias matches Some(t) && t.is_f32(seq![d_inner], device)
            &&& self.a_log.is_f32(seq![d_inner, config.d_state], device)
            &&& self.d.is_f32(seq![d_inner], device)
            &&& self.out_proj.is_f32(seq![d_inner, config.hidden_size], device)
            &&& self.d_inner == d_inner
            &&& self.d_state == config.d_state
            &&& self.d_conv == config.d_conv
            &&& self.dt_rank == dt_rank
        }),
    {
    }

    /// After a move to `device`, every weight lies on `device` with its shape, element type and elements kept, and nothing else changes: the clauses below.
    pub proof fn lemma_moved_weights(&self, before: Self, device: Device)
        requires
            self.moved_from(before, device),
        ensures
            self.in_proj.is_placed(before.in_proj, device),
            self.conv1d_weight.is_placed(before.conv1d_weight, device),
            (match (self.conv1d_bias, before.conv1d_bias) { (Some(a), Some(b)) => a.is_placed(b, device), (None, None) => true, _ => false }),
            self.x_proj.is_placed(before.x_proj, device),
            self.dt_proj.is_placed(before.dt_proj, device),
            (match (self.dt_proj_bias, before.dt_proj_bias) { (Some(a), Some(b)) => a.is_placed(b, device), (None, None) => true, _ => false }),
            self.a_log.is_placed(before.a_log, device),
            self.d.is_placed(before.d, device),
            self.out_proj.is_placed(before.out_proj, device),
            self.d_inner == before.d_inner,
            self.d_state == before.d_state,
            self.d_conv == before.d_conv,
            self.dt_rank == before.dt_rank,
    {
    }

    /// After loading from `weights`, each weight holds the tensor stored under its checkpoint name, copied or transposed, and keeps its previous value when the name is absent; nothing else changes: the clauses below.
    pub proof fn lemma_loaded_weights(&self, before: Self, weights: ModelWeights, idx: int)
        requires
            self.loaded(before, weights, idx),
        ensures
            transposed(self.in_proj, before.in_proj, weights.lookup(indexed("model.layers."@, idx, ".mamba.in_proj.weight"@))),
            conv_loaded(self.conv1d_weight, before.conv1d_weight, weights.lookup(indexed("model.layers."@, idx, ".mamba.conv1d.weight"@))),
            copied_opt(self.conv1d_bias, before.conv1d_bias, weights.lookup(indexed("model.layers."@, idx, ".mamba.conv1d.bias"@))),
            transposed(self.x_proj, before.x_proj, weights.lookup(indexed("model.layers."@, idx, ".mamba.x_proj.weight"@))),
            copied(self.dt_proj, before.dt_proj, weights.lookup(indexed("model.layers."@, idx, ".mamba.dt_proj.weight"@))),
            copied_opt(self.dt_proj_bias, before.dt_proj_bias, weights.lookup(indexed("model.layers."@, idx, ".mamba.dt_proj.bias"@))),
            copied(self.a_log, before.a_log, weights.lookup(indexed("model.layers."@, idx, ".mamba.A_log"@))),
            copied(self.d, before.d, weights.lookup(indexed("model.layers."@, idx, ".mamba.D"@))),
            transposed(self.out_proj, before.out_proj, weights.lookup(indexed("model.layers."@, idx, ".mamba.out_proj.weight"@))),
            self.d_inner == before.d_inner,
            self.d_state == before.d_state,
            self.d_conv == before.d_conv,
            self.dt_rank == before.dt_rank,
    {
    }

    /// Loading from `weights` succeeds only when every tensor it must transpose, found under these checkpoint names, has at least two dimensions: the clauses below.
    pub proof fn lemma_loadable_names(&self, weights: ModelWeights, idx: int)
        requires
            self.loadable(weights, idx),
        ensures
            transposable(weights.lookup(indexed("model.layers."@, idx, ".mamba.in_proj.weight"@))),
            transposable(weights.lookup(indexed("model.layers."@, idx, ".mamba.x_proj.weight"@))),
            transposable(weights.lookup(indexed("model.layers."@, idx, ".mamba.out_proj.weight"@))),
    {
    }
}

impl JambaAttentionBlock {
    /// Built for `config` on `device`, each weight is the zero tensor of the shape the configuration gives, on `device`, and each recorded size is the configured one: the clauses below.
    pub proof fn lemma_built_weights(&self, config: JambaConfig, device: Device)
        requires
            self.built_for(config, device),
        ensures
            ({
            let head_dim = config.hidden_size / config.num_attention_heads;
            &&& self.q_proj.is_f32(seq![config.hidden_size, (config.num_attention_heads * head_dim) as usize], device)
            &&& self.k_proj.is_f32(seq![config.hidden_size, (config.num_key_value_heads * head_dim) as usize], device)
            &&& self.v_proj.is_f32(seq![config.hidden_size, (config.num_key_value_heads * head_dim) as usize], device)
            &&& self.o_proj.is_f32(seq![(config.num_attention_heads * head_dim) as usize, config.hidden_size], device)
            &&& self.num_heads == config.num_attention_heads
            &&& self.num_key_value_heads == config.num_key_value_heads
            &&& self.head_dim == head_dim
        }),
    {
    }

    /// After a move to `device`, every weight lies on `device` with its shape, element type and elements kept, and nothing else changes: the clauses below.
    pub proof fn lemma_moved_weights(&self, before: Self, device: Device)
        requires
            self.moved_from(before, device),
        ensures
            self.q_proj.is_placed(before.q_proj, device),
            self.k_proj.is_placed(before.k_proj, device),
            self.v_proj.is_placed(before.v_proj, device),
            self.o_proj.is_placed(before.o_proj, device),
            self.num_heads == before.num_heads,
            self.num_key_value_heads == before.num_key_value_heads,
            self.head_dim == before.head_dim,
    {
    }

    /// After loading from `weights`, each weight holds the tensor stored under its checkpoint name, copied or transposed, and keeps its previous value when the name is absent; nothing else changes: the clauses below.
    pub proof fn lemma_loaded_weights(&self, before: Self, weights: ModelWeights, idx: int)
        requires
            self.loaded(before, weights, idx),
        ensures
            transposed(self.q_proj, before.q_proj, weights.lookup(indexed("model.layers."@, idx, ".self_attn.q_proj.weight"@))),
            transposed(self.k_proj, before.k_proj, weights.lookup(indexed("model.layers."@, idx, ".self_attn.k_proj.weight"@))),
            transposed(self.v_proj, before.v_proj, weights.lookup(indexed("model.layers."@, idx, ".self_attn.v_proj.weight"@))),
            transposed(self.o_proj, before.o_proj, weights.lookup(indexed("model.layers."@, idx, ".self_attn.o_proj.weight"@))),
            self.num_heads == before.num_heads,
            self.num_key_value_heads == before.num_key_value_heads,
            self.head_dim == before.head_dim,
    {
    }

    /// Loading from `weights` succeeds only when every tensor it must transpose, found under these checkpoint names, has at least two dimensions: the clauses below.
    pub proof fn lemma_loadable_names(&self, weights: ModelWeights, idx: int)
        requires
            self.loadable(weights, idx),
        ensures
            transposable(weights.lookup(indexed("model.layers."@, idx, ".self_attn.q_proj.weight"@))),
            transposable(weights.lookup(indexed("model.layers."@, idx, ".self_attn.k_proj.weight"@))),
            transposable(weights.lookup(indexed("model.layers."@, idx, ".self_attn.v_proj.weight"@))),
            transposable(weights.lookup(indexed("model.layers."@, idx, ".self_attn.o_proj.weight"@))),
    {
    }
}

impl JambaMoE {
    /// Built for `config` on `device`, each weight is the zero tensor of the shape the configuration gives, on `device`, and each recorded size is the configured one: the clauses below.
    pub proof fn lemma_built_weights(&self, config: JambaConfig, device: Device)
        requires
            self.built_for(config, device),
        ensures
            self.router.is_f32(seq![config.hidden_size, config.num_experts], device),
            self.experts@.len() == config.num_experts,
            forall|k: int| 0 <= k < self.experts@.len() ==> #[trigger] self.experts@[k].built_for(config, device),
            self.num_experts == config.num_experts,
            self.num_experts_per_tok == config.num_experts_per_tok,
    {
    }

    /// After a move to `device`, every weight lies on `device` with its shape, element type and elements kept, and nothing else changes: the clauses below.
    pub proof fn lemma_moved_weights(&self, before: Self, device: Device)
        requires
            self.moved_from(before, device),
        ensures
            self.router.is_placed(before.router, device),
            self.experts@.len() == before.experts@.len(),
            forall|k: int| 0 <= k < self.experts@.len() ==> #[trigger] self.experts@[k].moved_from(before.experts@[k], device),
            self.num_experts == before.num_experts,
            self.num_experts_per_tok == before.num_experts_per_tok,
    {
    }

    /// After loading from `weights`, each weight holds the tensor stored under its checkpoint name, copied or transposed, and keeps its previous value when the name is absent; nothing else changes: the clauses below.
    pub proof fn lemma_loaded_weights(&self, before: Self, weights: ModelWeights, idx: int)
        requires
            self.loaded(before, weights, idx),
        ensures
            transposed(self.router, before.router, weights.lookup(indexed("model.layers."@, idx, ".block_sparse_moe.gate.weight"@))),
            self.experts@.len() == before.experts@.len(),
            forall|k: int| 0 <= k < before.experts@.len() ==> #[trigger] self.experts@[k].loaded(before.experts@[k], weights, idx, k),
            self.num_experts == before.num_experts,
            self.num_experts_per_tok == before.num_experts_per_tok,
    {
    }

    /// Loading from `weights` succeeds only when every tensor it must transpose, found under these checkpoint names, has at least two dimensions: the clauses below.
    pub proof fn lemma_loadable_names(&self, weights: ModelWeights, idx: int)
        requires
            self.loadable(weights, idx),
        ensures
            transposable(weights.lookup(indexed("model.layers."@, idx, ".block_sparse_moe.gate.weight"@))),
            forall|k: int| 0 <= k < self.experts@.len() ==> #[trigger] self.experts@[k].loadable(weights, idx, k),
    {
    }
}

impl JambaExpert {
    /// Built for `config` on `device`, each weight is the zero tensor of the shape the configuration gives, on `device`, and each recorded size is the configured one: the clauses below.
    pub proof fn lemma_built_weights(&self, config: JambaConfig, device: Device)
        requires
            self.built_for(config, device),
        ensures
            self.gate_proj.is_f32(seq![config.hidden_size, config.intermediate_size], device),
            self.up_proj.is_f32(seq![config.hidden_size, config.intermediate_size], device),
            self.down_proj.is_f32(seq![config.intermediate_size, config.hidden_size], device),
    {
    }

    /// After a move to `device`, every weight lies on `device` with its shape, element type and elements kept, and nothing else changes: the clauses below.
    pub proof fn lemma_moved_weights(&self, before: Self, device: Device)
        requires
            self.moved_from(before, device),
        ensures
            self.gate_proj.is_placed(before.gate_proj, device),
            self.up_proj.is_placed(before.up_proj, device),
            self.down_proj.is_placed(before.down_proj, device),
    {
    }

    /// After loading from `weights`, each weight holds the tensor stored under its checkpoint name, copied or transposed, and keeps its previous value when the name is absent; nothing else changes: the clauses below.
    pub proof fn lemma_loaded_weights(&self, before: Self, weights: ModelWeights, idx: int, idx2: int)
        requires
            self.loaded(before, weights, idx, idx2),
        ensures
            transposed(self.gate_proj, before.gate_proj, weights.lookup(twice_indexed("model.layers."@, idx, ".block_sparse_moe.experts."@, idx2, ".w1.weight"@))),
            transposed(self.up_proj, before.up_proj, weights.lookup(twice_indexed("model.layers."@, idx, ".block_sparse_moe.experts."@, idx2, ".w3.weight"@))),
            transposed(self.down_proj, before.down_proj, weights.lookup(twice_indexed("model.layers."@, idx, ".block_sparse_moe.experts."@, idx2, ".w2.weight"@))),
    {
    }

    /// Loading from `weights` succeeds only when every tensor it must transpose, found under these checkpoint names, has at least two dimensions: the clauses below.
    pub proof fn lemma_loadable_names(&self, weights: ModelWeights, idx: int, idx2: int)
        requires
            self.loadable(weights, idx, idx2),
        ensures
            transposable(weights.lookup(twice_indexed("model.layers."@, idx, ".block_sparse_moe.experts."@, idx2, ".w1.weight"@))),
            transposable(weights.lookup(twice_indexed("model.layers."@, idx, ".block_sparse_moe.experts."@, idx2, ".w3.weight"@))),
            transposable(weights.lookup(twice_indexed("model.layers."@, idx, ".block_sparse_moe.experts."@, idx2, ".w2.weight"@))),
    {
    }
}

impl JambaLayer {
    /// Built for `config` on `device`, each weight is the zero tensor of the shape the configuration gives, on `device`, and each recorded size is the configured one: the clauses below.
    pub proof fn lemma_built_weights(&self, config: JambaConfig, layer_idx: int, device: Device)
        requires
            self.built_for(config, layer_idx, device),
        ensures
            (if config.spec_is_attention_layer(layer_idx) {
                self.layer_type matches JambaLayerType::Attention(a) && a.built_for(config, device)
            } else {
                self.layer_type matches JambaLayerType::Mamba(m) && m.built_for(config, device)
            }),
            self.moe.built_for(config, device),
            self.input_layernorm.is_f32(seq![config.hidden_size], device),
            self.post_layernorm.is_f32(seq![config.hidden_size], device),
    {
    }

    /// After a move to `device`, every weight lies on `device` with its shape, element type and elements kept, and nothing else changes: the clauses below.
    pub proof fn lemma_moved_weights(&self, before: Self, device: Device)
        requires
            self.moved_from(before, device),
        ensures
            (match (self.layer_type, before.layer_type) {
                (JambaLayerType::Mamba(a), JambaLayerType::Mamba(b)) => a.moved_from(b, device),
                (JambaLayerType::Attention(a), JambaLayerType::Attention(b)) => a.moved_from(b, device),
                _ => false,
            }),
            self.moe.moved_from(before.moe, device),
            self.input_layernorm.is_placed(before.input_layernorm, device),
            self.post_layernorm.is_placed(before.post_layernorm, device),
            self.config == before.config,
    {
    }

    /// After loading from `weights`, each weight holds the tensor stored under its checkpoint name, copied or transposed, and keeps its previous value when the name is absent; nothing else changes: the clauses below.
    pub proof fn lemma_loaded_weights(&self, before: Self, weights: ModelWeights, idx: int)
        requires
            self.loaded(before, weights, idx),
        ensures
            match (self.layer_type, before.layer_type) {
                (JambaLayerType::Mamba(a), JambaLayerType::Mamba(b)) => a.loaded(b, weights, idx),
                (JambaLayerType::Attention(a), JambaLayerType::Attention(b)) => a.loaded(b, weights, idx),
                _ => false,
            },
            self.moe.loaded(before.moe, weights, idx),
            copied(self.input_layernorm, before.input_layernorm, weights.lookup(indexed("model.layers."@, idx, ".input_layernorm.weight"@))),
            copied(self.post_layernorm, before.post_layernorm, weights.lookup(indexed("model.layers."@, idx, ".post_attention_layernorm.weight"@))),
            self.config == before.config,
    {
    }

    /// Loading from `weights` succeeds only when every tensor it must transpose, found under these checkpoint names, has at least two dimensions: the clauses below.
    pub proof fn lemma_loadable_names(&self, weights: ModelWeights, idx: int)
        requires
            self.loadable(weights, idx),
        ensures
            match self.layer_type {
                JambaLayerType::Mamba(m) => m.loadable(weights, idx),
                JambaLayerType::Attention(a) => a.loadable(weights, idx),
            },
            self.moe.loadable(weights, idx),
    {
    }
}

impl JambaModelV2 {
    /// Built for `config` on `device`, each weight is the zero tensor of the shape the configuration gives, on `device`, and each recorded size is the configured one: the clauses below.
    pub proof fn lemma_built_weights(&self, config: JambaConfig, device: Device)
        requires
            self.built_for(config, device),
        ensures
            self.embed_tokens.is_f32(seq![config.vocab_size, config.hidden_size], device),
            self.layers@.len() == config.num_hidden_layers,
            forall|k: int| 0 <= k < self.layers@.len() ==> #[trigger] self.layers@[k].built_for(config, k, device),
            self.norm.is_f32(seq![config.hidden_size], device),
            (if config.tie_word_embeddings {
                self.lm_head.same(self.embed_tokens)
            } else {
                self.lm_head.is_f32(seq![config.hidden_size, config.vocab_size], device)
            }),
    {
    }

    /// After a move to `device`, every weight lies on `device` with its shape, element type and elements kept, and nothing else changes: the clauses below.
    pub proof fn lemma_moved_weights(&self, before: Self, device: Device)
        requires
            self.moved_from(before, device),
        ensures
            self.config == before.config,
            self.device == device,
            self.embed_tokens.is_placed(before.embed_tokens, device),
            self.layers@.len() == before.layers@.len(),
            forall|k: int| 0 <= k < self.layers@.len() ==> #[trigger] self.layers@[k].moved_from(before.layers@[k], device),
            self.norm.is_placed(before.norm, device),
            self.lm_head.is_placed(before.lm_head, device),
    {
    }

    /// After loading from `weights`, each weight holds the tensor stored under its checkpoint name, copied or transposed, and keeps its previous value when the name is absent; nothing else changes: the clauses below.
    pub proof fn lemma_loaded_weights(&self, before: Self, weights: ModelWeights)
        requires
            self.loaded(before, weights),
        ensures
            self.config == before.config,
            self.device == before.device,
            copied(self.embed_tokens, before.embed_tokens, weights.lookup("model.embed_tokens.weight"@)),
            self.layers@.len() == before.layers@.len(),
            forall|k: int| 0 <= k < before.layers@.len() ==> #[trigger] self.layers@[k].loaded(before.layers@[k], weights, k),
            copied(self.norm, before.norm, weights.lookup("model.norm.weight"@)),
            transposed(self.lm_head, before.lm_head, weights.lookup("lm_head.weight"@)),
    {
    }

    /// Loading from `weights` succeeds only when every tensor it must transpose, found under these checkpoint names, has at least two dimensions: the clauses below.
    pub proof fn lemma_loadable_names(&self, weights: ModelWeights)
        requires
            self.loadable(weights),
        ensures
            transposable(weights.lookup("lm_head.weight"@)),
            forall|k: int| 0 <= k < self.layers@.len() ==> #[trigger] self.layers@[k].loadable(weights, k),
    {
    }
}

/// `jamba_param_count` is, for every configuration, the formula below.
pub proof fn lemma_jamba_param_count_formula(c: JambaConfig)
    ensures
        jamba_param_count(c) == (c.vocab_size * c.hidden_size + c.num_hidden_layers * (4 * c.hidden_size * c.hidden_size + c.num_experts * 3 * c.hidden_size * c.intermediate_size)),
{
}

/// `jamba_param_bytes` is, for every configuration, the formula below.
pub proof fn lemma_jamba_param_bytes_formula(c: JambaConfig)
    ensures
        jamba_param_bytes(c) == (jamba_param_count(c) * 4),
{
}

} // verus!

verus! {

impl JambaConfig {
    /// `spec_is_attention_layer` is, for every value, the expression below.
    pub proof fn lemma_spec_is_attention_layer_value(&self, layer_idx: int)
        ensures
            self.spec_is_attention_layer(layer_idx) == (layer_idx % (self.attn_layer_period as int) == self.attn_layer_offset),
    {
    }

    /// `spec_effective_mamba_d_inner` is, for every value, the expression below.
    pub proof fn lemma_spec_effective_mamba_d_inner_value(&self)
        ensures
            self.spec_effective_mamba_d_inner() == (if self.mamba_d_inner > 0 { self.mamba_d_inner as int } else { self.hidden_size * self.expand }),
    {
    }

    /// `spec_effective_mamba_dt_rank` is, for every value, the expression below.
    pub proof fn lemma_spec_effective_mamba_dt_rank_value(&self)
        ensures
            self.spec_effective_mamba_dt_rank() == (if self.mamba_dt_rank > 0 { self.mamba_dt_rank as int } else { auto_dt_rank(self.hidden_size as int) }),
    {
    }
}

impl JambaLayerType {
    /// `is_attention` is, for every value, the expression below.
    pub proof fn lemma_is_attention_value(&self)
        ensures
            self.is_attention() == (self is Attention),
    {
    }
}

impl JambaLayer {
    /// `uses_attention` is, for every value, the expression below.
    pub proof fn lemma_uses_attention_value(&self)
        ensures
            self.uses_attention() == (self.layer_type.is_attention()),
    {
    }
}

impl JambaModelV2 {
    /// `num_layers_held` is, for every value, the expression below.
    pub proof fn lemma_num_layers_held_value(&self)
        ensures
            self.num_layers_held() == (self.layers@.len() as int),
    {
    }

    /// `layer_uses_attention` is, for every value, the expression below.
    pub proof fn lemma_layer_uses_attention_value(&self, k: int)
        ensures
            self.layer_uses_attention(k) == (self.layers@[k].uses_attention()),
    {
    }
}

} // verus!
