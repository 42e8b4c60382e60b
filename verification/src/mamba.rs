//! The Mamba (selective state-space model) model.
use vstd::prelude::*;
use crate::common::F32Bits;
use crate::gguf::GGUFModelConfig;
use crate::common::{MemoryRequirements, ModelError};
use crate::tensor::{zeros1, zeros2, zeros3, Device, Tensor};
use crate::weights::{copied, copied_opt, transposed, transposable, is_transpose_error, indexed, first_found, conv_loaded, indexed_name, load_copy, load_copy_opt, load_transposed, load_conv, get_first3, take_copy, ModelWeights};

verus! {

/// Hyperparameters of the Mamba (selective state-space model) model.
#[derive(Clone, Copy, Debug)]
pub struct MambaConfig {
    pub vocab_size: usize,
    pub hidden_size: usize,
    pub num_hidden_layers: usize,
    pub d_state: usize,
    pub d_conv: usize,
    pub expand: usize,
    pub dt_rank: usize,
    pub d_inner: usize,
    pub dt_scale: F32Bits,
    pub dt_min: F32Bits,
    pub dt_max: F32Bits,
    pub dt_init_floor: F32Bits,
    pub conv_bias: bool,
    pub bias: bool,
    pub layer_norm_epsilon: F32Bits,
    pub rms_norm: bool,
    pub initializer_range: F32Bits,
    pub tie_embeddings: bool,
    pub pad_token_id: i64,
    pub bos_token_id: i64,
    pub eos_token_id: i64,
}

/// The smallest unit `u`, doubling from `p`, at which `h / u` has at most
/// 24 significant bits: the spacing of the single-precision floats near `h`.
pub open spec fn rounding_unit(h: nat, p: nat) -> nat
    decreases h - p,
{
    if p == 0 || h / p < 0x100_0000 {
        p
    } else {
        proof {
            lemma_unit_below(h, p);
        }
        rounding_unit(h, 2 * p)
    }
}

/// A unit that still leaves more than 24 bits is at most half the width.
pub proof fn lemma_unit_below(h: nat, p: nat)
    requires
        p >= 1,
        h / p >= 0x100_0000,
    ensures
        2 * p <= h,
{
    vstd::arithmetic::div_mod::lemma_fundamental_div_mod(h as int, p as int);
    assert(p * (h / p) >= p * 0x100_0000) by (nonlinear_arith)
        requires
            p >= 1,
            h / p >= 0x100_0000,
    ;
}

/// The value of a width once converted to a single-precision float: the
/// width rounded to 24 significant bits, halfway cases to an even
/// significand.
pub open spec fn f32_of(h: nat) -> nat {
    let u = rounding_unit(h, 1);
    let q = h / u;
    let r = h % u;
    let up = 2 * r > u || (2 * r == u && q % 2 == 1);
    (if up { q + 1 } else { q }) * u
}

/// The automatic rank of the time-step projection for a model of width
/// `hidden_size`: the width as a single-precision float divided by 16,
/// rounded up, and at least 1.
pub open spec fn auto_dt_rank(hidden_size: int) -> int {
    let f = f32_of(hidden_size as nat) as int;
    let r = if f % 16 == 0 { f / 16 } else { f / 16 + 1 };
    if r < 1 { 1 } else { r }
}

/// Every width of at most 24 bits is a single-precision float.
pub proof fn lemma_small_widths_are_exact(h: nat)
    requires
        h < 0x100_0000,
    ensures
        f32_of(h) == h,
{
    assert(rounding_unit(h, 1) == 1);
}

/// For widths that single precision holds exactly (below 2^24), the automatic
/// time-step rank is the ceiling of `hidden_size / 16`: the smallest rank `r`
/// with `16 * r >= hidden_size`, and never below 1.
pub proof fn lemma_auto_dt_rank_is_ceiling(hidden_size: nat)
    requires
        hidden_size < 0x100_0000,
    ensures
        auto_dt_rank(hidden_size as int) >= 1,
        16 * auto_dt_rank(hidden_size as int) >= hidden_size,
        hidden_size > 0 ==> 16 * (auto_dt_rank(hidden_size as int) - 1) < hidden_size,
{
    lemma_small_widths_are_exact(hidden_size);
}

/// Computes `auto_dt_rank` for a model width.
pub fn compute_auto_dt_rank(hidden_size: usize) -> (r: usize)
    ensures
        r == auto_dt_rank(hidden_size as int),
{
    let h = hidden_size;
    let mut u: usize = 1;
    while h / u >= 0x100_0000
        invariant
            u >= 1,
            u < 16 ==> (u == 1 || u == 2 || u == 4 || u == 8),
            u >= 16 ==> u % 16 == 0,
            rounding_unit(h as nat, u as nat) == rounding_unit(h as nat, 1),
        decreases h - u,
    {
        proof {
            lemma_unit_below(h as nat, u as nat);
        }
        u = u * 2;
    }
    assert(rounding_unit(h as nat, u as nat) == u);
    let q = h / u;
    let r = h % u;
    proof {
        vstd::arithmetic::div_mod::lemma_fundamental_div_mod(h as int, u as int);
        vstd::arithmetic::mul::lemma_mul_is_commutative(u as int, q as int);
        assert(q * u <= h);
    }
    let up = r > u - r || (r == u - r && q % 2 == 1);
    let rq = if up { q + 1 } else { q };
    let ghost f = f32_of(h as nat);
    assert(f == rq * u);
    let c = if u >= 16 {
        assert(rq * u == 16 * (rq * (u / 16))) by (nonlinear_arith)
            requires
                u % 16 == 0,
        ;
        assert(rq * (u / 16) <= rq * u) by (nonlinear_arith)
            requires
                u >= 16,
        ;
        assert(rq <= 0x100_0000);
        assert(rq * u <= usize::MAX + u) by (nonlinear_arith)
            requires
                rq <= q + 1,
                q * u <= h,
                h <= usize::MAX,
        ;
        rq * (u / 16)
    } else {
        assert(rq * u <= 0x100_0000 * 8) by (nonlinear_arith)
            requires
                rq <= 0x100_0000,
                u <= 8,
        ;
        let scaled = rq * u;
        if scaled % 16 == 0 { scaled / 16 } else { scaled / 16 + 1 }
    };
    if c < 1 { 1 } else { c }
}

impl MambaConfig {
    /// The fields that a GGUF file supplies, or that follow from them, hold
    /// their default values.
    pub open spec fn gguf_fields_default(&self) -> bool {
        &&& self.vocab_size == 50280
        &&& self.hidden_size == 768
        &&& self.num_hidden_layers == 24
        &&& self.d_state == 16
        &&& self.d_conv == 4
        &&& self.expand == 2
        &&& self.dt_rank == 0
        &&& self.d_inner == 0
        &&& self.layer_norm_epsilon.bits == 0x3727c5ac
    }

    /// The remaining fields hold their default values.
    pub open spec fn other_fields_default(&self) -> bool {
        &&& self.dt_scale.bits == 0x3f800000
        &&& self.dt_min.bits == 0x3a83126f
        &&& self.dt_max.bits == 0x3dcccccd
        &&& self.dt_init_floor.bits == 0x38d1b717
        &&& self.conv_bias == true
        &&& self.bias == false
        &&& self.rms_norm == true
        &&& self.initializer_range.bits == 0x3ca3d70a
        &&& self.tie_embeddings == true
        &&& self.pad_token_id == 0
        &&& self.bos_token_id == 0
        &&& self.eos_token_id == 0
    }

    /// Every field holds its default value.
    pub open spec fn is_default(&self) -> bool {
        self.gguf_fields_default() && self.other_fields_default()
    }

    /// The configuration described by a GGUF file: its vocabulary, width,
    /// depth and epsilon; an expansion of 2 with the inner width and the
    /// time-step rank fixed from the width; a state size of 16 and a
    /// convolution of 4; the defaults for the rest.
    pub fn from_gguf_config(gguf: &GGUFModelConfig) -> (r: Self)
        requires
            gguf.hidden_size * 2 <= usize::MAX,
        ensures
            r.vocab_size == gguf.vocab_size,
            r.hidden_size == gguf.hidden_size,
            r.num_hidden_layers == gguf.num_hidden_layers,
            r.d_state == 16,
            r.d_conv == 4,
            r.expand == 2,
            r.d_inner == gguf.hidden_size * 2,
            r.dt_rank == auto_dt_rank(gguf.hidden_size as int),
            r.layer_norm_epsilon == gguf.rms_norm_eps,
            r.other_fields_default(),
    {
        let hidden_size = gguf.hidden_size;
        let expand: usize = 2;
        let d_inner = hidden_size * expand;
        let dt_rank = compute_auto_dt_rank(hidden_size);
        let d = Self::default();
        Self {
            vocab_size: gguf.vocab_size,
            hidden_size,
            num_hidden_layers: gguf.num_hidden_layers,
            d_state: 16,
            d_conv: 4,
            expand,
            dt_rank,
            d_inner,
            layer_norm_epsilon: gguf.rms_norm_eps,
            ..d
        }
    }

    /// The inner width of the mixer: `d_inner` when set, else
    /// `hidden_size * expand`.
    pub open spec fn spec_effective_d_inner(&self) -> int {
        if self.d_inner > 0 { self.d_inner as int } else { self.hidden_size * self.expand }
    }

    /// The rank of the time-step projection: `dt_rank` when set, else
    /// ceil(hidden_size / 16), at least 1.
    pub open spec fn spec_effective_dt_rank(&self) -> int {
        if self.dt_rank > 0 { self.dt_rank as int } else { auto_dt_rank(self.hidden_size as int) }
    }

    /// The inner width of the mixer.
    pub fn effective_d_inner(&self) -> (r: usize)
        requires
            self.spec_effective_d_inner() <= usize::MAX,
        ensures
            r == self.spec_effective_d_inner(),
    {
        if self.d_inner > 0 {
            self.d_inner
        } else {
            self.hidden_size * self.expand
        }
    }

    /// The rank of the time-step projection.
    pub fn effective_dt_rank(&self) -> (r: usize)
        ensures
            r == self.spec_effective_dt_rank(),
    {
        if self.dt_rank > 0 {
            self.dt_rank
        } else {
            compute_auto_dt_rank(self.hidden_size)
        }
    }

    /// Size of the token vocabulary.
    pub fn vocab_size(&self) -> (r: usize)
        ensures
            r == self.vocab_size,
    {
        self.vocab_size
    }

    /// Width of the hidden states.
    pub fn hidden_size(&self) -> (r: usize)
        ensures
            r == self.hidden_size,
    {
        self.hidden_size
    }

    /// Number of transformer (or state-space) layers.
    pub fn num_layers(&self) -> (r: usize)
        ensures
            r == self.num_hidden_layers,
    {
        self.num_hidden_layers
    }
}

impl Default for MambaConfig {
    fn default() -> (r: Self)
        ensures
            r.is_default(),
    {
        Self {
            vocab_size: 50280,
            hidden_size: 768,
            num_hidden_layers: 24,
            d_state: 16,
            d_conv: 4,
            expand: 2,
            dt_rank: 0,
            d_inner: 0,
            dt_scale: F32Bits::from_bits(0x3f800000),
            dt_min: F32Bits::from_bits(0x3a83126f),
            dt_max: F32Bits::from_bits(0x3dcccccd),
            dt_init_floor: F32Bits::from_bits(0x38d1b717),
            conv_bias: true,
            bias: false,
            layer_norm_epsilon: F32Bits::from_bits(0x3727c5ac),
            rms_norm: true,
            initializer_range: F32Bits::from_bits(0x3ca3d70a),
            tie_embeddings: true,
            pad_token_id: 0,
            bos_token_id: 0,
            eos_token_id: 0,
        }
    }
}

/// The Mamba language model: the backbone and the output head.
pub struct MambaModelV2 {
    pub config: MambaConfig,
    pub device: Device,
    pub backbone: MambaBackbone,
    pub lm_head: Tensor,
}

/// Token embeddings, the stack of Mamba blocks and the final norm.
pub struct MambaBackbone {
    pub embeddings: Tensor,
    pub layers: Vec<MambaBlock>,
    pub norm_f: Tensor,
    pub config: MambaConfig,
}

/// One block: a pre-norm and the mixer, with a residual connection.
pub struct MambaBlock {
    pub mixer: MambaMixer,
    pub norm: Tensor,
    pub config: MambaConfig,
}

/// The selective state-space mixer.
pub struct MambaMixer {
    /// Projection to the two branches, `[hidden_size, 2 * d_inner]`.
    pub in_proj: Tensor,
    /// Depthwise causal convolution, `[d_inner, d_conv]`.
    pub conv1d_weight: Tensor,
    pub conv1d_bias: Option<Tensor>,
    /// Projection to the time step and the input and output matrices,
    /// `[d_inner, dt_rank + 2 * d_state]`.
    pub x_proj: Tensor,
    /// Projection of the time step back to the inner width, `[dt_rank, d_inner]`.
    pub dt_proj: Tensor,
    pub dt_proj_bias: Option<Tensor>,
    /// Logarithm of the state transition, `[d_inner, d_state]`.
    pub a_log: Tensor,
    /// Skip connection, `[d_inner]`.
    pub d: Tensor,
    /// Projection back to the model width, `[d_inner, hidden_size]`.
    pub out_proj: Tensor,
    pub d_inner: usize,
    pub d_state: usize,
    pub d_conv: usize,
    pub dt_rank: usize,
}

/// The recurrent state of one layer during generation.
pub struct MambaState {
    /// Hidden state, `[batch, d_inner, d_state]`.
    pub h: Tensor,
    /// The last `d_conv - 1` inputs of the convolution, `[batch, d_inner, d_conv - 1]`.
    pub conv_cache: Tensor,
}

/// The inner width and the projection widths of a configuration fit in `usize`.
pub open spec fn mamba_dims_fit(c: MambaConfig) -> bool {
    &&& c.spec_effective_d_inner() * 2 <= usize::MAX
    &&& c.spec_effective_dt_rank() + c.d_state * 2 <= usize::MAX
}

/// A bias of length `n` on `device` when `present`, else none.
pub open spec fn optional_bias(b: Option<Tensor>, present: bool, n: usize, device: Device) -> bool {
    if present {
        b matches Some(t) && t.is_f32(seq![n], device)
    } else {
        b is None
    }
}

/// `b` is `old` with its tensor, if any, placed on `device`.
pub open spec fn optional_placed(b: Option<Tensor>, old: Option<Tensor>, device: Device) -> bool {
    match (b, old) {
        (Some(t), Some(u)) => t.is_placed(u, device),
        (None, None) => true,
        _ => false,
    }
}

fn optional_zeros1(present: bool, n: usize, device: &Device) -> (r: Option<Tensor>)
    ensures
        optional_bias(r, present, n, *device),
{
    if present {
        Some(zeros1(n, device))
    } else {
        None
    }
}

fn optional_to_device(b: &Option<Tensor>, device: &Device) -> (r: Option<Tensor>)
    ensures
        optional_placed(r, *b, *device),
{
    match b {
        Some(t) => Some(t.to_device(device)),
        None => None,
    }
}

impl MambaMixer {
    /// The mixer as built for `config` on `device`: with `di` the inner width
    /// and `dr` the time-step rank, the projections `[h, 2 di]`,
    /// `[di, dr + 2 d_state]`, `[dr, di]` and `[di, h]`, the convolution
    /// `[di, d_conv]` with a bias when `conv_bias`, the time-step bias when
    /// `bias`, `A_log` `[di, d_state]` and `D` `[di]`.
    pub closed spec fn built_for(&self, config: MambaConfig, device: Device) -> bool {
        let di = config.spec_effective_d_inner() as usize;
        let dr = config.spec_effective_dt_rank() as usize;
        let h = config.hidden_size;
        &&& self.in_proj.is_f32(seq![h, (di * 2) as usize], device)
        &&& self.conv1d_weight.is_f32(seq![di, config.d_conv], device)
        &&& optional_bias(self.conv1d_bias, config.conv_bias, di, device)
        &&& self.x_proj.is_f32(seq![di, (dr + config.d_state * 2) as usize], device)
        &&& self.dt_proj.is_f32(seq![dr, di], device)
        &&& optional_bias(self.dt_proj_bias, config.bias, di, device)
        &&& self.a_log.is_f32(seq![di, config.d_state], device)
        &&& self.d.is_f32(seq![di], device)
        &&& self.out_proj.is_f32(seq![di, h], device)
        &&& self.d_inner == di
        &&& self.d_state == config.d_state
        &&& self.d_conv == config.d_conv
        &&& self.dt_rank == dr
    }

    /// `self` is `old` with its weights placed on `device`.
    pub closed spec fn moved_from(&self, old: Self, device: Device) -> bool {
        &&& self.in_proj.is_placed(old.in_proj, device)
        &&& self.conv1d_weight.is_placed(old.conv1d_weight, device)
        &&& optional_placed(self.conv1d_bias, old.conv1d_bias, device)
        &&& self.x_proj.is_placed(old.x_proj, device)
        &&& self.dt_proj.is_placed(old.dt_proj, device)
        &&& optional_placed(self.dt_proj_bias, old.dt_proj_bias, device)
        &&& self.a_log.is_placed(old.a_log, device)
        &&& self.d.is_placed(old.d, device)
        &&& self.out_proj.is_placed(old.out_proj, device)
        &&& self.d_inner == old.d_inner
        &&& self.d_state == old.d_state
        &&& self.d_conv == old.d_conv
        &&& self.dt_rank == old.dt_rank
    }

    fn new(config: &MambaConfig, device: &Device) -> (r: Self)
        requires
            mamba_dims_fit(*config),
        ensures
            r.built_for(*config, *device),
    {
        let d_inner = config.effective_d_inner();
        let dt_rank = config.effective_dt_rank();
        let d_state = config.d_state;
        let d_conv = config.d_conv;
        MambaMixer {
            in_proj: zeros2(config.hidden_size, d_inner * 2, device),
            conv1d_weight: zeros2(d_inner, d_conv, device),
            conv1d_bias: optional_zeros1(config.conv_bias, d_inner, device),
            x_proj: zeros2(d_inner, dt_rank + d_state * 2, device),
            dt_proj: zeros2(dt_rank, d_inner, device),
            dt_proj_bias: optional_zeros1(config.bias, d_inner, device),
            a_log: zeros2(d_inner, d_state, device),
            d: zeros1(d_inner, device),
            out_proj: zeros2(d_inner, config.hidden_size, device),
            d_inner,
            d_state,
            d_conv,
            dt_rank,
        }
    }

    /// Places the weights on `device`.
    fn to_device(&mut self, device: &Device)
        ensures
            final(self).moved_from(*old(self), *device),
    {
        self.in_proj = self.in_proj.to_device(device);
        self.conv1d_weight = self.conv1d_weight.to_device(device);
        self.conv1d_bias = optional_to_device(&self.conv1d_bias, device);
        self.x_proj = self.x_proj.to_device(device);
        self.dt_proj = self.dt_proj.to_device(device);
        self.dt_proj_bias = optional_to_device(&self.dt_proj_bias, device);
        self.a_log = self.a_log.to_device(device);
        self.d = self.d.to_device(device);
        self.out_proj = self.out_proj.to_device(device);
    }
}

impl MambaBlock {
    /// The block as built for `config` on `device`: the mixer and the
    /// pre-norm `[hidden_size]`.
    pub closed spec fn built_for(&self, config: MambaConfig, device: Device) -> bool {
        &&& self.mixer.built_for(config, device)
        &&& self.norm.is_f32(seq![config.hidden_size], device)
        &&& self.config == config
    }

    /// `self` is `old` with its weights placed on `device`.
    pub closed spec fn moved_from(&self, old: Self, device: Device) -> bool {
        &&& self.mixer.moved_from(old.mixer, device)
        &&& self.norm.is_placed(old.norm, device)
        &&& self.config == old.config
    }

    fn new(config: &MambaConfig, device: &Device) -> (r: Self)
        requires
            mamba_dims_fit(*config),
        ensures
            r.built_for(*config, *device),
    {
        let norm = zeros1(config.hidden_size, device);
        let mixer = MambaMixer::new(config, device);
        MambaBlock { mixer, norm, config: *config }
    }

    /// Places the weights on `device`.
    fn to_device(&mut self, device: &Device)
        ensures
            final(self).moved_from(*old(self), *device),
    {
        self.norm = self.norm.to_device(device);
        self.mixer.to_device(device);
    }

    /// The blocks, in order, each with its weights placed on `device`.
    fn all_to_device(layers: Vec<MambaBlock>, device: &Device) -> (r: Vec<MambaBlock>)
        ensures
            r@.len() == layers@.len(),
            forall|k: int| 0 <= k < r@.len() ==> #[trigger] r@[k].moved_from(layers@[k], *device),
    {
        let mut rest = layers;
        let mut moved: Vec<MambaBlock> = Vec::new();
        while rest.len() > 0
            invariant
                moved@.len() + rest@.len() == layers@.len(),
                rest@ == layers@.subrange(moved@.len() as int, layers@.len() as int),
                forall|k: int| 0 <= k < moved@.len() ==> #[trigger] moved@[k].moved_from(layers@[k], *device),
            decreases rest@.len(),
        {
            let mut layer = rest.remove(0);
            assert(layer == layers@[moved@.len() as int]);
            layer.to_device(device);
            moved.push(layer);
            assert(rest@ =~= layers@.subrange(moved@.len() as int, layers@.len() as int));
        }
        moved
    }
}

impl MambaBackbone {
    /// The backbone as built for `config` on `device`: embeddings
    /// `[vocab_size, hidden_size]`, `num_hidden_layers` blocks and the final
    /// norm `[hidden_size]`.
    pub closed spec fn built_for(&self, config: MambaConfig, device: Device) -> bool {
        &&& self.embeddings.is_f32(seq![config.vocab_size, config.hidden_size], device)
        &&& self.norm_f.is_f32(seq![config.hidden_size], device)
        &&& self.layers@.len() == config.num_hidden_layers
        &&& forall|k: int| 0 <= k < self.layers@.len() ==> #[trigger] self.layers@[k].built_for(config, device)
        &&& self.config == config
    }

    /// `self` is `old` with every weight placed on `device`.
    pub closed spec fn moved_from(&self, old: Self, device: Device) -> bool {
        &&& self.embeddings.is_placed(old.embeddings, device)
        &&& self.norm_f.is_placed(old.norm_f, device)
        &&& self.layers@.len() == old.layers@.len()
        &&& forall|k: int| 0 <= k < self.layers@.len() ==> #[trigger] self.layers@[k].moved_from(old.layers@[k], device)
        &&& self.config == old.config
    }

    fn new(config: &MambaConfig, device: &Device) -> (r: Self)
        requires
            mamba_dims_fit(*config),
        ensures
            r.built_for(*config, *device),
    {
        let embeddings = zeros2(config.vocab_size, config.hidden_size, device);
        let norm_f = zeros1(config.hidden_size, device);
        let mut layers: Vec<MambaBlock> = Vec::new();
        let mut n: usize = 0;
        while n < config.num_hidden_layers
            invariant
                n <= config.num_hidden_layers,
                mamba_dims_fit(*config),
                layers@.len() == n,
                forall|k: int| 0 <= k < n ==> #[trigger] layers@[k].built_for(*config, *device),
            decreases config.num_hidden_layers - n,
        {
            layers.push(MambaBlock::new(config, device));
            n += 1;
        }
        MambaBackbone { embeddings, layers, norm_f, config: *config }
    }

    /// Places every weight on `device`.
    fn to_device(&mut self, device: &Device)
        ensures
            final(self).moved_from(*old(self), *device),
    {
        self.embeddings = self.embeddings.to_device(device);
        self.norm_f = self.norm_f.to_device(device);
        let mut taken: Vec<MambaBlock> = Vec::new();
        std::mem::swap(&mut taken, &mut self.layers);
        self.layers = MambaBlock::all_to_device(taken, device);
    }
}

impl MambaState {
    /// The state a layer starts generation from for `config` on `device`:
    /// zeros of shape `[1, d_inner, d_state]` and a convolution cache of shape
    /// `[1, d_inner, d_conv - 1]`.
    pub closed spec fn is_initial(&self, config: MambaConfig, device: Device) -> bool {
        let di = config.spec_effective_d_inner() as usize;
        &&& self.h.is_f32(seq![1usize, di, config.d_state], device)
        &&& self.conv_cache.is_f32(seq![1usize, di, (config.d_conv - 1) as usize], device)
    }
}

impl MambaModelV2 {
    /// The configuration the model was built with.
    pub closed spec fn spec_config(&self) -> MambaConfig {
        self.config
    }

    /// The device the model reports.
    pub closed spec fn spec_device(&self) -> Device {
        self.device
    }

    /// The model as built for `config` on `device`: the backbone and an output
    /// head `[vocab_size, hidden_size]` when the embeddings are tied (the shape
    /// of the embeddings it stands for), `[hidden_size, vocab_size]` otherwise.
    pub closed spec fn built_for(&self, config: MambaConfig, device: Device) -> bool {
        &&& self.backbone.built_for(config, device)
        &&& if config.tie_embeddings {
            self.lm_head.is_f32(seq![config.vocab_size, config.hidden_size], device)
        } else {
            self.lm_head.is_f32(seq![config.hidden_size, config.vocab_size], device)
        }
    }

    /// `self` is `old` after a move to `device`: the device is recorded, every
    /// weight of the backbone is placed there, and the head is placed there
    /// unless the embeddings are tied, in which case it is left where it was.
    pub closed spec fn moved_from(&self, old: Self, device: Device) -> bool {
        &&& self.config == old.config
        &&& self.device == device
        &&& self.backbone.moved_from(old.backbone, device)
        &&& if old.config.tie_embeddings {
            self.lm_head == old.lm_head
        } else {
            self.lm_head.is_placed(old.lm_head, device)
        }
    }

    /// Builds the model for `config` on the CPU, with zero weights.
    pub fn new(config: MambaConfig) -> (r: Result<Self, ModelError>)
        requires
            mamba_dims_fit(config),
        ensures
            r matches Ok(m) && m.spec_config() == config && m.spec_device() == Device::CPU
                && m.built_for(config, Device::CPU),
    {
        let device = Device::CPU;
        let backbone = MambaBackbone::new(&config, &device);
        let lm_head = if config.tie_embeddings {
            zeros2(config.vocab_size, config.hidden_size, &device)
        } else {
            zeros2(config.hidden_size, config.vocab_size, &device)
        };
        Ok(MambaModelV2 { config, device, backbone, lm_head })
    }

    /// The configuration the model was built with.
    pub fn config(&self) -> (r: &MambaConfig)
        ensures
            *r == self.spec_config(),
    {
        &self.config
    }

    /// The per-layer states that generation starts from: one for each layer,
    /// zero, on the model's device.
    pub fn initial_states(&self) -> (r: Vec<MambaState>)
        requires
            self.spec_config().spec_effective_d_inner() <= usize::MAX,
            self.spec_config().d_conv >= 1,
        ensures
            r@.len() == self.spec_config().num_hidden_layers,
            forall|k: int| 0 <= k < r@.len()
                ==> #[trigger] r@[k].is_initial(self.spec_config(), self.spec_device()),
    {
        let d_inner = self.config.effective_d_inner();
        let d_state = self.config.d_state;
        let d_conv = self.config.d_conv;
        let mut states: Vec<MambaState> = Vec::new();
        let mut n: usize = 0;
        while n < self.config.num_hidden_layers
            invariant
                n <= self.config.num_hidden_layers,
                d_inner == self.config.spec_effective_d_inner(),
                d_state == self.config.d_state,
                d_conv == self.config.d_conv,
                d_conv >= 1,
                states@.len() == n,
                forall|k: int| 0 <= k < n ==> #[trigger] states@[k].is_initial(self.config, self.device),
            decreases self.config.num_hidden_layers - n,
        {
            states.push(MambaState {
                h: zeros3(1, d_inner, d_state, &self.device),
                conv_cache: zeros3(1, d_inner, d_conv - 1, &self.device),
            });
            n += 1;
        }
        states
    }

    /// Moves the model to `device`: records the device, places the backbone
    /// there, and the head too unless the embeddings are tied.
    pub fn to_device(&mut self, device: &Device) -> (r: Result<(), ModelError>)
        ensures
            r is Ok,
            final(self).moved_from(*old(self), *device),
    {
        self.device = *device;
        self.backbone.to_device(device);
        if !self.config.tie_embeddings {
            self.lm_head = self.lm_head.to_device(device);
        }
        Ok(())
    }
}

/// Parameters of one layer counted by the memory estimate, with `di` the
/// inner width and `dr` the time-step rank: the input projection, the
/// convolution, the state projections, `A_log`, `D` and the output projection.
pub open spec fn mamba_layer_params(c: MambaConfig) -> int {
    let di = c.spec_effective_d_inner();
    let dr = c.spec_effective_dt_rank();
    c.hidden_size * di * 2 + di * c.d_conv + di * (dr + c.d_state * 2) + dr * di + di * c.d_state + di
        + di * c.hidden_size
}

/// Parameter bytes: the embeddings and every layer, four bytes each.
pub open spec fn mamba_param_bytes(c: MambaConfig) -> int {
    (c.vocab_size * c.hidden_size + c.num_hidden_layers * mamba_layer_params(c)) * 4
}

/// Bytes of the recurrent state that stands in for a key-value cache: per
/// layer the hidden state `[d_inner, d_state]` and the convolution cache
/// `[d_inner, d_conv - 1]`.
pub open spec fn mamba_state_bytes(c: MambaConfig) -> int {
    let di = c.spec_effective_d_inner();
    c.num_hidden_layers * (di * c.d_state + di * (c.d_conv - 1)) * 4
}

/// No step of the memory estimate for `MambaConfig` leaves the range of
/// `usize`, and the convolution is at least one wide.
pub open spec fn mamba_memory_fits(c: MambaConfig) -> bool {
    let di = c.spec_effective_d_inner();
    let dr = c.spec_effective_dt_rank();
    &&& c.d_conv >= 1
    &&& di <= usize::MAX
    &&& c.hidden_size * di * 2 <= usize::MAX
    &&& di * c.d_conv <= usize::MAX
    &&& dr + c.d_state * 2 <= usize::MAX
    &&& di * (dr + c.d_state * 2) <= usize::MAX
    &&& dr * di <= usize::MAX
    &&& di * c.d_state <= usize::MAX
    &&& di * c.hidden_size <= usize::MAX
    &&& mamba_layer_params(c) <= usize::MAX
    &&& c.vocab_size * c.hidden_size <= usize::MAX
    &&& c.num_hidden_layers * mamba_layer_params(c) <= usize::MAX
    &&& mamba_param_bytes(c) + mamba_param_bytes(c) / 2 <= usize::MAX
    &&& di * (c.d_conv - 1) <= usize::MAX
    &&& di * c.d_state + di * (c.d_conv - 1) <= usize::MAX
    &&& mamba_state_bytes(c) <= usize::MAX
}

impl MambaModelV2 {
    /// Estimated memory: the parameter bytes on the GPU, a quarter of them on
    /// the CPU, the recurrent state in place of a key-value cache, and one and
    /// a half times the parameters at peak.
    pub fn memory_requirements(&self) -> (r: MemoryRequirements)
        requires
            mamba_memory_fits(self.spec_config()),
        ensures
            r.gpu_memory == mamba_param_bytes(self.spec_config()),
            r.cpu_memory == mamba_param_bytes(self.spec_config()) / 4,
            r.kv_cache_memory == mamba_state_bytes(self.spec_config()),
            r.peak_memory == mamba_param_bytes(self.spec_config()) + mamba_param_bytes(self.spec_config()) / 2,
    {
        let c = &self.config;
        let d_inner = c.effective_d_inner();
        let dt_rank = c.effective_dt_rank();
        let h = c.hidden_size;
        let in_proj = h * d_inner * 2;
        let conv1d = d_inner * c.d_conv;
        let x_proj = d_inner * (dt_rank + c.d_state * 2);
        let dt_proj = dt_rank * d_inner;
        let a_log = d_inner * c.d_state;
        let out_proj = d_inner * h;
        let layer = in_proj + conv1d + x_proj + dt_proj + a_log + d_inner + out_proj;
        let param_size = (c.vocab_size * h + c.num_hidden_layers * layer) * 4;
        let state_size = c.num_hidden_layers * (d_inner * c.d_state + d_inner * (c.d_conv - 1)) * 4;
        MemoryRequirements {
            gpu_memory: param_size,
            cpu_memory: param_size / 4,
            kv_cache_memory: state_size,
            peak_memory: param_size + param_size / 2,
        }
    }
}

impl MambaBackbone {
    /// `self` is `old` after loading from `weights`: each weight whose
    /// checkpoint name `weights` holds takes that tensor's shape, element
    /// type, device and elements (as is, or transposed for a matrix product),
    /// and nothing else changes.
    pub closed spec fn loaded(&self, old: Self, weights: ModelWeights) -> bool {
        &&& copied(self.embeddings, old.embeddings, first_found(weights, seq!["backbone.embeddings.weight"@, "backbone.embedding.weight"@, "model.embed_tokens.weight"@]))
        &&& self.layers@.len() == old.layers@.len()
        &&& forall|k: int| 0 <= k < old.layers@.len() ==> #[trigger] self.layers@[k].loaded(old.layers@[k], weights, k)
        &&& copied(self.norm_f, old.norm_f, first_found(weights, seq!["backbone.norm_f.weight"@, "backbone.final_layernorm.weight"@, "model.norm.weight"@]))
        &&& self.config == old.config
    }

    /// Every tensor that loading from `weights` would transpose has at least
    /// two dimensions.
    pub closed spec fn loadable(&self, weights: ModelWeights) -> bool {
        &&& forall|k: int| 0 <= k < self.layers@.len() ==> #[trigger] self.layers@[k].loadable(weights, k)
    }

    /// Loads the weights of `weights` that this part names.
    fn load_weights(&mut self, weights: &ModelWeights) -> (r: Result<(), ModelError>)
        ensures
            r is Ok <==> old(self).loadable(*weights),
            r is Ok ==> final(self).loaded(*old(self), *weights),
            r matches Err(e) ==> is_transpose_error(e),
    {
        take_copy(&mut self.embeddings, get_first3(weights, "backbone.embeddings.weight", "backbone.embedding.weight", "model.embed_tokens.weight"));
        take_copy(&mut self.norm_f, get_first3(weights, "backbone.norm_f.weight", "backbone.final_layernorm.weight", "model.norm.weight"));
        let mut taken_layers: Vec<MambaBlock> = Vec::new();
        std::mem::swap(&mut taken_layers, &mut self.layers);
        self.layers = Self::load_layers(taken_layers, weights)?;
        Ok(())
    }

    /// Loads each of `items`, in order, from `weights`.
    fn load_layers(items: Vec<MambaBlock>, weights: &ModelWeights) -> (r: Result<Vec<MambaBlock>, ModelError>)
        ensures
            r is Ok <==> forall|k: int| 0 <= k < items@.len() ==> #[trigger] items@[k].loadable(*weights, k),
            r matches Ok(v) ==> v@.len() == items@.len() && forall|k: int| 0 <= k < items@.len() ==> #[trigger] v@[k].loaded(items@[k], *weights, k),
            r matches Err(e) ==> is_transpose_error(e),
    {
        let mut rest = items;
        let mut done: Vec<MambaBlock> = Vec::new();
        while rest.len() > 0
            invariant
                done@.len() + rest@.len() == items@.len(),
                rest@ == items@.subrange(done@.len() as int, items@.len() as int),
                forall|k: int| 0 <= k < done@.len() ==> #[trigger] done@[k].loaded(items@[k], *weights, k),
                forall|k: int| 0 <= k < done@.len() ==> #[trigger] items@[k].loadable(*weights, k),
            decreases rest@.len(),
        {
            let n = done.len();
            let mut item = rest.remove(0);
            assert(item == items@[n as int]);
            match item.load_weights(weights, n) {
                Ok(()) => {},
                Err(e) => {
                    assert(!items@[n as int].loadable(*weights, n as int));
                    return Err(e);
                },
            }
            done.push(item);
            assert(rest@ =~= items@.subrange(done@.len() as int, items@.len() as int));
        }
        Ok(done)
    }
}

impl MambaBlock {
    /// `self` is `old` after loading from `weights`: each weight whose
    /// checkpoint name `weights` holds takes that tensor's shape, element
    /// type, device and elements (as is, or transposed for a matrix product),
    /// and nothing else changes.
    pub closed spec fn loaded(&self, old: Self, weights: ModelWeights, idx: int) -> bool {
        &&& self.mixer.loaded(old.mixer, weights, idx)
        &&& copied(self.norm, old.norm, weights.lookup(indexed("backbone.layers."@, idx, ".norm.weight"@)))
        &&& self.config == old.config
    }

    /// Every tensor that loading from `weights` would transpose has at least
    /// two dimensions.
    pub closed spec fn loadable(&self, weights: ModelWeights, idx: int) -> bool {
        &&& self.mixer.loadable(weights, idx)
    }

    /// Loads the weights of `weights` that this part names.
    fn load_weights(&mut self, weights: &ModelWeights, layer_idx: usize) -> (r: Result<(), ModelError>)
        ensures
            r is Ok <==> old(self).loadable(*weights, layer_idx as int),
            r is Ok ==> final(self).loaded(*old(self), *weights, layer_idx as int),
            r matches Err(e) ==> is_transpose_error(e),
    {
        load_copy(&mut self.norm, weights, indexed_name("backbone.layers.", layer_idx, ".norm.weight").as_str());
        self.mixer.load_weights(weights, layer_idx)?;
        Ok(())
    }
}

impl MambaMixer {
    /// `self` is `old` after loading from `weights`: each weight whose
    /// checkpoint name `weights` holds takes that tensor's shape, element
    /// type, device and elements (as is, or transposed for a matrix product),
    /// and nothing else changes.
    pub closed spec fn loaded(&self, old: Self, weights: ModelWeights, idx: int) -> bool {
        &&& transposed(self.in_proj, old.in_proj, weights.lookup(indexed("backbone.layers."@, idx, ".mixer.in_proj.weight"@)))
        &&& conv_loaded(self.conv1d_weight, old.conv1d_weight, weights.lookup(indexed("backbone.layers."@, idx, ".mixer.conv1d.weight"@)))
        &&& copied_opt(self.conv1d_bias, old.conv1d_bias, weights.lookup(indexed("backbone.layers."@, idx, ".mixer.conv1d.bias"@)))
        &&& transposed(self.x_proj, old.x_proj, weights.lookup(indexed("backbone.layers."@, idx, ".mixer.x_proj.weight"@)))
        &&& copied(self.dt_proj, old.dt_proj, weights.lookup(indexed("backbone.layers."@, idx, ".mixer.dt_proj.weight"@)))
        &&& copied_opt(self.dt_proj_bias, old.dt_proj_bias, weights.lookup(indexed("backbone.layers."@, idx, ".mixer.dt_proj.bias"@)))
        &&& copied(self.a_log, old.a_log, weights.lookup(indexed("backbone.layers."@, idx, ".mixer.A_log"@)))
        &&& copied(self.d, old.d, weights.lookup(indexed("backbone.layers."@, idx, ".mixer.D"@)))
        &&& transposed(self.out_proj, old.out_proj, weights.lookup(indexed("backbone.layers."@, idx, ".mixer.out_proj.weight"@)))
        &&& self.d_inner == old.d_inner
        &&& self.d_state == old.d_state
        &&& self.d_conv == old.d_conv
        &&& self.dt_rank == old.dt_rank
    }

    /// Every tensor that loading from `weights` would transpose has at least
    /// two dimensions.
    pub closed spec fn loadable(&self, weights: ModelWeights, idx: int) -> bool {
        &&& transposable(weights.lookup(indexed("backbone.layers."@, idx, ".mixer.in_proj.weight"@)))
        &&& transposable(weights.lookup(indexed("backbone.layers."@, idx, ".mixer.x_proj.weight"@)))
        &&& transposable(weights.lookup(indexed("backbone.layers."@, idx, ".mixer.out_proj.weight"@)))
    }

    /// Loads the weights of `weights` that this part names.
    fn load_weights(&mut self, weights: &ModelWeights, layer_idx: usize) -> (r: Result<(), ModelError>)
        ensures
            r is Ok <==> old(self).loadable(*weights, layer_idx as int),
            r is Ok ==> final(self).loaded(*old(self), *weights, layer_idx as int),
            r matches Err(e) ==> is_transpose_error(e),
    {
        load_transposed(&mut self.in_proj, weights, indexed_name("backbone.layers.", layer_idx, ".mixer.in_proj.weight").as_str())?;
        load_conv(&mut self.conv1d_weight, weights, indexed_name("backbone.layers.", layer_idx, ".mixer.conv1d.weight").as_str());
        load_copy_opt(&mut self.conv1d_bias, weights, indexed_name("backbone.layers.", layer_idx, ".mixer.conv1d.bias").as_str());
        load_transposed(&mut self.x_proj, weights, indexed_name("backbone.layers.", layer_idx, ".mixer.x_proj.weight").as_str())?;
        load_copy(&mut self.dt_proj, weights, indexed_name("backbone.layers.", layer_idx, ".mixer.dt_proj.weight").as_str());
        load_copy_opt(&mut self.dt_proj_bias, weights, indexed_name("backbone.layers.", layer_idx, ".mixer.dt_proj.bias").as_str());
        load_copy(&mut self.a_log, weights, indexed_name("backbone.layers.", layer_idx, ".mixer.A_log").as_str());
        load_copy(&mut self.d, weights, indexed_name("backbone.layers.", layer_idx, ".mixer.D").as_str());
        load_transposed(&mut self.out_proj, weights, indexed_name("backbone.layers.", layer_idx, ".mixer.out_proj.weight").as_str())?;
        Ok(())
    }
}

impl MambaModelV2 {
    /// `self` is `old` after loading from `weights`: the backbone loaded, and
    /// the head, unless the embeddings are tied, transposed from
    /// `lm_head.weight` when `weights` holds it.
    /// Copying or transposing a tensor takes its shape, element type,
    /// device and elements.
    pub closed spec fn loaded(&self, old: Self, weights: ModelWeights) -> bool {
        &&& self.config == old.config
        &&& self.device == old.device
        &&& self.backbone.loaded(old.backbone, weights)
        &&& if old.config.tie_embeddings {
            self.lm_head == old.lm_head
        } else {
            transposed(self.lm_head, old.lm_head, weights.lookup("lm_head.weight"@))
        }
    }

    /// Every tensor that loading from `weights` would transpose has at least
    /// two dimensions.
    pub closed spec fn loadable(&self, weights: ModelWeights) -> bool {
        &&& self.backbone.loadable(weights)
        &&& !self.config.tie_embeddings ==> transposable(weights.lookup("lm_head.weight"@))
    }

    /// Loads the weights of `weights` that this model names.
    fn load_weights(&mut self, weights: &ModelWeights) -> (r: Result<(), ModelError>)
        ensures
            r is Ok <==> old(self).loadable(*weights),
            r is Ok ==> final(self).loaded(*old(self), *weights),
            r matches Err(e) ==> is_transpose_error(e),
    {
        self.backbone.load_weights(weights)?;
        if !self.config.tie_embeddings {
            load_transposed(&mut self.lm_head, weights, "lm_head.weight")?;
        }
        Ok(())
    }
}

impl MambaModelV2 {
    /// Builds the model for `config` as `new` does and loads the weights that
    /// `weights` holds under their checkpoint names: the result is the built
    /// model with those weights taken, and an error exactly when a tensor that
    /// must be transposed has fewer than two dimensions.
    pub fn from_weights(config: MambaConfig, weights: ModelWeights) -> (r: Result<Self, ModelError>)
        requires
            mamba_dims_fit(config),
        ensures
            exists|built: Self| #[trigger] built.built_for(config, Device::CPU) && built.spec_config() == config
                && built.spec_device() == Device::CPU && (r is Ok <==> built.loadable(weights))
                && (r matches Ok(m) ==> m.spec_config() == config && m.spec_device() == Device::CPU && m.loaded(built, weights))
                && (r matches Err(e) ==> is_transpose_error(e)),
    {
        let mut model = match Self::new(config) {
            Ok(m) => m,
            Err(e) => {
                return Err(e);
            },
        };
        let ghost built = model;
        match model.load_weights(&weights) {
            Ok(()) => {
                assert(built.built_for(config, Device::CPU));
                Ok(model)
            },
            Err(e) => {
                assert(built.built_for(config, Device::CPU));
                Err(e)
            },
        }
    }
}

impl MambaMixer {
    /// A move to `d1` followed by a move to `d2` is a move to `d2`.
    proof fn lemma_moves_compose(first: Self, second: Self, third: Self, d1: Device, d2: Device)
        requires
            second.moved_from(first, d1),
            third.moved_from(second, d2),
        ensures
            third.moved_from(first, d2),
    {
    }
}

impl MambaBlock {
    /// A move to `d1` followed by a move to `d2` is a move to `d2`.
    proof fn lemma_moves_compose(first: Self, second: Self, third: Self, d1: Device, d2: Device)
        requires
            second.moved_from(first, d1),
            third.moved_from(second, d2),
        ensures
            third.moved_from(first, d2),
    {
        MambaMixer::lemma_moves_compose(first.mixer, second.mixer, third.mixer, d1, d2);
    }
}

impl MambaBackbone {
    /// A move to `d1` followed by a move to `d2` is a move to `d2`.
    proof fn lemma_moves_compose(first: Self, second: Self, third: Self, d1: Device, d2: Device)
        requires
            second.moved_from(first, d1),
            third.moved_from(second, d2),
        ensures
            third.moved_from(first, d2),
    {
        assert forall|k: int| 0 <= k < third.layers@.len() implies #[trigger] third.layers@[k].moved_from(first.layers@[k], d2) by {
            MambaBlock::lemma_moves_compose(first.layers@[k], second.layers@[k], third.layers@[k], d1, d2);
        }
    }
}

impl MambaModelV2 {
    /// Moving to `d1` and then to `d2` leaves the model as a single move to
    /// `d2` would: the second move overrides the first.
    pub proof fn lemma_moves_compose(first: Self, second: Self, third: Self, d1: Device, d2: Device)
        requires
            second.moved_from(first, d1),
            third.moved_from(second, d2),
        ensures
            third.moved_from(first, d2),
    {
        MambaBackbone::lemma_moves_compose(first.backbone, second.backbone, third.backbone, d1, d2);
    }
}

} // verus!

verus! {

impl MambaConfig {
    /// The default configuration has these sizes: the clauses below.
    pub proof fn lemma_default_sizes(&self)
        requires
            self.gguf_fields_default(),
        ensures
            self.vocab_size == 50280,
            self.hidden_size == 768,
            self.num_hidden_layers == 24,
            self.d_state == 16,
            self.d_conv == 4,
            self.expand == 2,
            self.dt_rank == 0,
            self.d_inner == 0,
            self.layer_norm_epsilon.bits == 0x3727c5ac,
    {
    }

    /// The default configuration has these remaining settings: the clauses below.
    pub proof fn lemma_default_settings(&self)
        requires
            self.other_fields_default(),
        ensures
            self.dt_scale.bits == 0x3f800000,
            self.dt_min.bits == 0x3a83126f,
            self.dt_max.bits == 0x3dcccccd,
            self.dt_init_floor.bits == 0x38d1b717,
            self.conv_bias == true,
            self.bias == false,
            self.rms_norm == true,
            self.initializer_range.bits == 0x3ca3d70a,
            self.tie_embeddings == true,
            self.pad_token_id == 0,
            self.bos_token_id == 0,
            self.eos_token_id == 0,
    {
    }

    /// The default configuration is the one with the default sizes and settings: the clauses below.
    pub proof fn lemma_default_parts(&self)
        requires
            self.is_default(),
        ensures
            ({
            self.gguf_fields_default() && self.other_fields_default()
        }),
    {
    }
}

impl MambaMixer {
    /// Built for `config` on `device`, each weight is the zero tensor of the shape the configuration gives, on `device`, and each recorded size is the configured one: the clauses below.
    pub proof fn lemma_built_weights(&self, config: MambaConfig, device: Device)
        requires
            self.built_for(config, device),
        ensures
            ({
            let di = config.spec_effective_d_inner() as usize;
            let dr = config.spec_effective_dt_rank() as usize;
            let h = config.hidden_size;
            &&& self.in_proj.is_f32(seq![h, (di * 2) as usize], device)
            &&& self.conv1d_weight.is_f32(seq![di, config.d_conv], device)
            &&& optional_bias(self.conv1d_bias, config.conv_bias, di, device)
            &&& self.x_proj.is_f32(seq![di, (dr + config.d_state * 2) as usize], device)
            &&& self.dt_proj.is_f32(seq![dr, di], device)
            &&& optional_bias(self.dt_proj_bias, config.bias, di, device)
            &&& self.a_log.is_f32(seq![di, config.d_state], device)
            &&& self.d.is_f32(seq![di], device)
            &&& self.out_proj.is_f32(seq![di, h], device)
            &&& self.d_inner == di
            &&& self.d_state == config.d_state
            &&& self.d_conv == config.d_conv
            &&& self.dt_rank == dr
        }),
    {
    }

    /// After a move to `device`, every weight lies on `device` with its shape, element type and elements kept, and nothing else changes: the clauses below.
    pub proof fn lemma_moved_weights(&self, before: Self, device: Device)
        requires
            self.moved_from(before, device),
        ensures
            self.in_proj.is_placed(before.in_proj, device),
            self.conv1d_weight.is_placed(before.conv1d_weight, device),
            optional_placed(self.conv1d_bias, before.conv1d_bias, device),
            self.x_proj.is_placed(before.x_proj, device),
            self.dt_proj.is_placed(before.dt_proj, device),
            optional_placed(self.dt_proj_bias, before.dt_proj_bias, device),
            self.a_log.is_placed(before.a_log, device),
            self.d.is_placed(before.d, device),
            self.out_proj.is_placed(before.out_proj, device),
            self.d_inner == before.d_inner,
            self.d_state == before.d_state,
            self.d_conv == before.d_conv,
            self.dt_rank == before.dt_rank,
    {
    }

    /// After loading from `weights`, each weight holds the tensor stored under its checkpoint name, copied or transposed, and keeps its previous value when the name is absent; nothing else changes: the clauses below.
    pub proof fn lemma_loaded_weights(&self, before: Self, weights: ModelWeights, idx: int)
        requires
            self.loaded(before, weights, idx),
        ensures
            transposed(self.in_proj, before.in_proj, weights.lookup(indexed("backbone.layers."@, idx, ".mixer.in_proj.weight"@))),
            conv_loaded(self.conv1d_weight, before.conv1d_weight, weights.lookup(indexed("backbone.layers."@, idx, ".mixer.conv1d.weight"@))),
            copied_opt(self.conv1d_bias, before.conv1d_bias, weights.lookup(indexed("backbone.layers."@, idx, ".mixer.conv1d.bias"@))),
            transposed(self.x_proj, before.x_proj, weights.lookup(indexed("backbone.layers."@, idx, ".mixer.x_proj.weight"@))),
            copied(self.dt_proj, before.dt_proj, weights.lookup(indexed("backbone.layers."@, idx, ".mixer.dt_proj.weight"@))),
            copied_opt(self.dt_proj_bias, before.dt_proj_bias, weights.lookup(indexed("backbone.layers."@, idx, ".mixer.dt_proj.bias"@))),
            copied(self.a_log, before.a_log, weights.lookup(indexed("backbone.layers."@, idx, ".mixer.A_log"@))),
            copied(self.d, before.d, weights.lookup(indexed("backbone.layers."@, idx, ".mixer.D"@))),
            transposed(self.out_proj, before.out_proj, weights.lookup(indexed("backbone.layers."@, idx, ".mixer.out_proj.weight"@))),
            self.d_inner == before.d_inner,
            self.d_state == before.d_state,
            self.d_conv == before.d_conv,
            self.dt_rank == before.dt_rank,
    {
    }

    /// Loading from `weights` succeeds only when every tensor it must transpose, found under these checkpoint names, has at least two dimensions: the clauses below.
    pub proof fn lemma_loadable_names(&self, weights: ModelWeights, idx: int)
        requires
            self.loadable(weights, idx),
        ensures
            transposable(weights.lookup(indexed("backbone.layers."@, idx, ".mixer.in_proj.weight"@))),
            transposable(weights.lookup(indexed("backbone.layers."@, idx, ".mixer.x_proj.weight"@))),
            transposable(weights.lookup(indexed("backbone.layers."@, idx, ".mixer.out_proj.weight"@))),
    {
    }
}

impl MambaBlock {
    /// Built for `config` on `device`, each weight is the zero tensor of the shape the configuration gives, on `device`, and each recorded size is the configured one: the clauses below.
    pub proof fn lemma_built_weights(&self, config: MambaConfig, device: Device)
        requires
            self.built_for(config, device),
        ensures
            self.mixer.built_for(config, device),
            self.norm.is_f32(seq![config.hidden_size], device),
            self.config == config,
    {
    }

    /// After a move to `device`, every weight lies on `device` with its shape, element type and elements kept, and nothing else changes: the clauses below.
    pub proof fn lemma_moved_weights(&self, before: Self, device: Device)
        requires
            self.moved_from(before, device),
        ensures
            self.mixer.moved_from(before.mixer, device),
            self.norm.is_placed(before.norm, device),
            self.config == before.config,
    {
    }

    /// After loading from `weights`, each weight holds the tensor stored under its checkpoint name, copied or transposed, and keeps its previous value when the name is absent; nothing else changes: the clauses below.
    pub proof fn lemma_loaded_weights(&self, before: Self, weights: ModelWeights, idx: int)
        requires
            self.loaded(before, weights, idx),
        ensures
            self.mixer.loaded(before.mixer, weights, idx),
            copied(self.norm, before.norm, weights.lookup(indexed("backbone.layers."@, idx, ".norm.weight"@))),
            self.config == before.config,
    {
    }

    /// Loading from `weights` succeeds only when every tensor it must transpose, found under these checkpoint names, has at least two dimensions: the clauses below.
    pub proof fn lemma_loadable_names(&self, weights: ModelWeights, idx: int)
        requires
            self.loadable(weights, idx),
        ensures
            self.mixer.loadable(weights, idx),
    {
    }
}

impl MambaBackbone {
    /// Built for `config` on `device`, each weight is the zero tensor of the shape the configuration gives, on `device`, and each recorded size is the configured one: the clauses below.
    pub proof fn lemma_built_weights(&self, config: MambaConfig, device: Device)
        requires
            self.built_for(config, device),
        ensures
            self.embeddings.is_f32(seq![config.vocab_size, config.hidden_size], device),
            self.norm_f.is_f32(seq![config.hidden_size], device),
            self.layers@.len() == config.num_hidden_layers,
            forall|k: int| 0 <= k < self.layers@.len() ==> #[trigger] self.layers@[k].built_for(config, device),
            self.config == config,
    {
    }

    /// After a move to `device`, every weight lies on `device` with its shape, element type and elements kept, and nothing else changes: the clauses below.
    pub proof fn lemma_moved_weights(&self, before: Self, device: Device)
        requires
            self.moved_from(before, device),
        ensures
            self.embeddings.is_placed(before.embeddings, device),
            self.norm_f.is_placed(before.norm_f, device),
            self.layers@.len() == before.layers@.len(),
            forall|k: int| 0 <= k < self.layers@.len() ==> #[trigger] self.layers@[k].moved_from(before.layers@[k], device),
            self.config == before.config,
    {
    }

    /// After loading from `weights`, each weight holds the tensor stored under its checkpoint name, copied or transposed, and keeps its previous value when the name is absent; nothing else changes: the clauses below.
    pub proof fn lemma_loaded_weights(&self, before: Self, weights: ModelWeights)
        requires
            self.loaded(before, weights),
        ensures
            copied(self.embeddings, before.embeddings, first_found(weights, seq!["backbone.embeddings.weight"@, "backbone.embedding.weight"@, "model.embed_tokens.weight"@])),
            self.layers@.len() == before.layers@.len(),
            forall|k: int| 0 <= k < before.layers@.len() ==> #[trigger] self.layers@[k].loaded(before.layers@[k], weights, k),
            copied(self.norm_f, before.norm_f, first_found(weights, seq!["backbone.norm_f.weight"@, "backbone.final_layernorm.weight"@, "model.norm.weight"@])),
            self.config == before.config,
    {
    }

    /// Loading from `weights` succeeds only when every tensor it must transpose, found under these checkpoint names, has at least two dimensions: the clauses below.
    pub proof fn lemma_loadable_names(&self, weights: ModelWeights)
        requires
            self.loadable(weights),
        ensures
            forall|k: int| 0 <= k < self.layers@.len() ==> #[trigger] self.layers@[k].loadable(weights, k),
    {
    }
}

impl MambaState {
    /// A fresh recurrent state for `config` on `device` is made of zero tensors of these shapes: the clauses below.
    pub proof fn lemma_initial_state_shapes(&self, config: MambaConfig, device: Device)
        requires
            self.is_initial(config, device),
        ensures
            ({
            let di = config.spec_effective_d_inner() as usize;
            &&& self.h.is_f32(seq![1usize, di, config.d_state], device)
            &&& self.conv_cache.is_f32(seq![1usize, di, (config.d_conv - 1) as usize], device)
        }),
    {
    }
}

impl MambaModelV2 {
    /// Built for `config` on `device`, each weight is the zero tensor of the shape the configuration gives, on `device`, and each recorded size is the configured one: the clauses below.
    pub proof fn lemma_built_weights(&self, config: MambaConfig, device: Device)
        requires
            self.built_for(config, device),
        ensures
            self.backbone.built_for(config, device),
            if config.tie_embeddings {
                self.lm_head.is_f32(seq![config.vocab_size, config.hidden_size], device)
            } else {
                self.lm_head.is_f32(seq![config.hidden_size, config.vocab_size], device)
            },
    {
    }

    /// After a move to `device`, every weight lies on `device` with its shape, element type and elements kept, and nothing else changes: the clauses below.
    pub proof fn lemma_moved_weights(&self, before: Self, device: Device)
        requires
            self.moved_from(before, device),
        ensures
            self.config == before.config,
            self.device == device,
            self.backbone.moved_from(before.backbone, device),
            if before.config.tie_embeddings {
                self.lm_head == before.lm_head
            } else {
                self.lm_head.is_placed(before.lm_head, device)
            },
    {
    }

    /// After loading from `weights`, each weight holds the tensor stored under its checkpoint name, copied or transposed, and keeps its previous value when the name is absent; nothing else changes: the clauses below.
    pub proof fn lemma_loaded_weights(&self, before: Self, weights: ModelWeights)
        requires
            self.loaded(before, weights),
        ensures
            self.config == before.config,
            self.device == before.device,
            self.backbone.loaded(before.backbone, weights),
            if before.config.tie_embeddings {
                self.lm_head == before.lm_head
            } else {
                transposed(self.lm_head, before.lm_head, weights.lookup("lm_head.weight"@))
            },
    {
    }

    /// Loading from `weights` succeeds only when every tensor it must transpose, found under these checkpoint names, has at least two dimensions: the clauses below.
    pub proof fn lemma_loadable_names(&self, weights: ModelWeights)
        requires
            self.loadable(weights),
        ensures
            self.backbone.loadable(weights),
            !self.config.tie_embeddings ==> transposable(weights.lookup("lm_head.weight"@)),
    {
    }
}

/// `mamba_param_bytes` is, for every configuration, the formula below.
pub proof fn lemma_mamba_param_bytes_formula(c: MambaConfig)
    ensures
        mamba_param_bytes(c) == ((c.vocab_size * c.hidden_size + c.num_hidden_layers * mamba_layer_params(c)) * 4),
{
}

} // verus!

verus! {

impl MambaModelV2 {
    /// A fresh recurrent state fits every layer of a model built for the same
    /// configuration and device: its hidden state is `[1]` followed by the
    /// shape `[d_inner, d_state]` of the layer's state transition `A_log`, and
    /// its convolution cache is `[1, d_inner, d_conv - 1]`, one position
    /// shorter than the layer's convolution `[d_inner, d_conv]`; both lie on
    /// the model's device.
    pub proof fn lemma_initial_state_fits_layers(&self, config: MambaConfig, device: Device, state: MambaState, k: int)
        requires
            self.built_for(config, device),
            state.is_initial(config, device),
            0 <= k < self.backbone.layers@.len(),
            config.spec_effective_d_inner() <= usize::MAX,
            config.d_conv >= 1,
        ensures
            state.h.shape@ == seq![1usize].add(self.backbone.layers@[k].mixer.a_log.shape@),
            state.h.shape@ == seq![1usize, config.spec_effective_d_inner() as usize, config.d_state],
            state.conv_cache.shape@ == seq![1usize, config.spec_effective_d_inner() as usize, (config.d_conv - 1) as usize],
            state.conv_cache.shape@[1] == self.backbone.layers@[k].mixer.conv1d_weight.shape@[0],
            state.conv_cache.shape@[2] + 1 == self.backbone.layers@[k].mixer.conv1d_weight.shape@[1],
            state.h.device == device,
            state.conv_cache.device == device,
    {
        assert(self.backbone.built_for(config, device));
        assert(self.backbone.layers@[k].built_for(config, device));
        assert(self.backbone.layers@[k].mixer.built_for(config, device));
        assert(seq![1usize].add(self.backbone.layers@[k].mixer.a_log.shape@) =~= state.h.shape@);
    }
}

} // verus!

verus! {

impl MambaConfig {
    /// `spec_effective_d_inner` is, for every value, the expression below.
    pub proof fn lemma_spec_effective_d_inner_value(&self)
        ensures
            self.spec_effective_d_inner() == (if self.d_inner > 0 { self.d_inner as int } else { self.hidden_size * self.expand }),
    {
    }

    /// `spec_effective_dt_rank` is, for every value, the expression below.
    pub proof fn lemma_spec_effective_dt_rank_value(&self)
        ensures
            self.spec_effective_dt_rank() == (if self.dt_rank > 0 { self.dt_rank as int } else { auto_dt_rank(self.hidden_size as int) }),
    {
    }
}

/// `optional_bias` is, for every argument, the expression below.
pub proof fn lemma_optional_bias_value(b: Option<Tensor>, present: bool, n: usize, device: Device)
    ensures
        optional_bias(b, present, n, device) == ({
        if present {
            b matches Some(t) && t.is_f32(seq![n], device)
        } else {
            b is None
        }
        }),
{
}

/// `optional_placed` is, for every argument, the expression below.
pub proof fn lemma_optional_placed_value(b: Option<Tensor>, old: Option<Tensor>, device: Device)
    ensures
        optional_placed(b, old, device) == ({
        match (b, old) {
            (Some(t), Some(u)) => t.is_placed(u, device),
            (None, None) => true,
            _ => false,
        }
        }),
{
}

} // verus!
