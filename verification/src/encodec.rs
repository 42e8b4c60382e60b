//! The EnCodec (neural audio codec) model.
use vstd::prelude::*;
use crate::common::F32Bits;
use crate::gguf::GGUFModelConfig;
use crate::common::{GenerationConfig, MemoryRequirements, ModelError};
use crate::tensor::{zeros1, zeros2, zeros3, Device, Tensor};
use crate::weights::{is_transpose_error, ModelWeights};

verus! {

/// Hyperparameters of the EnCodec (neural audio codec) model.
#[derive(Clone, Debug)]
pub struct EncodecConfig {
    pub vocab_size: usize,
    pub hidden_size: usize,
    pub num_hidden_layers: usize,
    pub audio_channels: usize,
    pub sample_rate: usize,
    pub num_filters: usize,
    pub num_residual_layers: usize,
    pub upsampling_ratios: Vec<usize>,
    pub norm_type: String,
    pub codebook_size: usize,
    pub codebook_dim: usize,
    pub num_codebooks: usize,
    pub use_causal_conv: bool,
    pub pad_mode: String,
    pub bandwidth: F32Bits,
    pub layer_norm_eps: F32Bits,
    pub pad_token_id: i64,
    pub bos_token_id: i64,
    pub eos_token_id: i64,
}

impl EncodecConfig {
    /// The fields that a GGUF file supplies hold their default values.
    pub open spec fn gguf_fields_default(&self) -> bool {
        &&& self.hidden_size == 128
    }

    /// The fields that a GGUF file does not supply hold their default values.
    pub open spec fn other_fields_default(&self) -> bool {
        &&& self.vocab_size == 1024
        &&& self.num_hidden_layers == 4
        &&& self.audio_channels == 1
        &&& self.sample_rate == 24000
        &&& self.num_filters == 32
        &&& self.num_residual_layers == 1
        &&& self.upsampling_ratios@ == seq![8usize, 5usize, 4usize, 2usize]
        &&& self.norm_type@ == "weight_norm"@
        &&& self.codebook_size == 1024
        &&& self.codebook_dim == 128
        &&& self.num_codebooks == 32
        &&& self.use_causal_conv == true
        &&& self.pad_mode@ == "reflect"@
        &&& self.bandwidth.bits == 0x40c00000
        &&& self.layer_norm_eps.bits == 0x3727c5ac
        &&& self.pad_token_id == 0
        &&& self.bos_token_id == 1
        &&& self.eos_token_id == 2
    }

    /// Every field holds its default value.
    pub open spec fn is_default(&self) -> bool {
        self.gguf_fields_default() && self.other_fields_default()
    }

    /// The configuration described by a GGUF file: the architecture fields it
    /// carries, and the defaults for the rest.
    pub fn from_gguf_config(gguf: &GGUFModelConfig) -> (r: Self)
        ensures
            r.hidden_size == gguf.hidden_size,
            r.other_fields_default(),
    {
        let d = Self::default();
        Self {
            hidden_size: gguf.hidden_size,
            ..d
        }
    }

    /// Size of the token vocabulary.
    pub fn vocab_size(&self) -> (r: usize)
        ensures
            r == self.vocab_size,
    {
        self.vocab_size
    }

    /// Width of the hidden states.
    pub fn hidden_size(&self) -> (r: usize)
        ensures
            r == self.hidden_size,
    {
        self.hidden_size
    }

    /// Number of transformer (or state-space) layers.
    pub fn num_layers(&self) -> (r: usize)
        ensures
            r == self.num_hidden_layers,
    {
        self.num_hidden_layers
    }
}

impl Default for EncodecConfig {
    fn default() -> (r: Self)
        ensures
            r.is_default(),
    {
        Self {
            vocab_size: 1024,
            hidden_size: 128,
            num_hidden_layers: 4,
            audio_channels: 1,
            sample_rate: 24000,
            num_filters: 32,
            num_residual_layers: 1,
            upsampling_ratios: vec![8, 5, 4, 2],
            norm_type: String::from_str("weight_norm"),
            codebook_size: 1024,
            codebook_dim: 128,
            num_codebooks: 32,
            use_causal_conv: true,
            pad_mode: String::from_str("reflect"),
            bandwidth: F32Bits::from_bits(0x40c00000),
            layer_norm_eps: F32Bits::from_bits(0x3727c5ac),
            pad_token_id: 0,
            bos_token_id: 1,
            eos_token_id: 2,
        }
    }
}


/// The EnCodec model: a convolutional encoder from audio to latents, a
/// residual vector quantizer, and a decoder that mirrors the encoder.
pub struct EncodecModelV2 {
    pub config: EncodecConfig,
    pub device: Device,
    pub encoder: EncodecEncoder,
    pub decoder: EncodecDecoder,
    pub quantizer: ResidualVectorQuantizer,
}

/// Encoder: input convolution, one downsampling block per ratio (each
/// doubling the channels), output convolution to the latent width, LSTM.
pub struct EncodecEncoder {
    pub conv_in: EncodecConv1d,
    pub down_blocks: Vec<EncodecDownsampleBlock>,
    pub conv_out: EncodecConv1d,
    pub lstm: Option<EncodecLSTM>,
}

/// Decoder: input convolution, LSTM, one upsampling block per ratio in
/// reverse order (each halving the channels, the last one ending at
/// `num_filters`), output convolution to the audio channels.
pub struct EncodecDecoder {
    pub conv_in: EncodecConv1d,
    pub up_blocks: Vec<EncodecUpsampleBlock>,
    pub conv_out: EncodecConv1d,
    pub lstm: Option<EncodecLSTM>,
}

/// Residual units, a convolution, then a strided downsampling convolution.
pub struct EncodecDownsampleBlock {
    pub conv_layers: Vec<EncodecConv1d>,
    pub downsample: EncodecConv1d,
    pub residual_layers: Vec<EncodecResidualUnit>,
}

/// A transposed upsampling convolution, a convolution, then residual units.
pub struct EncodecUpsampleBlock {
    pub upsample: EncodecConvTranspose1d,
    pub conv_layers: Vec<EncodecConv1d>,
    pub residual_layers: Vec<EncodecResidualUnit>,
}

/// Two convolutions with a residual connection.
pub struct EncodecResidualUnit {
    pub conv1: EncodecConv1d,
    pub conv2: EncodecConv1d,
}

/// A one-dimensional convolution.
pub struct EncodecConv1d {
    pub weight: Tensor,
    pub bias: Option<Tensor>,
    pub in_channels: usize,
    pub out_channels: usize,
    pub kernel_size: usize,
    pub stride: usize,
    pub padding: usize,
}

/// A one-dimensional transposed convolution.
pub struct EncodecConvTranspose1d {
    pub weight: Tensor,
    pub bias: Option<Tensor>,
    pub in_channels: usize,
    pub out_channels: usize,
    pub kernel_size: usize,
    pub stride: usize,
}

/// An LSTM over the latent sequence.
pub struct EncodecLSTM {
    pub weight_ih: Tensor,
    pub weight_hh: Tensor,
    pub bias_ih: Tensor,
    pub bias_hh: Tensor,
    pub hidden_size: usize,
    pub num_layers: usize,
}

/// Residual vector quantizer: one codebook of `codebook_size` entries of
/// width `codebook_dim` per quantization stage.
pub struct ResidualVectorQuantizer {
    pub codebooks: Vec<Tensor>,
    pub codebook_size: usize,
    pub codebook_dim: usize,
    pub num_codebooks: usize,
}

/// Channels entering encoder block `k`: `num_filters` doubled `k` times.
pub open spec fn encoder_channels(num_filters: int, k: nat) -> int
    decreases k,
{
    if k == 0 { num_filters } else { 2 * encoder_channels(num_filters, (k - 1) as nat) }
}

/// Channels entering decoder block `i`: the latent width for the first
/// block, else what the previous block produced.
pub open spec fn decoder_in_channels(config: EncodecConfig, i: nat) -> int
    decreases i, 0nat,
{
    if i == 0 { config.hidden_size as int } else { decoder_out_channels(config, (i - 1) as nat) }
}

/// Channels leaving decoder block `i`: `num_filters` for the last block,
/// else half of what entered it.
pub open spec fn decoder_out_channels(config: EncodecConfig, i: nat) -> int
    decreases i, 1nat,
{
    if i + 1 == config.upsampling_ratios@.len() {
        config.num_filters as int
    } else {
        decoder_in_channels(config, i) / 2
    }
}

/// The ratio of decoder block `i`: the ratios are taken in reverse order.
pub open spec fn decoder_ratio(config: EncodecConfig, i: int) -> usize {
    config.upsampling_ratios@[config.upsampling_ratios@.len() - 1 - i]
}

/// Every count and width that building the model multiplies fits in a `usize`.
pub open spec fn encodec_dims_fit(config: EncodecConfig) -> bool {
    &&& encoder_channels(config.num_filters as int, config.upsampling_ratios@.len()) <= usize::MAX
    &&& 4 * config.hidden_size <= usize::MAX
    &&& forall|k: int| 0 <= k < config.upsampling_ratios@.len()
        ==> 2 * #[trigger] config.upsampling_ratios@[k] <= usize::MAX
}

/// Parameter bytes counted by the memory estimate.
pub open spec fn encodec_param_bytes(config: EncodecConfig) -> int {
    config.hidden_size * config.num_filters * 1000 * 4
}

proof fn lemma_encoder_channels_grow(num_filters: nat, j: nat, k: nat)
    requires
        j <= k,
    ensures
        0 <= encoder_channels(num_filters as int, j) <= encoder_channels(num_filters as int, k),
    decreases k,
{
    if j < k {
        lemma_encoder_channels_grow(num_filters, j, (k - 1) as nat);
    } else {
        lemma_encoder_channels_nonneg(num_filters, k);
    }
}

proof fn lemma_encoder_channels_nonneg(num_filters: nat, k: nat)
    ensures
        0 <= encoder_channels(num_filters as int, k),
    decreases k,
{
    if k > 0 {
        lemma_encoder_channels_nonneg(num_filters, (k - 1) as nat);
    }
}

impl EncodecConv1d {
    /// A convolution from `in_c` to `out_c` channels with this kernel, stride
    /// and padding: weight `[out_c, in_c, kernel]` and bias `[out_c]`, zero,
    /// on `device`.
    pub closed spec fn built_for(&self, in_c: int, out_c: int, kernel: int, stride: int, padding: int, device: Device) -> bool {
        &&& self.weight.is_f32(seq![out_c as usize, in_c as usize, kernel as usize], device)
        &&& self.bias matches Some(b) && b.is_f32(seq![out_c as usize], device)
        &&& self.in_channels == in_c
        &&& self.out_channels == out_c
        &&& self.kernel_size == kernel
        &&& self.stride == stride
        &&& self.padding == padding
    }

    fn new(in_channels: usize, out_channels: usize, kernel_size: usize, stride: usize, padding: usize, device: &Device) -> (r: Self)
        ensures
            r.built_for(in_channels as int, out_channels as int, kernel_size as int, stride as int, padding as int, *device),
    {
        let weight = zeros3(out_channels, in_channels, kernel_size, device);
        let bias = Some(zeros1(out_channels, device));
        EncodecConv1d { weight, bias, in_channels, out_channels, kernel_size, stride, padding }
    }
}

impl EncodecConvTranspose1d {
    /// A transposed convolution from `in_c` to `out_c` channels: weight
    /// `[in_c, out_c, kernel]` and bias `[out_c]`, zero, on `device`.
    pub closed spec fn built_for(&self, in_c: int, out_c: int, kernel: int, stride: int, device: Device) -> bool {
        &&& self.weight.is_f32(seq![in_c as usize, out_c as usize, kernel as usize], device)
        &&& self.bias matches Some(b) && b.is_f32(seq![out_c as usize], device)
        &&& self.in_channels == in_c
        &&& self.out_channels == out_c
        &&& self.kernel_size == kernel
        &&& self.stride == stride
    }

    fn new(in_channels: usize, out_channels: usize, kernel_size: usize, stride: usize, device: &Device) -> (r: Self)
        ensures
            r.built_for(in_channels as int, out_channels as int, kernel_size as int, stride as int, *device),
    {
        let weight = zeros3(in_channels, out_channels, kernel_size, device);
        let bias = Some(zeros1(out_channels, device));
        EncodecConvTranspose1d { weight, bias, in_channels, out_channels, kernel_size, stride }
    }
}

impl EncodecLSTM {
    /// An LSTM of width `h`: gate weights `[4h, h]` and biases `[4h]`.
    pub closed spec fn built_for(&self, h: int, num_layers: int, device: Device) -> bool {
        &&& self.weight_ih.is_f32(seq![(4 * h) as usize, h as usize], device)
        &&& self.weight_hh.is_f32(seq![(4 * h) as usize, h as usize], device)
        &&& self.bias_ih.is_f32(seq![(4 * h) as usize], device)
        &&& self.bias_hh.is_f32(seq![(4 * h) as usize], device)
        &&& self.hidden_size == h
        &&& self.num_layers == num_layers
    }

    fn new(hidden_size: usize, num_layers: usize, device: &Device) -> (r: Self)
        requires
            4 * hidden_size <= usize::MAX,
        ensures
            r.built_for(hidden_size as int, num_layers as int, *device),
    {
        let g = 4 * hidden_size;
        EncodecLSTM {
            weight_ih: zeros2(g, hidden_size, device),
            weight_hh: zeros2(g, hidden_size, device),
            bias_ih: zeros1(g, device),
            bias_hh: zeros1(g, device),
            hidden_size,
            num_layers,
        }
    }
}

impl EncodecResidualUnit {
    /// A residual unit on `c` channels: a kernel-3 convolution padded by one
    /// and a kernel-1 convolution, both of stride one.
    pub closed spec fn built_for(&self, c: int, device: Device) -> bool {
        &&& self.conv1.built_for(c, c, 3, 1, 1, device)
        &&& self.conv2.built_for(c, c, 1, 1, 0, device)
    }

    fn new(channels: usize, device: &Device) -> (r: Self)
        ensures
            r.built_for(channels as int, *device),
    {
        let conv1 = EncodecConv1d::new(channels, channels, 3, 1, 1, device);
        let conv2 = EncodecConv1d::new(channels, channels, 1, 1, 0, device);
        EncodecResidualUnit { conv1, conv2 }
    }
}

/// `units` holds `n` residual units on `c` channels.
pub open spec fn residual_units_built(units: Seq<EncodecResidualUnit>, n: int, c: int, device: Device) -> bool {
    &&& units.len() == n
    &&& forall|k: int| 0 <= k < n ==> #[trigger] units[k].built_for(c, device)
}

fn residual_units(n: usize, channels: usize, device: &Device) -> (r: Vec<EncodecResidualUnit>)
    ensures
        residual_units_built(r@, n as int, channels as int, *device),
{
    let mut units: Vec<EncodecResidualUnit> = Vec::new();
    let mut k: usize = 0;
    while k < n
        invariant
            k <= n,
            residual_units_built(units@, k as int, channels as int, *device),
        decreases n - k,
    {
        units.push(EncodecResidualUnit::new(channels, device));
        k += 1;
    }
    units
}

impl EncodecDownsampleBlock {
    /// A block from `in_c` to `out_c` channels for `ratio`: `num_residual`
    /// residual units on `in_c`, one kernel-3 convolution on `in_c`, and a
    /// downsampling convolution of kernel `2 * ratio`, stride `ratio` and
    /// padding `ratio / 2`.
    pub closed spec fn built_for(&self, in_c: int, out_c: int, ratio: int, num_residual: int, device: Device) -> bool {
        &&& residual_units_built(self.residual_layers@, num_residual, in_c, device)
        &&& self.conv_layers@.len() == 1
        &&& self.conv_layers@[0].built_for(in_c, in_c, 3, 1, 1, device)
        &&& self.downsample.built_for(in_c, out_c, 2 * ratio, ratio, ratio / 2, device)
    }

    /// The stride of the downsampling convolution.
    pub closed spec fn ratio(&self) -> int {
        self.downsample.stride as int
    }

    fn new(in_channels: usize, out_channels: usize, ratio: usize, num_residual: usize, device: &Device) -> (r: Self)
        requires
            2 * ratio <= usize::MAX,
        ensures
            r.built_for(in_channels as int, out_channels as int, ratio as int, num_residual as int, *device),
    {
        let residual_layers = residual_units(num_residual, in_channels, device);
        let mut conv_layers: Vec<EncodecConv1d> = Vec::new();
        conv_layers.push(EncodecConv1d::new(in_channels, in_channels, 3, 1, 1, device));
        let downsample = EncodecConv1d::new(in_channels, out_channels, ratio * 2, ratio, ratio / 2, device);
        EncodecDownsampleBlock { conv_layers, downsample, residual_layers }
    }
}

impl EncodecUpsampleBlock {
    /// A block from `in_c` to `out_c` channels for `ratio`: a transposed
    /// convolution of kernel `2 * ratio` and stride `ratio`, one kernel-3
    /// convolution on `out_c`, and `num_residual` residual units on `out_c`.
    pub closed spec fn built_for(&self, in_c: int, out_c: int, ratio: int, num_residual: int, device: Device) -> bool {
        &&& self.upsample.built_for(in_c, out_c, 2 * ratio, ratio, device)
        &&& self.conv_layers@.len() == 1
        &&& self.conv_layers@[0].built_for(out_c, out_c, 3, 1, 1, device)
        &&& residual_units_built(self.residual_layers@, num_residual, out_c, device)
    }

    /// The stride of the upsampling convolution.
    pub closed spec fn ratio(&self) -> int {
        self.upsample.stride as int
    }

    fn new(in_channels: usize, out_channels: usize, ratio: usize, num_residual: usize, device: &Device) -> (r: Self)
        requires
            2 * ratio <= usize::MAX,
        ensures
            r.built_for(in_channels as int, out_channels as int, ratio as int, num_residual as int, *device),
    {
        let upsample = EncodecConvTranspose1d::new(in_channels, out_channels, ratio * 2, ratio, device);
        let mut conv_layers: Vec<EncodecConv1d> = Vec::new();
        conv_layers.push(EncodecConv1d::new(out_channels, out_channels, 3, 1, 1, device));
        let residual_layers = residual_units(num_residual, out_channels, device);
        EncodecUpsampleBlock { upsample, conv_layers, residual_layers }
    }
}

impl EncodecEncoder {
    /// The encoder for `config`: input convolution from the audio channels to
    /// `num_filters`, block `k` from `encoder_channels(k)` to
    /// `encoder_channels(k + 1)` with ratio `upsampling_ratios[k]`, output
    /// convolution to `hidden_size`, and a two-layer LSTM of that width.
    pub closed spec fn built_for(&self, config: EncodecConfig, device: Device) -> bool {
        let nf = config.num_filters as int;
        let n = config.upsampling_ratios@.len();
        &&& self.conv_in.built_for(config.audio_channels as int, nf, 7, 1, 3, device)
        &&& self.down_blocks@.len() == n
        &&& forall|k: int| 0 <= k < n ==> #[trigger] self.down_blocks@[k].built_for(
            encoder_channels(nf, k as nat),
            encoder_channels(nf, (k + 1) as nat),
            config.upsampling_ratios@[k] as int,
            config.num_residual_layers as int,
            device,
        )
        &&& self.conv_out.built_for(encoder_channels(nf, n), config.hidden_size as int, 7, 1, 3, device)
        &&& self.lstm matches Some(l) && l.built_for(config.hidden_size as int, 2, device)
    }

    fn new(config: &EncodecConfig, device: &Device) -> (r: Self)
        requires
            encodec_dims_fit(*config),
        ensures
            r.built_for(*config, *device),
    {
        let ghost nf = config.num_filters as int;
        let n = config.upsampling_ratios.len();
        let mut channels = config.num_filters;
        let conv_in = EncodecConv1d::new(config.audio_channels, channels, 7, 1, 3, device);
        let mut down_blocks: Vec<EncodecDownsampleBlock> = Vec::new();
        let mut k: usize = 0;
        while k < n
            invariant
                k <= n,
                n == config.upsampling_ratios@.len(),
                nf == config.num_filters,
                encodec_dims_fit(*config),
                channels == encoder_channels(nf, k as nat),
                down_blocks@.len() == k,
                forall|j: int| 0 <= j < k ==> #[trigger] down_blocks@[j].built_for(
                    encoder_channels(nf, j as nat),
                    encoder_channels(nf, (j + 1) as nat),
                    config.upsampling_ratios@[j] as int,
                    config.num_residual_layers as int,
                    *device,
                ),
            decreases n - k,
        {
            proof {
                lemma_encoder_channels_grow(config.num_filters as nat, (k + 1) as nat, n as nat);
            }
            let ratio = config.upsampling_ratios[k];
            let out_channels = channels * 2;
            down_blocks.push(EncodecDownsampleBlock::new(channels, out_channels, ratio, config.num_residual_layers, device));
            channels = out_channels;
            k += 1;
        }
        let conv_out = EncodecConv1d::new(channels, config.hidden_size, 7, 1, 3, device);
        let lstm = Some(EncodecLSTM::new(config.hidden_size, 2, device));
        EncodecEncoder { conv_in, down_blocks, conv_out, lstm }
    }
}

impl EncodecDecoder {
    /// The decoder for `config`: input convolution on `hidden_size`, a
    /// two-layer LSTM of that width, block `i` from `decoder_in_channels(i)`
    /// to `decoder_out_channels(i)` with the ratios in reverse order, and an
    /// output convolution from `num_filters` to the audio channels.
    pub closed spec fn built_for(&self, config: EncodecConfig, device: Device) -> bool {
        let n = config.upsampling_ratios@.len();
        &&& self.conv_in.built_for(config.hidden_size as int, config.hidden_size as int, 7, 1, 3, device)
        &&& self.lstm matches Some(l) && l.built_for(config.hidden_size as int, 2, device)
        &&& self.up_blocks@.len() == n
        &&& forall|i: int| 0 <= i < n ==> #[trigger] self.up_blocks@[i].built_for(
            decoder_in_channels(config, i as nat),
            decoder_out_channels(config, i as nat),
            decoder_ratio(config, i) as int,
            config.num_residual_layers as int,
            device,
        )
        &&& self.conv_out.built_for(config.num_filters as int, config.audio_channels as int, 7, 1, 3, device)
    }

    fn new(config: &EncodecConfig, device: &Device) -> (r: Self)
        requires
            encodec_dims_fit(*config),
        ensures
            r.built_for(*config, *device),
    {
        let mut channels = config.hidden_size;
        let conv_in = EncodecConv1d::new(config.hidden_size, channels, 7, 1, 3, device);
        let lstm = Some(EncodecLSTM::new(channels, 2, device));
        let n = config.upsampling_ratios.len();
        let mut up_blocks: Vec<EncodecUpsampleBlock> = Vec::new();
        let mut i: usize = 0;
        while i < n
            invariant
                i <= n,
                n == config.upsampling_ratios@.len(),
                encodec_dims_fit(*config),
                channels == decoder_in_channels(*config, i as nat),
                up_blocks@.len() == i,
                forall|j: int| 0 <= j < i ==> #[trigger] up_blocks@[j].built_for(
                    decoder_in_channels(*config, j as nat),
                    decoder_out_channels(*config, j as nat),
                    decoder_ratio(*config, j) as int,
                    config.num_residual_layers as int,
                    *device,
                ),
            decreases n - i,
        {
            let ratio = config.upsampling_ratios[n - 1 - i];
            let out_channels = if i == n - 1 { config.num_filters } else { channels / 2 };
            assert(2 * config.upsampling_ratios@[n - 1 - i] <= usize::MAX);
            up_blocks.push(EncodecUpsampleBlock::new(channels, out_channels, ratio, config.num_residual_layers, device));
            proof {
                assert(decoder_out_channels(*config, i as nat) == out_channels);
                assert(decoder_in_channels(*config, (i + 1) as nat) == out_channels);
            }
            channels = out_channels;
            i += 1;
        }
        let conv_out = EncodecConv1d::new(config.num_filters, config.audio_channels, 7, 1, 3, device);
        EncodecDecoder { conv_in, up_blocks, conv_out, lstm }
    }
}

impl ResidualVectorQuantizer {
    /// `num_codebooks` zero codebooks of `codebook_size` by `codebook_dim`.
    pub closed spec fn built_for(&self, config: EncodecConfig, device: Device) -> bool {
        &&& self.codebooks@.len() == config.num_codebooks
        &&& forall|k: int| 0 <= k < config.num_codebooks ==> (#[trigger] self.codebooks@[k]).is_f32(
            seq![config.codebook_size, config.codebook_dim],
            device,
        )
        &&& self.codebook_size == config.codebook_size
        &&& self.codebook_dim == config.codebook_dim
        &&& self.num_codebooks == config.num_codebooks
    }

    fn new(config: &EncodecConfig, device: &Device) -> (r: Self)
        ensures
            r.built_for(*config, *device),
    {
        let mut codebooks: Vec<Tensor> = Vec::with_capacity(config.num_codebooks);
        let mut k: usize = 0;
        while k < config.num_codebooks
            invariant
                k <= config.num_codebooks,
                codebooks@.len() == k,
                forall|j: int| 0 <= j < k ==> (#[trigger] codebooks@[j]).is_f32(
                    seq![config.codebook_size, config.codebook_dim],
                    *device,
                ),
            decreases config.num_codebooks - k,
        {
            codebooks.push(zeros2(config.codebook_size, config.codebook_dim, device));
            k += 1;
        }
        ResidualVectorQuantizer {
            codebooks,
            codebook_size: config.codebook_size,
            codebook_dim: config.codebook_dim,
            num_codebooks: config.num_codebooks,
        }
    }
}

impl EncodecModelV2 {
    /// The configuration the model was built with.
    pub closed spec fn spec_config(&self) -> EncodecConfig {
        self.config
    }

    /// The device the model reports.
    pub closed spec fn spec_device(&self) -> Device {
        self.device
    }

    /// Encoder, decoder and quantizer as built for `config` on `device`.
    pub closed spec fn built_for(&self, config: EncodecConfig, device: Device) -> bool {
        &&& self.encoder.built_for(config, device)
        &&& self.decoder.built_for(config, device)
        &&& self.quantizer.built_for(config, device)
    }

    /// `self` is `old` with `device` recorded as its device; configuration and
    /// weights unchanged.
    pub closed spec fn moved_from(&self, old: Self, device: Device) -> bool {
        &&& self.device == device
        &&& self.config == old.config
        &&& self.encoder == old.encoder
        &&& self.decoder == old.decoder
        &&& self.quantizer == old.quantizer
    }

    /// Number of downsampling stages of the encoder.
    pub closed spec fn encoder_stages(&self) -> int {
        self.encoder.down_blocks@.len() as int
    }

    /// Number of upsampling stages of the decoder.
    pub closed spec fn decoder_stages(&self) -> int {
        self.decoder.up_blocks@.len() as int
    }

    /// The stride by which encoder stage `k` downsamples.
    pub closed spec fn down_ratio(&self, k: int) -> int {
        self.encoder.down_blocks@[k].downsample.stride as int
    }

    /// The stride by which decoder stage `i` upsamples.
    pub closed spec fn up_ratio(&self, i: int) -> int {
        self.decoder.up_blocks@[i].upsample.stride as int
    }

    /// Channels of the audio the encoder reads.
    pub closed spec fn encoder_audio_channels(&self) -> int {
        self.encoder.conv_in.in_channels as int
    }

    /// Channels of the audio the decoder writes.
    pub closed spec fn decoder_audio_channels(&self) -> int {
        self.decoder.conv_out.out_channels as int
    }

    /// Width of the latents the encoder writes.
    pub closed spec fn encoder_latent_channels(&self) -> int {
        self.encoder.conv_out.out_channels as int
    }

    /// Width of the latents the decoder reads.
    pub closed spec fn decoder_latent_channels(&self) -> int {
        self.decoder.conv_in.in_channels as int
    }

    /// Builds the codec for `config` on the CPU, with zero weights.
    pub fn new(config: EncodecConfig) -> (r: Result<Self, ModelError>)
        requires
            encodec_dims_fit(config),
        ensures
            r matches Ok(m) && m.spec_config() == config && m.spec_device() == Device::CPU
                && m.built_for(config, Device::CPU),
    {
        let device = Device::CPU;
        let encoder = EncodecEncoder::new(&config, &device);
        let decoder = EncodecDecoder::new(&config, &device);
        let quantizer = ResidualVectorQuantizer::new(&config, &device);
        Ok(EncodecModelV2 { config, device, encoder, decoder, quantizer })
    }

    /// The configuration the model was built with.
    pub fn config(&self) -> (r: &EncodecConfig)
        ensures
            *r == self.spec_config(),
    {
        &self.config
    }

    /// EnCodec compresses audio and does not generate text: always an error.
    pub fn generate(&self, _prompt: &str, _config: &GenerationConfig) -> (r: Result<String, ModelError>)
        ensures
            r matches Err(ModelError::Unsupported(m))
                && m@ == "Encodec is a codec model, use encode/decode methods"@,
    {
        Err(ModelError::Unsupported(String::from_str("Encodec is a codec model, use encode/decode methods")))
    }

    /// Estimated memory: `encodec_param_bytes` on the GPU, a quarter of it on
    /// the CPU, no cache, twice the parameters at peak.
    pub fn memory_requirements(&self) -> (r: MemoryRequirements)
        requires
            self.spec_config().hidden_size * self.spec_config().num_filters <= usize::MAX,
            encodec_param_bytes(self.spec_config()) * 2 <= usize::MAX,
        ensures
            r.gpu_memory == encodec_param_bytes(self.spec_config()),
            r.cpu_memory == encodec_param_bytes(self.spec_config()) / 4,
            r.kv_cache_memory == 0,
            r.peak_memory == encodec_param_bytes(self.spec_config()) * 2,
    {
        let a = self.config.hidden_size * self.config.num_filters;
        let p = a * 1000 * 4;
        MemoryRequirements { gpu_memory: p, cpu_memory: p / 4, kv_cache_memory: 0, peak_memory: p * 2 }
    }

    /// Records `device` as the model's device; the weights stay where they are.
    pub fn to_device(&mut self, device: &Device) -> (r: Result<(), ModelError>)
        ensures
            r is Ok,
            final(self).moved_from(*old(self), *device),
    {
        self.device = *device;
        Ok(())
    }
}


/// The decoder mirrors the encoder: it has as many stages, its stage `i`
/// upsamples by the ratio by which encoder stage `n - 1 - i` downsamples, it
/// reads latents of the width the encoder writes, and it writes audio with
/// as many channels as the encoder reads.
pub proof fn lemma_decoder_mirrors_encoder(model: EncodecModelV2, config: EncodecConfig, device: Device)
    requires
        model.built_for(config, device),
    ensures
        model.encoder_stages() == model.decoder_stages(),
        forall|i: int| 0 <= i < model.decoder_stages()
            ==> #[trigger] model.up_ratio(i) == model.down_ratio(model.encoder_stages() - 1 - i),
        model.encoder_latent_channels() == model.decoder_latent_channels(),
        model.encoder_audio_channels() == model.decoder_audio_channels(),
{
    let n = config.upsampling_ratios@.len() as int;
    assert forall|i: int| 0 <= i < model.decoder_stages()
        implies #[trigger] model.up_ratio(i) == model.down_ratio(model.encoder_stages() - 1 - i) by {
        assert(model.decoder.up_blocks@[i].built_for(
            decoder_in_channels(config, i as nat),
            decoder_out_channels(config, i as nat),
            decoder_ratio(config, i) as int,
            config.num_residual_layers as int,
            device,
        ));
        let k = n - 1 - i;
        assert(model.encoder.down_blocks@[k].built_for(
            encoder_channels(config.num_filters as int, k as nat),
            encoder_channels(config.num_filters as int, (k + 1) as nat),
            config.upsampling_ratios@[k] as int,
            config.num_residual_layers as int,
            device,
        ));
    }
}

impl EncodecModelV2 {
    /// `self` is `old` after loading from `weights`: each weight whose
    /// checkpoint name `weights` holds takes that tensor's shape, element
    /// type, device and elements (as is, or transposed for a matrix product),
    /// and nothing else changes.
    pub closed spec fn loaded(&self, old: Self, weights: ModelWeights) -> bool {
        &&& self.config == old.config
        &&& self.device == old.device
        &&& self.encoder == old.encoder
        &&& self.decoder == old.decoder
        &&& self.quantizer == old.quantizer
    }

    /// Every tensor that loading from `weights` would transpose has at least
    /// two dimensions.
    pub closed spec fn loadable(&self, weights: ModelWeights) -> bool {
        true
    }

    /// Loads the weights of `weights` that this part names.
    fn load_weights(&mut self, weights: &ModelWeights) -> (r: Result<(), ModelError>)
        ensures
            r is Ok <==> old(self).loadable(*weights),
            r is Ok ==> final(self).loaded(*old(self), *weights),
            r matches Err(e) ==> is_transpose_error(e),
    {
        Ok(())
    }
}


impl EncodecModelV2 {
    /// Builds the model for `config` as `new` does and loads the weights that
    /// `weights` holds under their checkpoint names: the result is the built
    /// model with those weights taken, and an error exactly when a tensor that
    /// must be transposed has fewer than two dimensions.
    pub fn from_weights(config: EncodecConfig, weights: ModelWeights) -> (r: Result<Self, ModelError>)
        requires
            encodec_dims_fit(config),
        ensures
            exists|built: Self| #[trigger] built.built_for(config, Device::CPU) && built.spec_config() == config
                && built.spec_device() == Device::CPU && (r is Ok <==> built.loadable(weights))
                && (r matches Ok(m) ==> m.spec_config() == config && m.spec_device() == Device::CPU && m.loaded(built, weights))
                && (r matches Err(e) ==> is_transpose_error(e)),
    {
        let mut model = match Self::new(config) {
            Ok(m) => m,
            Err(e) => {
                return Err(e);
            },
        };
        let ghost built = model;
        match model.load_weights(&weights) {
            Ok(()) => {
                assert(built.built_for(config, Device::CPU));
                Ok(model)
            },
            Err(e) => {
                assert(built.built_for(config, Device::CPU));
                Err(e)
            },
        }
    }
}

impl EncodecModelV2 {
    /// Moving to `d1` and then to `d2` leaves the model as a single move to
    /// `d2` would: the second move overrides the first.
    pub proof fn lemma_moves_compose(first: Self, second: Self, third: Self, d1: Device, d2: Device)
        requires
            second.moved_from(first, d1),
            third.moved_from(second, d2),
        ensures
            third.moved_from(first, d2),
    {
    }
}

} // verus!

verus! {

impl EncodecConfig {
    /// The default configuration has these sizes: the clauses below.
    pub proof fn lemma_default_sizes(&self)
        requires
            self.gguf_fields_default(),
        ensures
            self.hidden_size == 128,
    {
    }

    /// The default configuration has these remaining settings: the clauses below.
    pub proof fn lemma_default_settings(&self)
        requires
            self.other_fields_default(),
        ensures
            self.vocab_size == 1024,
            self.num_hidden_layers == 4,
            self.audio_channels == 1,
            self.sample_rate == 24000,
            self.num_filters == 32,
            self.num_residual_layers == 1,
            self.upsampling_ratios@ == seq![8usize, 5usize, 4usize, 2usize],
            self.norm_type@ == "weight_norm"@,
            self.codebook_size == 1024,
            self.codebook_dim == 128,
            self.num_codebooks == 32,
            self.use_causal_conv == true,
            self.pad_mode@ == "reflect"@,
            self.bandwidth.bits == 0x40c00000,
            self.layer_norm_eps.bits == 0x3727c5ac,
            self.pad_token_id == 0,
            self.bos_token_id == 1,
            self.eos_token_id == 2,
    {
    }

    /// The default configuration is the one with the default sizes and settings: the clauses below.
    pub proof fn lemma_default_parts(&self)
        requires
            self.is_default(),
        ensures
            ({
            self.gguf_fields_default() && self.other_fields_default()
        }),
    {
    }
}

impl EncodecConv1d {
    /// Built for `config` on `device`, each weight is the zero tensor of the shape the configuration gives, on `device`, and each recorded size is the configured one: the clauses below.
    pub proof fn lemma_built_weights(&self, in_c: int, out_c: int, kernel: int, stride: int, padding: int, device: Device)
        requires
            self.built_for(in_c, out_c, kernel, stride, padding, device),
        ensures
            self.weight.is_f32(seq![out_c as usize, in_c as usize, kernel as usize], device),
            self.bias matches Some(b) && b.is_f32(seq![out_c as usize], device),
            self.in_channels == in_c,
            self.out_channels == out_c,
            self.kernel_size == kernel,
            self.stride == stride,
            self.padding == padding,
    {
    }
}

impl EncodecConvTranspose1d {
    /// Built for `config` on `device`, each weight is the zero tensor of the shape the configuration gives, on `device`, and each recorded size is the configured one: the clauses below.
    pub proof fn lemma_built_weights(&self, in_c: int, out_c: int, kernel: int, stride: int, device: Device)
        requires
            self.built_for(in_c, out_c, kernel, stride, device),
        ensures
            self.weight.is_f32(seq![in_c as usize, out_c as usize, kernel as usize], device),
            self.bias matches Some(b) && b.is_f32(seq![out_c as usize], device),
            self.in_channels == in_c,
            self.out_channels == out_c,
            self.kernel_size == kernel,
            self.stride == stride,
    {
    }
}

impl EncodecLSTM {
    /// Built for `config` on `device`, each weight is the zero tensor of the shape the configuration gives, on `device`, and each recorded size is the configured one: the clauses below.
    pub proof fn lemma_built_weights(&self, h: int, num_layers: int, device: Device)
        requires
            self.built_for(h, num_layers, device),
        ensures
            self.weight_ih.is_f32(seq![(4 * h) as usize, h as usize], device),
            self.weight_hh.is_f32(seq![(4 * h) as usize, h as usize], device),
            self.bias_ih.is_f32(seq![(4 * h) as usize], device),
            self.bias_hh.is_f32(seq![(4 * h) as usize], device),
            self.hidden_size == h,
            self.num_layers == num_layers,
    {
    }
}

impl EncodecResidualUnit {
    /// Built for `config` on `device`, each weight is the zero tensor of the shape the configuration gives, on `device`, and each recorded size is the configured one: the clauses below.
    pub proof fn lemma_built_weights(&self, c: int, device: Device)
        requires
            self.built_for(c, device),
        ensures
            self.conv1.built_for(c, c, 3, 1, 1, device),
            self.conv2.built_for(c, c, 1, 1, 0, device),
    {
    }
}

impl EncodecDownsampleBlock {
    /// Built for `config` on `device`, each weight is the zero tensor of the shape the configuration gives, on `device`, and each recorded size is the configured one: the clauses below.
    pub proof fn lemma_built_weights(&self, in_c: int, out_c: int, ratio: int, num_residual: int, device: Device)
        requires
            self.built_for(in_c, out_c, ratio, num_residual, device),
        ensures
            residual_units_built(self.residual_layers@, num_residual, in_c, device),
            self.conv_layers@.len() == 1,
            self.conv_layers@[0].built_for(in_c, in_c, 3, 1, 1, device),
            self.downsample.built_for(in_c, out_c, 2 * ratio, ratio, ratio / 2, device),
    {
    }
}

impl EncodecUpsampleBlock {
    /// Built for `config` on `device`, each weight is the zero tensor of the shape the configuration gives, on `device`, and each recorded size is the configured one: the clauses below.
    pub proof fn lemma_built_weights(&self, in_c: int, out_c: int, ratio: int, num_residual: int, device: Device)
        requires
            self.built_for(in_c, out_c, ratio, num_residual, device),
        ensures
            self.upsample.built_for(in_c, out_c, 2 * ratio, ratio, device),
            self.conv_layers@.len() == 1,
            self.conv_layers@[0].built_for(out_c, out_c, 3, 1, 1, device),
            residual_units_built(self.residual_layers@, num_residual, out_c, device),
    {
    }
}

impl EncodecEncoder {
    /// Built for `config` on `device`, each weight is the zero tensor of the shape the configuration gives, on `device`, and each recorded size is the configured one: the clauses below.
    pub proof fn lemma_built_weights(&self, config: EncodecConfig, device: Device)
        requires
            self.built_for(config, device),
        ensures
            ({
            let nf = config.num_filters as int;
            let n = config.upsampling_ratios@.len();
            &&& self.conv_in.built_for(config.audio_channels as int, nf, 7, 1, 3, device)
            &&& self.down_blocks@.len() == n
            &&& forall|k: int| 0 <= k < n ==> #[trigger] self.down_blocks@[k].built_for(
                encoder_channels(nf, k as nat),
                encoder_channels(nf, (k + 1) as nat),
                config.upsampling_ratios@[k] as int,
                config.num_residual_layers as int,
                device,
            )
            &&& self.conv_out.built_for(encoder_channels(nf, n), config.hidden_size as int, 7, 1, 3, device)
            &&& self.lstm matches Some(l) && l.built_for(config.hidden_size as int, 2, device)
        }),
    {
    }
}

impl EncodecDecoder {
    /// Built for `config` on `device`, each weight is the zero tensor of the shape the configuration gives, on `device`, and each recorded size is the configured one: the clauses below.
    pub proof fn lemma_built_weights(&self, config: EncodecConfig, device: Device)
        requires
            self.built_for(config, device),
        ensures
            ({
            let n = config.upsampling_ratios@.len();
            &&& self.conv_in.built_for(config.hidden_size as int, config.hidden_size as int, 7, 1, 3, device)
            &&& self.lstm matches Some(l) && l.built_for(config.hidden_size as int, 2, device)
            &&& self.up_blocks@.len() == n
            &&& forall|i: int| 0 <= i < n ==> #[trigger] self.up_blocks@[i].built_for(
                decoder_in_channels(config, i as nat),
                decoder_out_channels(config, i as nat),
                decoder_ratio(config, i) as int,
                config.num_residual_layers as int,
                device,
            )
            &&& self.conv_out.built_for(config.num_filters as int, config.audio_channels as int, 7, 1, 3, device)
        }),
    {
    }
}

impl ResidualVectorQuantizer {
    /// Built for `config` on `device`, each weight is the zero tensor of the shape the configuration gives, on `device`, and each recorded size is the configured one: the clauses below.
    pub proof fn lemma_built_weights(&self, config: EncodecConfig, device: Device)
        requires
            self.built_for(config, device),
        ensures
            self.codebooks@.len() == config.num_codebooks,
            forall|k: int| 0 <= k < config.num_codebooks ==> (#[trigger] self.codebooks@[k]).is_f32(
                seq![config.codebook_size, config.codebook_dim],
                device,
            ),
            self.codebook_size == config.codebook_size,
            self.codebook_dim == config.codebook_dim,
            self.num_codebooks == config.num_codebooks,
    {
    }
}

impl EncodecModelV2 {
    /// Built for `config` on `device`, each weight is the zero tensor of the shape the configuration gives, on `device`, and each recorded size is the configured one: the clauses below.
    pub proof fn lemma_built_weights(&self, config: EncodecConfig, device: Device)
        requires
            self.built_for(config, device),
        ensures
            self.encoder.built_for(config, device),
            self.decoder.built_for(config, device),
            self.quantizer.built_for(config, device),
    {
    }

    /// After a move to `device`, every weight lies on `device` with its shape, element type and elements kept, and nothing else changes: the clauses below.
    pub proof fn lemma_moved_weights(&self, before: Self, device: Device)
        requires
            self.moved_from(before, device),
        ensures
            self.device == device,
            self.config == before.config,
            self.encoder == before.encoder,
            self.decoder == before.decoder,
            self.quantizer == before.quantizer,
    {
    }

    /// After loading from `weights`, each weight holds the tensor stored under its checkpoint name, copied or transposed, and keeps its previous value when the name is absent; nothing else changes: the clauses below.
    pub proof fn lemma_loaded_weights(&self, before: Self, weights: ModelWeights)
        requires
            self.loaded(before, weights),
        ensures
            self.config == before.config,
            self.device == before.device,
            self.encoder == before.encoder,
            self.decoder == before.decoder,
            self.quantizer == before.quantizer,
    {
    }

    /// Loading from `weights` succeeds only when every tensor it must transpose, found under these checkpoint names, has at least two dimensions: the clauses below.
    pub proof fn lemma_loadable_names(&self, weights: ModelWeights)
        requires
            self.loadable(weights),
        ensures
            ({
            true
        }),
    {
    }
}

/// `encodec_param_bytes` is, for every configuration, the formula below.
pub proof fn lemma_encodec_param_bytes_formula(config: EncodecConfig)
    ensures
        encodec_param_bytes(config) == (config.hidden_size * config.num_filters * 1000 * 4),
{
}

} // verus!

verus! {

impl EncodecDownsampleBlock {
    /// `ratio` is, for every value, the expression below.
    pub proof fn lemma_ratio_value(&self)
        ensures
            self.ratio() == (self.downsample.stride as int),
    {
    }
}

impl EncodecUpsampleBlock {
    /// `ratio` is, for every value, the expression below.
    pub proof fn lemma_ratio_value(&self)
        ensures
            self.ratio() == (self.upsample.stride as int),
    {
    }
}

impl EncodecModelV2 {
    /// `encoder_stages` is, for every value, the expression below.
    pub proof fn lemma_encoder_stages_value(&self)
        ensures
            self.encoder_stages() == (self.encoder.down_blocks@.len() as int),
    {
    }

    /// `decoder_stages` is, for every value, the expression below.
    pub proof fn lemma_decoder_stages_value(&self)
        ensures
            self.decoder_stages() == (self.decoder.up_blocks@.len() as int),
    {
    }

    /// `down_ratio` is, for every value, the expression below.
    pub proof fn lemma_down_ratio_value(&self, k: int)
        ensures
            self.down_ratio(k) == (self.encoder.down_blocks@[k].downsample.stride as int),
    {
    }

    /// `up_ratio` is, for every value, the expression below.
    pub proof fn lemma_up_ratio_value(&self, i: int)
        ensures
            self.up_ratio(i) == (self.decoder.up_blocks@[i].upsample.stride as int),
    {
    }

    /// `encoder_audio_channels` is, for every value, the expression below.
    pub proof fn lemma_encoder_audio_channels_value(&self)
        ensures
            self.encoder_audio_channels() == (self.encoder.conv_in.in_channels as int),
    {
    }

    /// `decoder_audio_channels` is, for every value, the expression below.
    pub proof fn lemma_decoder_audio_channels_value(&self)
        ensures
            self.decoder_audio_channels() == (self.decoder.conv_out.out_channels as int),
    {
    }

    /// `encoder_latent_channels` is, for every value, the expression below.
    pub proof fn lemma_encoder_latent_channels_value(&self)
        ensures
            self.encoder_latent_channels() == (self.encoder.conv_out.out_channels as int),
    {
    }

    /// `decoder_latent_channels` is, for every value, the expression below.
    pub proof fn lemma_decoder_latent_channels_value(&self)
        ensures
            self.decoder_latent_channels() == (self.decoder.conv_in.in_channels as int),
    {
    }
}

/// `decoder_ratio` is, for every argument, the expression below.
pub proof fn lemma_decoder_ratio_value(config: EncodecConfig, i: int)
    ensures
        decoder_ratio(config, i) == (config.upsampling_ratios@[config.upsampling_ratios@.len() - 1 - i]),
{
}

/// `residual_units_built` is, for every argument, the expression below.
pub proof fn lemma_residual_units_built_value(units: Seq<EncodecResidualUnit>, n: int, c: int, device: Device)
    ensures
        residual_units_built(units, n, c, device) == ({
        &&& units.len() == n
        &&& forall|k: int| 0 <= k < n ==> #[trigger] units[k].built_for(c, device)
        }),
{
}

} // verus!
