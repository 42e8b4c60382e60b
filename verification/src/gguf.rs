//! The model configuration read from a GGUF file's metadata.
use vstd::prelude::*;
use crate::common::F32Bits;

verus! {

/// Architecture hyperparameters found in a GGUF file's metadata.
#[derive(Clone, Debug)]
pub struct GGUFModelConfig {
    pub architecture: String,
    pub vocab_size: usize,
    pub hidden_size: usize,
    pub intermediate_size: usize,
    pub num_hidden_layers: usize,
    pub num_attention_heads: usize,
    pub num_key_value_heads: usize,
    pub head_dim: usize,
    pub rms_norm_eps: F32Bits,
    pub rope_theta: F32Bits,
    pub max_position_embeddings: usize,
}

} // verus!
