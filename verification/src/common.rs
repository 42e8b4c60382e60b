//! Values shared by every model: floating-point hyperparameters carried as
//! their bit patterns, the memory estimate of a model, and errors.
use vstd::prelude::*;

verus! {

/// A 32-bit floating-point hyperparameter (an epsilon, a base, a scale),
/// held as its IEEE 754 binary32 bit pattern. The library copies such values
/// from one configuration to another and never computes with them.
#[derive(Clone, Copy, Debug, PartialEq, Eq, Structural)]
pub struct F32Bits {
    pub bits: u32,
}

impl F32Bits {
    pub fn from_bits(bits: u32) -> (r: F32Bits)
        ensures
            r.bits == bits,
    {
        F32Bits { bits }
    }
}

/// Estimated memory footprint of a model, in bytes.
#[derive(Clone, Copy, Debug, PartialEq, Eq, Structural)]
pub struct MemoryRequirements {
    pub gpu_memory: usize,
    pub cpu_memory: usize,
    pub kv_cache_memory: usize,
    pub peak_memory: usize,
}

/// Why a model refused a request.
#[derive(Debug)]
pub enum ModelError {
    /// The model does not offer this operation; the message says what it offers.
    Unsupported(String),
    /// The configuration names something the model does not know.
    InvalidConfig(String),
    /// A checkpoint's tensor cannot serve as the weight it names.
    InvalidWeights(String),
    /// An input does not have the shape the operation reads.
    InvalidInput(String),
}

impl ModelError {
    /// The error's message.
    pub fn message(&self) -> (r: String)
        ensures
            match self {
                ModelError::Unsupported(m) => r@ == m@,
                ModelError::InvalidConfig(m) => r@ == m@,
                ModelError::InvalidWeights(m) => r@ == m@,
                ModelError::InvalidInput(m) => r@ == m@,
            },
    {
        match self {
            ModelError::Unsupported(m) => m.clone(),
            ModelError::InvalidConfig(m) => m.clone(),
            ModelError::InvalidWeights(m) => m.clone(),
            ModelError::InvalidInput(m) => m.clone(),
        }
    }
}

} // verus!

verus! {

/// Settings of a text-generation request.
#[derive(Clone, Copy, Debug)]
pub struct GenerationConfig {
    /// Most tokens to append to the prompt.
    pub max_new_tokens: usize,
    /// Softmax temperature used when sampling.
    pub temperature: F32Bits,
    /// Sample from the distribution (otherwise pick the most likely token).
    pub do_sample: bool,
    /// The token that ends generation.
    pub eos_token_id: u32,
}

impl Default for GenerationConfig {
    /// The empty request: no new tokens, greedy choice, temperature one,
    /// token 0 as end of sequence.
    fn default() -> (r: Self)
        ensures
            r.max_new_tokens == 0,
            r.temperature.bits == 0x3f800000,
            !r.do_sample,
            r.eos_token_id == 0,
    {
        GenerationConfig {
            max_new_tokens: 0,
            temperature: F32Bits::from_bits(0x3f800000),
            do_sample: false,
            eos_token_id: 0,
        }
    }
}

} // verus!
