//! Model architectures for the inference runtime: configuration records,
//! the structure of each network (which weights exist, with which shapes,
//! on which device), loading named checkpoint tensors into it, the memory
//! estimates, and the token bookkeeping of generation, with their contracts
//! proved by Verus.
pub mod tensor;
pub mod common;
pub mod gguf;
pub mod generation;
pub mod weights;
pub mod attention;
pub mod baichuan;
pub mod bert;
pub mod bloom;
pub mod chatglm;
pub mod clip;
pub mod cogvlm;
pub mod dbrx;
pub mod encodec;
pub mod falcon;
pub mod florence;
pub mod gemma;
pub mod gpt2;
pub mod gptj;
pub mod gptneox;
pub mod hubert;
pub mod internvl;
pub mod jamba;
pub mod llama;
pub mod llava;
pub mod mamba;
pub mod minicpm;
pub mod mixtral;
pub mod mpt;
pub mod opt;
