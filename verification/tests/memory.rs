use model_runtime::hubert::{HuBERTConfig, HuBERTModelV2};
use model_runtime::llama::{LlamaConfig, LlamaModelV2};
use model_runtime::mamba::{MambaConfig, MambaModelV2};
use model_runtime::minicpm::{MiniCPMConfig, MiniCPMModelV2};

#[test]
fn test_llama_memory_estimate() {
    let config = LlamaConfig {
        vocab_size: 1000,
        hidden_size: 128,
        intermediate_size: 512,
        num_hidden_layers: 2,
        num_attention_heads: 8,
        ..Default::default()
    };
    let m = LlamaModelV2::new(config).unwrap().memory_requirements();
    // (1000 * 128 + 2 * (4 * 128 * 128 + 3 * 128 * 512)) * 4
    assert_eq!(m.gpu_memory, 2609152);
    assert_eq!(m.cpu_memory, 652288);
    // 2 * 2 * 2048 * 128 * 4
    assert_eq!(m.kv_cache_memory, 4194304);
    assert_eq!(m.peak_memory, 2609152 + 4194304);
}

#[test]
fn test_mamba_memory_estimate() {
    let config = MambaConfig {
        vocab_size: 1000,
        hidden_size: 128,
        num_hidden_layers: 2,
        d_state: 8,
        d_conv: 4,
        expand: 2,
        ..Default::default()
    };
    let m = MambaModelV2::new(config).unwrap().memory_requirements();
    assert_eq!(m.gpu_memory, 1390592);
    assert_eq!(m.cpu_memory, 347648);
    assert_eq!(m.kv_cache_memory, 22528);
    assert_eq!(m.peak_memory, 2085888);
}

#[test]
fn test_hubert_memory_estimate() {
    let config = HuBERTConfig {
        hidden_size: 64,
        intermediate_size: 256,
        num_hidden_layers: 2,
        num_attention_heads: 4,
        ..Default::default()
    };
    let m = HuBERTModelV2::new(config).unwrap().memory_requirements();
    assert_eq!(m.gpu_memory, 131072);
    assert_eq!(m.cpu_memory, 32768);
    assert_eq!(m.kv_cache_memory, 0);
    assert_eq!(m.peak_memory, 262144);
}

#[test]
fn test_minicpm_memory_estimate() {
    let config = MiniCPMConfig {
        vocab_size: 100,
        hidden_size: 64,
        intermediate_size: 128,
        num_hidden_layers: 1,
        num_attention_heads: 4,
        num_key_value_heads: 4,
        max_position_embeddings: 512,
        ..Default::default()
    };
    let m = MiniCPMModelV2::new(config).unwrap().memory_requirements();
    // (100 * 64 + 1 * 64 * 64 * 4) * 4
    assert_eq!(m.gpu_memory, 91136);
    assert_eq!(m.cpu_memory, 22784);
    assert_eq!(m.kv_cache_memory, 512 * 64 * 2 * 4);
    assert_eq!(m.peak_memory, 91136 + 45568);
}
