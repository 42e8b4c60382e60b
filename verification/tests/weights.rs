use model_runtime::common::ModelError;
use model_runtime::gpt2::{GPT2Config, GPT2ModelV2};
use model_runtime::llama::{LlamaConfig, LlamaModelV2};
use model_runtime::llava::{LLaVAConfig, LLaVAModelV2};
use model_runtime::mamba::{MambaConfig, MambaModelV2};
use model_runtime::tensor::{transpose, zeros1, zeros2, DataType, Device, Tensor, TensorData};
use model_runtime::weights::{
    decimal_string, indexed_name, joined_name, load_conv, load_copy, load_transposed, twice_indexed_name, ModelWeights,
};

fn small_llama() -> LlamaConfig {
    LlamaConfig {
        vocab_size: 10,
        hidden_size: 8,
        intermediate_size: 16,
        num_hidden_layers: 2,
        num_attention_heads: 2,
        num_key_value_heads: 2,
        ..Default::default()
    }
}

#[test]
fn test_decimal_names() {
    assert_eq!(decimal_string(0), "0");
    assert_eq!(decimal_string(7), "7");
    assert_eq!(decimal_string(10), "10");
    assert_eq!(decimal_string(4096), "4096");
    assert_eq!(indexed_name("model.layers.", 12, ".mlp.up_proj.weight"), "model.layers.12.mlp.up_proj.weight");
    assert_eq!(
        twice_indexed_name("model.layers.", 3, ".block_sparse_moe.experts.", 5, ".w1.weight"),
        "model.layers.3.block_sparse_moe.experts.5.w1.weight"
    );
    assert_eq!(joined_name("text_model", ".encoder.layers."), "text_model.encoder.layers.");
}

#[test]
fn test_weights_store_and_replace() {
    let cpu = Device::CPU;
    let mut w = ModelWeights::new();
    assert!(w.get("a").is_none());
    w.insert("a".to_string(), zeros1(3, &cpu));
    w.insert("b".to_string(), zeros2(2, 5, &cpu));
    assert_eq!(w.get("a").unwrap().shape(), &[3]);
    w.insert("a".to_string(), zeros2(4, 4, &cpu));
    assert_eq!(w.get("a").unwrap().shape(), &[4, 4]);
    assert_eq!(w.get("b").unwrap().shape(), &[2, 5]);
    assert!(w.get("c").is_none());
}

#[test]
fn test_from_weights_without_tensors_is_the_built_model() {
    let model = LlamaModelV2::from_weights(small_llama(), ModelWeights::new()).unwrap();
    assert_eq!(model.config().num_layers(), 2);
}

#[test]
fn test_from_weights_takes_named_tensors() {
    let cpu = Device::CPU;
    let mut w = ModelWeights::new();
    w.insert("lm_head.weight".to_string(), zeros2(10, 8, &cpu));
    w.insert("model.layers.1.self_attn.q_proj.weight".to_string(), zeros2(8, 8, &cpu));
    w.insert("model.norm.weight".to_string(), zeros1(8, &cpu));
    assert!(LlamaModelV2::from_weights(small_llama(), w).is_ok());
}

#[test]
fn test_from_weights_refuses_a_flat_matrix() {
    let cpu = Device::CPU;
    let mut w = ModelWeights::new();
    w.insert("model.layers.1.mlp.down_proj.weight".to_string(), zeros1(8, &cpu));
    match LlamaModelV2::from_weights(small_llama(), w) {
        Err(ModelError::InvalidWeights(m)) => {
            assert_eq!(m, "a weight to transpose has fewer than two dimensions")
        },
        _ => panic!("expected an invalid-weights error"),
    }
}

#[test]
fn test_flat_tensor_that_is_copied_is_accepted() {
    let cpu = Device::CPU;
    let mut w = ModelWeights::new();
    w.insert("model.layers.0.input_layernorm.weight".to_string(), zeros1(8, &cpu));
    // A layer past the model's depth is never looked up.
    w.insert("model.layers.5.mlp.down_proj.weight".to_string(), zeros1(8, &cpu));
    assert!(LlamaModelV2::from_weights(small_llama(), w).is_ok());
}

#[test]
fn test_tied_gpt2_head_ignores_lm_head_weight() {
    let cpu = Device::CPU;
    let mut w = ModelWeights::new();
    w.insert("lm_head.weight".to_string(), zeros1(3, &cpu));
    let config = GPT2Config {
        vocab_size: 10,
        hidden_size: 8,
        intermediate_size: 16,
        num_hidden_layers: 1,
        num_attention_heads: 2,
        num_key_value_heads: 2,
        max_position_embeddings: 16,
        tie_word_embeddings: true,
        ..Default::default()
    };
    assert!(GPT2ModelV2::from_weights(config.clone(), w).is_ok());
    let mut w2 = ModelWeights::new();
    w2.insert("lm_head.weight".to_string(), zeros1(3, &cpu));
    let untied = GPT2Config { tie_word_embeddings: false, ..config };
    assert!(GPT2ModelV2::from_weights(untied, w2).is_err());
}

#[test]
fn test_mamba_conv_weight_and_fallback_names() {
    let cpu = Device::CPU;
    let mut w = ModelWeights::new();
    w.insert("model.embed_tokens.weight".to_string(), zeros2(10, 8, &cpu));
    w.insert("backbone.layers.0.mixer.conv1d.weight".to_string(), model_runtime::tensor::zeros3(16, 1, 4, &cpu));
    let config = MambaConfig { vocab_size: 10, hidden_size: 8, num_hidden_layers: 1, ..Default::default() };
    assert!(MambaModelV2::from_weights(config, w).is_ok());
}

#[test]
fn test_llava_from_weights_refuses_unknown_projector() {
    let config = LLaVAConfig {
        vocab_size: 100,
        hidden_size: 32,
        intermediate_size: 64,
        num_hidden_layers: 1,
        num_attention_heads: 4,
        num_key_value_heads: 4,
        vision_hidden_size: 16,
        vision_intermediate_size: 32,
        vision_num_hidden_layers: 1,
        vision_num_attention_heads: 4,
        vision_patch_size: 14,
        vision_image_size: 28,
        mm_projector_type: "resampler".to_string(),
        ..Default::default()
    };
    match LLaVAModelV2::from_weights(config, ModelWeights::new()) {
        Err(ModelError::InvalidConfig(m)) => assert_eq!(m, "Unsupported projector type: resampler"),
        _ => panic!("expected an invalid-configuration error"),
    }
}

fn held_values(t: &Tensor) -> Option<Vec<u64>> {
    match &t.data {
        TensorData::Values(v) => Some(v.clone()),
        TensorData::Zeros => None,
    }
}

fn counting(shape: &[usize], n: u64) -> Tensor {
    let values: Vec<u64> = (0..n).collect();
    Tensor::from_values(shape, DataType::Float32, &Device::CPU, values).unwrap()
}

#[test]
fn test_tensor_from_values_checks_the_count() {
    let cpu = Device::CPU;
    assert!(Tensor::from_values(&[2, 3], DataType::Float32, &cpu, vec![0; 6]).is_some());
    assert!(Tensor::from_values(&[2, 3], DataType::Float32, &cpu, vec![0; 5]).is_none());
    assert!(Tensor::from_values(&[2, 3], DataType::Float32, &cpu, vec![0; 7]).is_none());
    assert!(Tensor::from_values(&[4, 0, 7], DataType::Int64, &cpu, vec![]).is_some());
    assert!(Tensor::from_values(&[2, 0], DataType::Int64, &cpu, vec![1]).is_none());
    assert!(Tensor::from_values(&[], DataType::Int64, &cpu, vec![9]).is_some());
    assert!(Tensor::from_values(&[usize::MAX, 2], DataType::Int64, &cpu, vec![1]).is_none());
    let t = Tensor::from_values(&[3], DataType::Float32, &cpu, vec![1.5f32.to_bits() as u64, 0, 7]).unwrap();
    assert_eq!(t.shape(), &[3]);
    assert_eq!(held_values(&t), Some(vec![0x3fc0_0000, 0, 7]));
}

#[test]
fn test_transpose_moves_the_elements() {
    let t = transpose(&counting(&[2, 3], 6));
    assert_eq!(t.shape(), &[3, 2]);
    assert_eq!(held_values(&t), Some(vec![0, 3, 1, 4, 2, 5]));
    let batched = transpose(&counting(&[2, 2, 3], 12));
    assert_eq!(batched.shape(), &[2, 3, 2]);
    assert_eq!(held_values(&batched), Some(vec![0, 3, 1, 4, 2, 5, 6, 9, 7, 10, 8, 11]));
    let back = transpose(&t);
    assert_eq!(back.shape(), &[2, 3]);
    assert_eq!(held_values(&back), Some(vec![0, 1, 2, 3, 4, 5]));
}

#[test]
fn test_transpose_of_zeros_stays_zeros() {
    let t = transpose(&zeros2(4, 5, &Device::CPU));
    assert_eq!(t.shape(), &[5, 4]);
    assert!(matches!(t.data, TensorData::Zeros));
}

#[test]
fn test_weights_hold_the_stored_values() {
    let mut w = ModelWeights::new();
    w.insert("a".to_string(), counting(&[2, 2], 4));
    w.insert("b".to_string(), counting(&[2, 2], 4));
    w.insert("b".to_string(), transpose(&counting(&[2, 2], 4)));
    assert_eq!(held_values(w.get("a").unwrap()), Some(vec![0, 1, 2, 3]));
    assert_eq!(held_values(w.get("b").unwrap()), Some(vec![0, 2, 1, 3]));
}

#[test]
fn test_loading_takes_the_checkpoint_elements() {
    let cpu = Device::CPU;
    let mut w = ModelWeights::new();
    w.insert("proj.weight".to_string(), counting(&[2, 3], 6));
    w.insert("conv.weight".to_string(), counting(&[2, 1, 3], 6));
    let mut copied = zeros2(2, 3, &cpu);
    load_copy(&mut copied, &w, "proj.weight");
    assert_eq!(copied.shape(), &[2, 3]);
    assert_eq!(held_values(&copied), Some(vec![0, 1, 2, 3, 4, 5]));
    let mut flipped = zeros2(3, 2, &cpu);
    assert!(load_transposed(&mut flipped, &w, "proj.weight").is_ok());
    assert_eq!(flipped.shape(), &[3, 2]);
    assert_eq!(held_values(&flipped), Some(vec![0, 3, 1, 4, 2, 5]));
    let mut conv = zeros2(2, 3, &cpu);
    load_conv(&mut conv, &w, "conv.weight");
    assert_eq!(conv.shape(), &[2, 3]);
    assert_eq!(held_values(&conv), Some(vec![0, 1, 2, 3, 4, 5]));
    let mut untouched = zeros1(4, &cpu);
    load_copy(&mut untouched, &w, "missing.weight");
    assert!(matches!(untouched.data, TensorData::Zeros));
}

#[test]
fn test_moving_keeps_the_elements() {
    let t = counting(&[2, 2], 4);
    let moved = t.to_device(&Device::CUDA(1));
    assert_eq!(moved.device, Device::CUDA(1));
    assert_eq!(moved.shape(), &[2, 2]);
    assert_eq!(held_values(&moved), Some(vec![0, 1, 2, 3]));
    assert_eq!(held_values(&moved.duplicate()), Some(vec![0, 1, 2, 3]));
}
