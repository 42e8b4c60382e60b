use model_runtime::chatglm::ChatGLMConfig;
use model_runtime::clip::CLIPConfig;
use model_runtime::common::F32Bits;
use model_runtime::encodec::EncodecConfig;
use model_runtime::gguf::GGUFModelConfig;
use model_runtime::hubert::HuBERTConfig;
use model_runtime::internvl::InternVLConfig;
use model_runtime::jamba::JambaConfig;
use model_runtime::llama::LlamaConfig;
use model_runtime::llava::LLaVAConfig;
use model_runtime::mamba::{compute_auto_dt_rank, MambaConfig};

fn gguf(architecture: &str) -> GGUFModelConfig {
    GGUFModelConfig {
        architecture: architecture.to_string(),
        vocab_size: 65024,
        hidden_size: 4096,
        intermediate_size: 13696,
        num_hidden_layers: 28,
        num_attention_heads: 32,
        num_key_value_heads: 2,
        head_dim: 128,
        rms_norm_eps: F32Bits::from_bits(1e-5f32.to_bits()),
        rope_theta: F32Bits::from_bits(10000.0f32.to_bits()),
        max_position_embeddings: 8192,
    }
}

#[test]
fn test_chatglm_from_gguf_config() {
    let gguf_config = gguf("chatglm");
    let config = ChatGLMConfig::from_gguf_config(&gguf_config);
    assert_eq!(config.vocab_size, 65024);
    assert_eq!(config.hidden_size, 4096);
    assert_eq!(config.num_key_value_heads, 2);
    assert_eq!(config.kv_channels, 128);
}

#[test]
fn test_clip_config_creation() {
    let config = CLIPConfig::default();
    assert_eq!(config.vocab_size(), 49408);
    assert_eq!(config.hidden_size(), 512);
    assert_eq!(config.num_layers(), 12);
    assert_eq!(config.num_patches(), 49);
    assert_eq!(config.num_positions(), 50);
}

#[test]
fn test_encodec_config() {
    let config = EncodecConfig::default();
    assert_eq!(config.hidden_size, 128);
    assert_eq!(config.num_codebooks, 32);
    assert_eq!(config.codebook_size, 1024);
}

#[test]
fn test_hubert_config() {
    let config = HuBERTConfig::default();
    assert_eq!(config.hidden_size, 768);
}

#[test]
fn test_internvl_config() {
    let config = InternVLConfig::default();
    assert_eq!(config.vocab_size, 92544);
}

#[test]
fn test_jamba_config() {
    let config = JambaConfig::default();
    assert_eq!(config.vocab_size, 65536);
    assert_eq!(config.hidden_size, 4096);
    assert_eq!(config.num_experts, 16);
    assert_eq!(config.attn_layer_period, 8);
}

#[test]
fn test_jamba_layer_type_selection() {
    let config = JambaConfig { attn_layer_period: 4, attn_layer_offset: 2, ..Default::default() };
    assert!(config.is_attention_layer(2));
    assert!(!config.is_attention_layer(3));
    assert!(config.is_attention_layer(6));
}

#[test]
fn test_jamba_attention_layers_repeat_with_period() {
    let config = JambaConfig { attn_layer_period: 4, attn_layer_offset: 2, ..Default::default() };
    for layer in 0..32usize {
        assert_eq!(config.is_attention_layer(layer), config.is_attention_layer(layer + 4));
        assert_eq!(config.is_attention_layer(layer), layer % 4 == 2);
    }
}

#[test]
fn test_jamba_first_attention_layer_is_the_offset() {
    let config = JambaConfig { attn_layer_period: 8, attn_layer_offset: 3, ..Default::default() };
    let attention: Vec<usize> = (0..32usize).filter(|&i| config.is_attention_layer(i)).collect();
    assert_eq!(attention, vec![3, 11, 19, 27]);
    let defaults = JambaConfig::default();
    let attention: Vec<usize> = (0..32usize).filter(|&i| defaults.is_attention_layer(i)).collect();
    assert_eq!(attention, vec![4, 12, 20, 28]);
}

#[test]
fn test_jamba_effective_mamba_sizes() {
    let config = JambaConfig::default();
    assert_eq!(config.effective_mamba_d_inner(), config.hidden_size * config.expand);
    assert_eq!(config.effective_mamba_dt_rank(), 256);
    let set = JambaConfig { mamba_d_inner: 100, mamba_dt_rank: 7, ..Default::default() };
    assert_eq!(set.effective_mamba_d_inner(), 100);
    assert_eq!(set.effective_mamba_dt_rank(), 7);
}

#[test]
fn test_llava_config_defaults() {
    let config = LLaVAConfig::default();
    assert_eq!(config.vocab_size, 32000);
    assert_eq!(config.hidden_size, 4096);
    assert_eq!(config.vision_hidden_size, 1024);
    assert_eq!(config.num_patches(), 576);
}

#[test]
fn test_llava_vision_positions() {
    let config = LLaVAConfig::default();
    assert_eq!(config.num_vision_positions(), 577);
}

#[test]
fn test_mamba_config() {
    let config = MambaConfig::default();
    assert_eq!(config.vocab_size, 50280);
    assert_eq!(config.hidden_size, 768);
    assert_eq!(config.effective_d_inner(), 768 * 2);
    assert_eq!(config.effective_dt_rank(), 48);
}

#[test]
fn test_auto_dt_rank_is_the_ceiling_of_a_sixteenth() {
    assert_eq!(compute_auto_dt_rank(0), 1);
    assert_eq!(compute_auto_dt_rank(1), 1);
    assert_eq!(compute_auto_dt_rank(16), 1);
    assert_eq!(compute_auto_dt_rank(17), 2);
    assert_eq!(compute_auto_dt_rank(768), 48);
    assert_eq!(compute_auto_dt_rank(770), 49);
}

#[test]
fn test_mamba_from_gguf_config() {
    let g = GGUFModelConfig { hidden_size: 100, ..gguf("mamba") };
    let config = MambaConfig::from_gguf_config(&g);
    assert_eq!(config.vocab_size, 65024);
    assert_eq!(config.hidden_size, 100);
    assert_eq!(config.num_hidden_layers, 28);
    assert_eq!(config.d_inner, 200);
    assert_eq!(config.dt_rank, 7);
    assert_eq!(config.d_state, 16);
    assert_eq!(config.d_conv, 4);
    assert_eq!(f32::from_bits(config.layer_norm_epsilon.bits), 1e-5f32);
    assert!(config.tie_embeddings);
}

#[test]
fn test_mamba_explicit_sizes_win() {
    let config = MambaConfig { d_inner: 300, dt_rank: 5, ..Default::default() };
    assert_eq!(config.effective_d_inner(), 300);
    assert_eq!(config.effective_dt_rank(), 5);
}

#[test]
fn test_llama_from_gguf_config() {
    let config = LlamaConfig::from_gguf_config(&gguf("llama"));
    assert_eq!(config.vocab_size, 65024);
    assert_eq!(config.hidden_size, 4096);
    assert_eq!(config.intermediate_size, 13696);
    assert_eq!(config.num_hidden_layers, 28);
    assert_eq!(config.num_attention_heads, 32);
    assert_eq!(config.num_key_value_heads, 2);
    assert_eq!(config.max_position_embeddings, 8192);
    assert_eq!(f32::from_bits(config.rope_theta.bits), 10000.0f32);
    assert_eq!(f32::from_bits(config.rms_norm_eps.bits), 1e-5f32);
}

#[test]
fn test_clip_head_dims() {
    let config = CLIPConfig::default();
    assert_eq!(config.text_head_dim(), config.transformer_width / config.transformer_heads);
    assert_eq!(config.vision_head_dim(), config.vision_width / config.vision_heads);
}

#[test]
fn test_config_defaults_hold_float_bits() {
    let config = LlamaConfig::default();
    assert_eq!(f32::from_bits(config.rms_norm_eps.bits), 1e-6f32);
    assert_eq!(f32::from_bits(config.rope_theta.bits), 10000.0f32);
}

#[test]
fn test_auto_dt_rank_matches_single_precision() {
    let widths: Vec<usize> = vec![
        0, 1, 15, 16, 17, 768, 4096, 16_777_215, 16_777_216, 16_777_217, 16_777_219, 16_777_221,
        33_554_437, 123_456_789_012, usize::MAX / 3, usize::MAX - 1, usize::MAX,
    ];
    for h in widths {
        let expected = ((h as f32 / 16.0).ceil() as usize).max(1);
        assert_eq!(compute_auto_dt_rank(h), expected, "width {}", h);
    }
}
