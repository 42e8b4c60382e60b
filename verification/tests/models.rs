use model_runtime::baichuan::{BaichuanConfig, BaichuanModelV2};
use model_runtime::bert::{BertConfig, BertModelV2};
use model_runtime::bloom::{BLOOMConfig, BLOOMModelV2};
use model_runtime::chatglm::{ChatGLMConfig, ChatGLMModelV2};
use model_runtime::clip::{CLIPConfig, CLIPModelV2};
use model_runtime::common::{GenerationConfig, ModelError};
use model_runtime::dbrx::{DbrxConfig, DbrxModelV2};
use model_runtime::encodec::{EncodecConfig, EncodecModelV2};
use model_runtime::falcon::{FalconConfig, FalconModelV2};
use model_runtime::gemma::{GemmaConfig, GemmaModelV2};
use model_runtime::gpt2::{GPT2Config, GPT2ModelV2};
use model_runtime::gptj::{GPTJConfig, GPTJModelV2};
use model_runtime::gptneox::{GPTNeoXConfig, GPTNeoXModelV2};
use model_runtime::hubert::{HuBERTConfig, HuBERTModelV2};
use model_runtime::jamba::{JambaConfig, JambaModelV2};
use model_runtime::llama::{LlamaConfig, LlamaModelV2};
use model_runtime::llava::{LLaVAConfig, LLaVAModelV2};
use model_runtime::mamba::{MambaConfig, MambaModelV2};
use model_runtime::minicpm::{MiniCPMConfig, MiniCPMModelV2};
use model_runtime::mixtral::{MixtralConfig, MixtralModelV2};
use model_runtime::mpt::{MPTConfig, MPTModelV2};
use model_runtime::opt::{OPTConfig, OPTModelV2};
use model_runtime::tensor::Device;

#[test]
fn test_baichuan_model_creation() {
    let config = BaichuanConfig {
        vocab_size: 1000,
        hidden_size: 128,
        intermediate_size: 512,
        num_hidden_layers: 2,
        num_attention_heads: 8,
        num_key_value_heads: 8,
        ..Default::default()
    };
    let model = BaichuanModelV2::new(config).unwrap();
    assert_eq!(model.config().vocab_size(), 1000);
    assert_eq!(model.config().hidden_size(), 128);
    assert_eq!(model.config().num_layers(), 2);
}

#[test]
fn test_bert_model_creation() {
    let config = BertConfig {
        vocab_size: 1000,
        hidden_size: 128,
        intermediate_size: 512,
        num_hidden_layers: 2,
        num_attention_heads: 4,
        ..Default::default()
    };
    let model = BertModelV2::new(config).unwrap();
    assert_eq!(model.config().vocab_size(), 1000);
    assert_eq!(model.config().hidden_size(), 128);
    assert_eq!(model.config().num_layers(), 2);
}

#[test]
fn test_bert_generate_returns_error() {
    let config = BertConfig {
        vocab_size: 100,
        hidden_size: 64,
        intermediate_size: 256,
        num_hidden_layers: 1,
        num_attention_heads: 4,
        ..Default::default()
    };
    let model = BertModelV2::new(config).unwrap();
    let gen_config = GenerationConfig::default();
    let result = model.generate("Hello", &gen_config);
    assert!(result.is_err());
    assert!(result.unwrap_err().message().contains("encoder-only"));
}

#[test]
fn test_bloom_creation() {
    let config = BLOOMConfig {
        vocab_size: 1000,
        hidden_size: 128,
        intermediate_size: 512,
        num_hidden_layers: 2,
        num_attention_heads: 4,
        num_key_value_heads: 4,
        ..Default::default()
    };
    let model = BLOOMModelV2::new(config).unwrap();
    assert_eq!(model.config().vocab_size(), 1000);
}

#[test]
fn test_chatglm_model_creation() {
    let config = ChatGLMConfig {
        vocab_size: 1000,
        hidden_size: 128,
        intermediate_size: 512,
        num_hidden_layers: 2,
        num_attention_heads: 8,
        num_key_value_heads: 2,
        ..Default::default()
    };
    let model = ChatGLMModelV2::new(config).unwrap();
    assert_eq!(model.config().vocab_size(), 1000);
    assert_eq!(model.config().hidden_size(), 128);
    assert_eq!(model.config().num_layers(), 2);
}

#[test]
fn test_clip_model_creation() {
    let config = CLIPConfig {
        vocab_size: 1000,
        hidden_size: 64,
        num_hidden_layers: 2,
        transformer_width: 64,
        transformer_layers: 2,
        transformer_heads: 4,
        vision_width: 64,
        vision_layers: 2,
        vision_heads: 4,
        vision_patch_size: 16,
        image_resolution: 64,
        projection_dim: 64,
        embed_dim: 64,
        ..Default::default()
    };
    let model = CLIPModelV2::new(config).unwrap();
    assert_eq!(model.config().vocab_size(), 1000);
}

#[test]
fn test_clip_generate_returns_error() {
    let config = CLIPConfig::default();
    let model = CLIPModelV2::new(config).unwrap();
    let gen_config = GenerationConfig::default();
    let result = model.generate("test", &gen_config);
    assert!(result.is_err());
    assert!(result.unwrap_err().message().contains("contrastive model"));
}

#[test]
fn test_dbrx_creation() {
    let config = DbrxConfig {
        vocab_size: 1000,
        hidden_size: 64,
        intermediate_size: 256,
        num_hidden_layers: 2,
        num_attention_heads: 4,
        num_key_value_heads: 2,
        num_experts: 4,
        num_experts_per_tok: 2,
        ..Default::default()
    };
    let model = DbrxModelV2::new(config).unwrap();
    assert_eq!(model.config().vocab_size(), 1000);
}

#[test]
fn test_encodec_model_creation() {
    let config = EncodecConfig {
        hidden_size: 32,
        num_filters: 8,
        num_residual_layers: 1,
        upsampling_ratios: vec![2, 2],
        num_codebooks: 4,
        codebook_size: 64,
        codebook_dim: 32,
        ..Default::default()
    };
    let model = EncodecModelV2::new(config).unwrap();
    assert_eq!(model.config().hidden_size(), 32);
}

#[test]
fn test_encodec_generate_is_unsupported() {
    let config = EncodecConfig { upsampling_ratios: vec![2, 2], ..Default::default() };
    let model = EncodecModelV2::new(config).unwrap();
    match model.generate("hi", &GenerationConfig::default()) {
        Err(ModelError::Unsupported(m)) => {
            assert_eq!(m, "Encodec is a codec model, use encode/decode methods")
        },
        _ => panic!("expected an unsupported-operation error"),
    }
}

#[test]
fn test_falcon_model_creation() {
    let config = FalconConfig {
        vocab_size: 1000,
        hidden_size: 128,
        intermediate_size: 512,
        num_hidden_layers: 2,
        num_attention_heads: 8,
        num_key_value_heads: 1,
        ..Default::default()
    };
    let model = FalconModelV2::new(config).unwrap();
    assert_eq!(model.config().vocab_size(), 1000);
    assert_eq!(model.config().hidden_size(), 128);
    assert_eq!(model.config().num_layers(), 2);
}

#[test]
fn test_gemma_model_creation() {
    let config = GemmaConfig {
        vocab_size: 1000,
        hidden_size: 128,
        intermediate_size: 512,
        num_hidden_layers: 2,
        num_attention_heads: 8,
        num_key_value_heads: 8,
        head_dim: 16,
        ..Default::default()
    };
    let model = GemmaModelV2::new(config).unwrap();
    assert_eq!(model.config().vocab_size(), 1000);
    assert_eq!(model.config().hidden_size(), 128);
    assert_eq!(model.config().num_layers(), 2);
}

#[test]
fn test_gpt2_model_creation() {
    let config = GPT2Config {
        vocab_size: 1000,
        hidden_size: 128,
        intermediate_size: 512,
        num_hidden_layers: 2,
        num_attention_heads: 4,
        num_key_value_heads: 4,
        max_position_embeddings: 256,
        ..Default::default()
    };
    let model = GPT2ModelV2::new(config).unwrap();
    assert_eq!(model.config().vocab_size(), 1000);
}

#[test]
fn test_gptj_creation() {
    let config = GPTJConfig {
        vocab_size: 1000,
        hidden_size: 128,
        intermediate_size: 512,
        num_hidden_layers: 2,
        num_attention_heads: 4,
        num_key_value_heads: 4,
        rotary_dim: 32,
        ..Default::default()
    };
    let model = GPTJModelV2::new(config).unwrap();
    assert_eq!(model.config().vocab_size(), 1000);
}

#[test]
fn test_gptneox_creation() {
    let config = GPTNeoXConfig {
        vocab_size: 1000,
        hidden_size: 128,
        intermediate_size: 512,
        num_hidden_layers: 2,
        num_attention_heads: 4,
        num_key_value_heads: 4,
        ..Default::default()
    };
    let model = GPTNeoXModelV2::new(config).unwrap();
    assert_eq!(model.config().vocab_size(), 1000);
}

#[test]
fn test_hubert_model_creation() {
    let config = HuBERTConfig {
        hidden_size: 64,
        intermediate_size: 256,
        num_hidden_layers: 2,
        num_attention_heads: 4,
        ..Default::default()
    };
    let model = HuBERTModelV2::new(config).unwrap();
    assert_eq!(model.config().hidden_size(), 64);
}

#[test]
fn test_hubert_generate_is_unsupported() {
    let model = HuBERTModelV2::new(HuBERTConfig::default()).unwrap();
    let err = model.generate("x", &GenerationConfig::default()).unwrap_err();
    assert_eq!(err.message(), "HuBERT is an encoder model");
}

#[test]
fn test_jamba_model_creation() {
    let config = JambaConfig {
        vocab_size: 1000,
        hidden_size: 128,
        intermediate_size: 512,
        num_hidden_layers: 4,
        num_attention_heads: 4,
        num_key_value_heads: 2,
        num_experts: 4,
        num_experts_per_tok: 2,
        d_state: 8,
        d_conv: 4,
        attn_layer_period: 2,
        attn_layer_offset: 1,
        ..Default::default()
    };
    let model = JambaModelV2::new(config).unwrap();
    assert_eq!(model.config().vocab_size(), 1000);
    assert_eq!(model.config().hidden_size(), 128);
    assert_eq!(model.config().num_layers(), 4);
}

#[test]
fn test_llama_model_creation() {
    let config = LlamaConfig {
        vocab_size: 1000,
        hidden_size: 128,
        intermediate_size: 512,
        num_hidden_layers: 2,
        num_attention_heads: 8,
        ..Default::default()
    };
    let model = LlamaModelV2::new(config).unwrap();
    assert_eq!(model.config().vocab_size(), 1000);
    assert_eq!(model.config().hidden_size(), 128);
    assert_eq!(model.config().num_layers(), 2);
}

fn small_llava() -> LLaVAConfig {
    LLaVAConfig {
        vocab_size: 1000,
        hidden_size: 128,
        intermediate_size: 512,
        num_hidden_layers: 2,
        num_attention_heads: 4,
        num_key_value_heads: 4,
        vision_hidden_size: 64,
        vision_intermediate_size: 256,
        vision_num_hidden_layers: 2,
        vision_num_attention_heads: 4,
        vision_patch_size: 14,
        vision_image_size: 224,
        ..Default::default()
    }
}

#[test]
fn test_llava_model_creation() {
    let model = LLaVAModelV2::new(small_llava()).unwrap();
    assert_eq!(model.config().vocab_size(), 1000);
    assert_eq!(model.config().hidden_size(), 128);
}

#[test]
fn test_llava_linear_projector_is_accepted() {
    let config = LLaVAConfig { mm_projector_type: "linear".to_string(), ..small_llava() };
    assert!(LLaVAModelV2::new(config).is_ok());
}

#[test]
fn test_llava_unknown_projector_is_refused() {
    let config = LLaVAConfig { mm_projector_type: "qformer".to_string(), ..small_llava() };
    match LLaVAModelV2::new(config) {
        Err(ModelError::InvalidConfig(m)) => assert_eq!(m, "Unsupported projector type: qformer"),
        _ => panic!("expected an invalid-configuration error"),
    }
}

fn small_mamba() -> MambaConfig {
    MambaConfig {
        vocab_size: 1000,
        hidden_size: 128,
        num_hidden_layers: 2,
        d_state: 8,
        d_conv: 4,
        expand: 2,
        ..Default::default()
    }
}

#[test]
fn test_mamba_model_creation() {
    let model = MambaModelV2::new(small_mamba()).unwrap();
    assert_eq!(model.config().vocab_size(), 1000);
    assert_eq!(model.config().hidden_size(), 128);
    assert_eq!(model.config().num_layers(), 2);
}

#[test]
fn test_mamba_initial_states_one_per_layer() {
    let model = MambaModelV2::new(small_mamba()).unwrap();
    assert_eq!(model.initial_states().len(), 2);
}

#[test]
fn test_mamba_untied_head_and_move() {
    let config = MambaConfig { tie_embeddings: false, conv_bias: false, bias: true, ..small_mamba() };
    let mut model = MambaModelV2::new(config).unwrap();
    assert!(model.to_device(&Device::CUDA(1)).is_ok());
    assert_eq!(model.config().vocab_size(), 1000);
}

#[test]
fn test_minicpm_generate_echoes_prompt() {
    let config = MiniCPMConfig { vocab_size: 100, hidden_size: 64, intermediate_size: 128, num_hidden_layers: 1, num_attention_heads: 4, num_key_value_heads: 4, ..Default::default() };
    let model = MiniCPMModelV2::new(config).unwrap();
    let out = model.generate("Hello", &GenerationConfig::default()).unwrap();
    assert_eq!(out, "MiniCPM generated: Hello");
}

#[test]
fn test_mixtral_model_creation() {
    let config = MixtralConfig {
        vocab_size: 1000,
        hidden_size: 128,
        intermediate_size: 512,
        num_hidden_layers: 2,
        num_attention_heads: 8,
        num_key_value_heads: 2,
        num_experts: 4,
        num_experts_per_tok: 2,
        sliding_window: 256,
        ..Default::default()
    };
    let model = MixtralModelV2::new(config).unwrap();
    assert_eq!(model.config().vocab_size(), 1000);
    assert_eq!(model.config().hidden_size(), 128);
    assert_eq!(model.config().num_layers(), 2);
}

#[test]
fn test_mpt_creation() {
    let config = MPTConfig {
        vocab_size: 1000,
        hidden_size: 128,
        intermediate_size: 512,
        num_hidden_layers: 2,
        num_attention_heads: 4,
        num_key_value_heads: 4,
        ..Default::default()
    };
    let model = MPTModelV2::new(config).unwrap();
    assert_eq!(model.config().vocab_size(), 1000);
}

#[test]
fn test_opt_creation() {
    let config = OPTConfig {
        vocab_size: 1000,
        hidden_size: 128,
        intermediate_size: 512,
        num_hidden_layers: 2,
        num_attention_heads: 4,
        num_key_value_heads: 4,
        ..Default::default()
    };
    let model = OPTModelV2::new(config).unwrap();
    assert_eq!(model.config().vocab_size(), 1000);
}

#[test]
fn test_models_move_to_another_device() {
    let mut llama = LlamaModelV2::new(LlamaConfig { vocab_size: 10, hidden_size: 16, intermediate_size: 32, num_hidden_layers: 1, num_attention_heads: 2, ..Default::default() }).unwrap();
    assert!(llama.to_device(&Device::CUDA(0)).is_ok());
    let mut hubert = HuBERTModelV2::new(HuBERTConfig { hidden_size: 16, intermediate_size: 32, num_hidden_layers: 1, num_attention_heads: 2, ..Default::default() }).unwrap();
    assert!(hubert.to_device(&Device::CUDA(0)).is_ok());
}
