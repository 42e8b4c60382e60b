use model_runtime::baichuan::{BaichuanConfig, BaichuanModelV2};
use model_runtime::bert::{BertConfig, BertModelV2};
use model_runtime::bloom::{BLOOMConfig, BLOOMModelV2};
use model_runtime::chatglm::{ChatGLMConfig, ChatGLMModelV2};
use model_runtime::clip::{CLIPConfig, CLIPModelV2};
use model_runtime::cogvlm::{CogVLMConfig, CogVLMModelV2};
use model_runtime::dbrx::{DbrxConfig, DbrxModelV2};
use model_runtime::falcon::{FalconConfig, FalconModelV2};
use model_runtime::florence::{FlorenceConfig, FlorenceModelV2};
use model_runtime::gemma::{GemmaConfig, GemmaModelV2};
use model_runtime::gpt2::{GPT2Config, GPT2ModelV2};
use model_runtime::gptj::{GPTJConfig, GPTJModelV2};
use model_runtime::gptneox::{GPTNeoXConfig, GPTNeoXModelV2};
use model_runtime::hubert::{HuBERTConfig, HuBERTModelV2};
use model_runtime::internvl::{InternVLConfig, InternVLModelV2};
use model_runtime::jamba::{JambaConfig, JambaModelV2};
use model_runtime::llava::{LLaVAConfig, LLaVAModelV2};
use model_runtime::mamba::{MambaConfig, MambaModelV2};
use model_runtime::minicpm::{MiniCPMConfig, MiniCPMModelV2};
use model_runtime::mixtral::{MixtralConfig, MixtralModelV2};
use model_runtime::mpt::{MPTConfig, MPTModelV2};
use model_runtime::opt::{OPTConfig, OPTModelV2};
use model_runtime::tensor::{zeros1, Device};
use model_runtime::weights::ModelWeights;

/// Weights holding one flat tensor under `name`: a weight that is transposed
/// under that name cannot take it.
fn flat(name: &str) -> ModelWeights {
    let mut w = ModelWeights::new();
    w.insert(name.to_string(), zeros1(4, &Device::CPU));
    w
}

#[test]
fn test_baichuan_checkpoint_names() {
    let c = BaichuanConfig { vocab_size: 10, hidden_size: 8, intermediate_size: 16, num_hidden_layers: 2, num_attention_heads: 2, num_key_value_heads: 2, ..Default::default() };
    assert!(BaichuanModelV2::from_weights(c.clone(), flat("model.layers.1.self_attn.W_pack.weight")).is_err());
    assert!(BaichuanModelV2::from_weights(c.clone(), flat("model.layers.0.input_layernorm.weight")).is_ok());
    assert!(BaichuanModelV2::from_weights(c, flat("model.layers.2.self_attn.W_pack.weight")).is_ok());
}

#[test]
fn test_bert_checkpoint_names() {
    let c = BertConfig { vocab_size: 10, hidden_size: 8, intermediate_size: 16, num_hidden_layers: 2, num_attention_heads: 2, ..Default::default() };
    assert!(BertModelV2::from_weights(c.clone(), flat("bert.encoder.layer.0.attention.self.query.weight")).is_err());
    assert!(BertModelV2::from_weights(c.clone(), flat("encoder.layer.1.attention.output.dense.weight")).is_err());
    assert!(BertModelV2::from_weights(c.clone(), flat("encoder.layer.1.intermediate.dense.weight")).is_err());
    assert!(BertModelV2::from_weights(c.clone(), flat("bert.encoder.layer.0.output.dense.weight")).is_err());
    assert!(BertModelV2::from_weights(c.clone(), flat("pooler.dense.weight")).is_err());
    assert!(BertModelV2::from_weights(c, flat("bert.embeddings.LayerNorm.gamma")).is_ok());
}

#[test]
fn test_bert_pooler_prefers_the_first_name() {
    let c = BertConfig { vocab_size: 10, hidden_size: 8, intermediate_size: 16, num_hidden_layers: 1, num_attention_heads: 2, ..Default::default() };
    let mut w = flat("pooler.dense.weight");
    w.insert("bert.pooler.dense.weight".to_string(), model_runtime::tensor::zeros2(8, 8, &Device::CPU));
    assert!(BertModelV2::from_weights(c, w).is_ok());
}

#[test]
fn test_bloom_checkpoint_names() {
    let c = BLOOMConfig { vocab_size: 10, hidden_size: 8, intermediate_size: 16, num_hidden_layers: 1, num_attention_heads: 2, num_key_value_heads: 2, ..Default::default() };
    assert!(BLOOMModelV2::from_weights(c.clone(), flat("transformer.h.0.self_attention.query_key_value.weight")).is_err());
    assert!(BLOOMModelV2::from_weights(c, flat("lm_head.weight")).is_ok());
}

#[test]
fn test_chatglm_checkpoint_names() {
    let c = ChatGLMConfig { vocab_size: 10, hidden_size: 8, intermediate_size: 16, num_hidden_layers: 1, num_attention_heads: 2, num_key_value_heads: 1, ..Default::default() };
    assert!(ChatGLMModelV2::from_weights(c.clone(), flat("transformer.encoder.layers.0.self_attention.dense.weight")).is_err());
    assert!(ChatGLMModelV2::from_weights(c.clone(), flat("transformer.encoder.layers.0.mlp.dense_4h_to_h.weight")).is_err());
    assert!(ChatGLMModelV2::from_weights(c, flat("transformer.output_layer.weight")).is_err());
}

fn small_clip() -> CLIPConfig {
    CLIPConfig {
        vocab_size: 10,
        hidden_size: 8,
        num_hidden_layers: 1,
        transformer_width: 8,
        transformer_layers: 1,
        transformer_heads: 2,
        vision_width: 8,
        vision_layers: 2,
        vision_heads: 2,
        vision_patch_size: 16,
        image_resolution: 32,
        projection_dim: 8,
        embed_dim: 8,
        ..Default::default()
    }
}

#[test]
fn test_clip_checkpoint_names() {
    assert!(CLIPModelV2::from_weights(small_clip(), flat("text_model.encoder.layers.0.self_attn.q_proj.weight")).is_err());
    assert!(CLIPModelV2::from_weights(small_clip(), flat("vision_model.encoder.layers.1.mlp.fc2.weight")).is_err());
    assert!(CLIPModelV2::from_weights(small_clip(), flat("visual_projection")).is_err());
    assert!(CLIPModelV2::from_weights(small_clip(), flat("vision_model.encoder.layers.1.layer_norm2.bias")).is_ok());
}

#[test]
fn test_cogvlm_checkpoint_names() {
    let c = CogVLMConfig { vocab_size: 10, hidden_size: 8, intermediate_size: 16, num_hidden_layers: 1, num_attention_heads: 2, num_key_value_heads: 2, ..Default::default() };
    assert!(CogVLMModelV2::from_weights(c.clone(), flat("lm_head.weight")).is_err());
    assert!(CogVLMModelV2::from_weights(c, flat("model.norm.weight")).is_ok());
}

#[test]
fn test_dbrx_checkpoint_names() {
    let c = DbrxConfig { vocab_size: 10, hidden_size: 8, intermediate_size: 16, num_hidden_layers: 1, num_attention_heads: 2, num_key_value_heads: 2, num_experts: 2, num_experts_per_tok: 1, ..Default::default() };
    assert!(DbrxModelV2::from_weights(c.clone(), flat("model.layers.0.self_attn.Wqkv.weight")).is_err());
    assert!(DbrxModelV2::from_weights(c, flat("lm_head.weight")).is_ok());
}

#[test]
fn test_falcon_checkpoint_names() {
    let c = FalconConfig { vocab_size: 10, hidden_size: 8, intermediate_size: 16, num_hidden_layers: 2, num_attention_heads: 2, num_key_value_heads: 1, ..Default::default() };
    assert!(FalconModelV2::from_weights(c.clone(), flat("transformer.h.1.mlp.dense_4h_to_h.weight")).is_err());
    assert!(FalconModelV2::from_weights(c, flat("transformer.h.1.post_attention_layernorm.weight")).is_ok());
}

#[test]
fn test_florence_checkpoint_names() {
    let c = FlorenceConfig::default();
    assert!(FlorenceModelV2::from_weights(c.clone(), flat("lm_head.weight")).is_err());
    assert!(FlorenceModelV2::from_weights(c, flat("model.embed_tokens.weight")).is_ok());
}

#[test]
fn test_gemma_checkpoint_names() {
    let c = GemmaConfig { vocab_size: 10, hidden_size: 8, intermediate_size: 16, num_hidden_layers: 1, num_attention_heads: 2, num_key_value_heads: 2, head_dim: 4, ..Default::default() };
    assert!(GemmaModelV2::from_weights(c.clone(), flat("model.layers.0.mlp.up_proj.weight")).is_err());
    let tied = GemmaConfig { tie_word_embeddings: true, ..c.clone() };
    assert!(GemmaModelV2::from_weights(tied, flat("lm_head.weight")).is_ok());
    let untied = GemmaConfig { tie_word_embeddings: false, ..c };
    assert!(GemmaModelV2::from_weights(untied, flat("lm_head.weight")).is_err());
}

#[test]
fn test_gpt2_checkpoint_names() {
    let c = GPT2Config { vocab_size: 10, hidden_size: 8, intermediate_size: 16, num_hidden_layers: 1, num_attention_heads: 2, num_key_value_heads: 2, max_position_embeddings: 16, ..Default::default() };
    assert!(GPT2ModelV2::from_weights(c.clone(), flat("h.0.attn.c_attn.weight")).is_err());
    assert!(GPT2ModelV2::from_weights(c, flat("h.0.ln_2.weight")).is_ok());
}

#[test]
fn test_gptj_checkpoint_names() {
    let c = GPTJConfig { vocab_size: 10, hidden_size: 8, intermediate_size: 16, num_hidden_layers: 1, num_attention_heads: 2, num_key_value_heads: 2, rotary_dim: 4, ..Default::default() };
    assert!(GPTJModelV2::from_weights(c, flat("transformer.h.0.attn.out_proj.weight")).is_err());
}

#[test]
fn test_gptneox_checkpoint_names() {
    let c = GPTNeoXConfig { vocab_size: 10, hidden_size: 8, intermediate_size: 16, num_hidden_layers: 1, num_attention_heads: 2, num_key_value_heads: 2, ..Default::default() };
    assert!(GPTNeoXModelV2::from_weights(c.clone(), flat("gpt_neox.layers.0.attention.dense.weight")).is_err());
    assert!(GPTNeoXModelV2::from_weights(c, flat("embed_out.weight")).is_err());
}

#[test]
fn test_hubert_checkpoint_names() {
    let c = HuBERTConfig { hidden_size: 8, intermediate_size: 16, num_hidden_layers: 1, num_attention_heads: 2, ..Default::default() };
    assert!(HuBERTModelV2::from_weights(c, flat("lm_head.weight")).is_err());
}

#[test]
fn test_internvl_checkpoint_names() {
    assert!(InternVLModelV2::from_weights(InternVLConfig::default(), flat("lm_head.weight")).is_err());
}

#[test]
fn test_jamba_checkpoint_names() {
    let c = JambaConfig {
        vocab_size: 10,
        hidden_size: 8,
        intermediate_size: 16,
        num_hidden_layers: 2,
        num_attention_heads: 2,
        num_key_value_heads: 1,
        num_experts: 2,
        num_experts_per_tok: 1,
        d_state: 4,
        d_conv: 4,
        attn_layer_period: 2,
        attn_layer_offset: 1,
        ..Default::default()
    };
    // Layer 1 uses attention, layer 0 the Mamba mixer.
    assert!(JambaModelV2::from_weights(c.clone(), flat("model.layers.1.self_attn.q_proj.weight")).is_err());
    assert!(JambaModelV2::from_weights(c.clone(), flat("model.layers.0.self_attn.q_proj.weight")).is_ok());
    assert!(JambaModelV2::from_weights(c.clone(), flat("model.layers.0.mamba.x_proj.weight")).is_err());
    assert!(JambaModelV2::from_weights(c.clone(), flat("model.layers.1.mamba.x_proj.weight")).is_ok());
    assert!(JambaModelV2::from_weights(c, flat("model.layers.0.block_sparse_moe.experts.1.w2.weight")).is_err());
}

#[test]
fn test_llava_checkpoint_names() {
    let c = LLaVAConfig {
        vocab_size: 100,
        hidden_size: 32,
        intermediate_size: 64,
        num_hidden_layers: 1,
        num_attention_heads: 4,
        num_key_value_heads: 4,
        vision_hidden_size: 16,
        vision_intermediate_size: 32,
        vision_num_hidden_layers: 1,
        vision_num_attention_heads: 4,
        vision_patch_size: 14,
        vision_image_size: 28,
        ..Default::default()
    };
    assert!(LLaVAModelV2::from_weights(c.clone(), flat("vision_tower.vision_model.encoder.layers.0.self_attn.q_proj.weight")).is_err());
    assert!(LLaVAModelV2::from_weights(c.clone(), flat("mm_projector.0.weight")).is_err());
    assert!(LLaVAModelV2::from_weights(c.clone(), flat("mm_projector.weight")).is_ok());
    assert!(LLaVAModelV2::from_weights(c, flat("language_model.model.layers.0.mlp.gate_proj.weight")).is_err());
}

#[test]
fn test_mamba_checkpoint_names() {
    let c = MambaConfig { vocab_size: 10, hidden_size: 8, num_hidden_layers: 1, ..Default::default() };
    assert!(MambaModelV2::from_weights(c, flat("backbone.layers.0.mixer.out_proj.weight")).is_err());
}

#[test]
fn test_minicpm_copies_its_projections() {
    let c = MiniCPMConfig { vocab_size: 10, hidden_size: 8, intermediate_size: 16, num_hidden_layers: 1, num_attention_heads: 2, num_key_value_heads: 2, ..Default::default() };
    assert!(MiniCPMModelV2::from_weights(c, flat("model.layers.0.self_attn.q_proj.weight")).is_ok());
}

#[test]
fn test_mixtral_checkpoint_names() {
    let c = MixtralConfig { vocab_size: 10, hidden_size: 8, intermediate_size: 16, num_hidden_layers: 1, num_attention_heads: 2, num_key_value_heads: 1, num_experts: 2, num_experts_per_tok: 1, ..Default::default() };
    assert!(MixtralModelV2::from_weights(c.clone(), flat("model.layers.0.block_sparse_moe.experts.1.w3.weight")).is_err());
    assert!(MixtralModelV2::from_weights(c, flat("model.layers.0.block_sparse_moe.experts.2.w3.weight")).is_ok());
}

#[test]
fn test_mpt_checkpoint_names() {
    let c = MPTConfig { vocab_size: 10, hidden_size: 8, intermediate_size: 16, num_hidden_layers: 1, num_attention_heads: 2, num_key_value_heads: 2, ..Default::default() };
    assert!(MPTModelV2::from_weights(c, flat("transformer.blocks.0.ffn.up_proj.weight")).is_err());
}

#[test]
fn test_opt_checkpoint_names() {
    let c = OPTConfig { vocab_size: 10, hidden_size: 8, intermediate_size: 16, num_hidden_layers: 1, num_attention_heads: 2, num_key_value_heads: 2, ..Default::default() };
    assert!(OPTModelV2::from_weights(c.clone(), flat("model.decoder.project_in.weight")).is_err());
    assert!(OPTModelV2::from_weights(c, flat("model.decoder.layers.0.fc1.weight")).is_err());
}
