use model_runtime::llava::{first_position, plan_multimodal_merge, LLaVAConfig, LLaVAModelV2, MergeSegment};

const IMAGE: i64 = 32000;

#[test]
fn test_merge_without_image_token_puts_image_first() {
    let plan = plan_multimodal_merge(&[1, 2, 3], IMAGE, 3);
    assert_eq!(plan, vec![MergeSegment::Image, MergeSegment::Text { start: 0, len: 3 }]);
}

#[test]
fn test_merge_with_image_token_at_start() {
    let plan = plan_multimodal_merge(&[IMAGE, 2, 3, 4], IMAGE, 4);
    assert_eq!(plan, vec![MergeSegment::Image, MergeSegment::Text { start: 1, len: 3 }]);
}

#[test]
fn test_merge_with_image_token_at_end() {
    let plan = plan_multimodal_merge(&[1, 2, IMAGE], IMAGE, 3);
    assert_eq!(plan, vec![MergeSegment::Text { start: 0, len: 2 }, MergeSegment::Image]);
}

#[test]
fn test_merge_with_image_token_in_middle() {
    let plan = plan_multimodal_merge(&[1, IMAGE, 3, 4, IMAGE], IMAGE, 5);
    assert_eq!(
        plan,
        vec![
            MergeSegment::Text { start: 0, len: 1 },
            MergeSegment::Image,
            MergeSegment::Text { start: 2, len: 3 },
        ]
    );
}

#[test]
fn test_merge_position_wraps_over_batch() {
    // Two rows of length 3; the first image token is in the second row, at column 1.
    let plan = plan_multimodal_merge(&[1, 2, 3, 4, IMAGE, 6], IMAGE, 3);
    assert_eq!(
        plan,
        vec![
            MergeSegment::Text { start: 0, len: 1 },
            MergeSegment::Image,
            MergeSegment::Text { start: 2, len: 1 },
        ]
    );
}

#[test]
fn test_first_position_finds_the_first() {
    assert_eq!(first_position(&[5, 7, 7], 7), Some(1));
    assert_eq!(first_position(&[5, 7, 7], 8), None);
}

#[test]
fn test_model_merge_plan_uses_patch_token() {
    let config = LLaVAConfig {
        vocab_size: 100,
        hidden_size: 32,
        intermediate_size: 64,
        num_hidden_layers: 1,
        num_attention_heads: 4,
        num_key_value_heads: 4,
        vision_hidden_size: 16,
        vision_intermediate_size: 32,
        vision_num_hidden_layers: 1,
        vision_num_attention_heads: 4,
        vision_patch_size: 14,
        vision_image_size: 28,
        im_patch_token: 99,
        ..Default::default()
    };
    let model = LLaVAModelV2::new(config).unwrap();
    let plan = model.merge_plan(&[1, 3, 99], 3);
    assert_eq!(plan, vec![MergeSegment::Text { start: 0, len: 2 }, MergeSegment::Image]);
}

#[test]
fn test_vision_layers_run() {
    let config = LLaVAConfig { vision_num_hidden_layers: 24, mm_vision_select_layer: -2, ..Default::default() };
    assert_eq!(config.vision_layers_run(), 23);
    let config = LLaVAConfig { vision_num_hidden_layers: 24, mm_vision_select_layer: 3, ..Default::default() };
    assert_eq!(config.vision_layers_run(), 4);
    let config = LLaVAConfig { vision_num_hidden_layers: 24, mm_vision_select_layer: 30, ..Default::default() };
    assert_eq!(config.vision_layers_run(), 24);
    let config = LLaVAConfig { vision_num_hidden_layers: 24, mm_vision_select_layer: -30, ..Default::default() };
    assert_eq!(config.vision_layers_run(), 24);
}

#[test]
fn test_selected_vision_features() {
    let config = LLaVAConfig::default();
    assert_eq!(config.selected_features(577), (1, 576));
    let config = LLaVAConfig { mm_vision_select_feature: "cls_patch".to_string(), ..Default::default() };
    assert_eq!(config.selected_features(577), (0, 577));
}
