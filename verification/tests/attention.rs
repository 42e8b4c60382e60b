use model_runtime::attention::{
    cache_positions, causal_mask, head_groups, hidden_dims, packed_qkv, plan_attention, CachePositions, HeadGroups, HiddenDims,
    PackedQkv,
};
use model_runtime::common::ModelError;

#[test]
fn test_hidden_dims_of_batched_and_flat_states() {
    assert_eq!(hidden_dims(&[2, 5, 8]).unwrap(), HiddenDims { batch_size: 2, seq_len: 5, hidden_size: 8 });
    assert_eq!(hidden_dims(&[5, 8]).unwrap(), HiddenDims { batch_size: 1, seq_len: 5, hidden_size: 8 });
}

#[test]
fn test_hidden_dims_refuses_other_ranks() {
    for shape in [vec![8], vec![1, 2, 3, 4], vec![]] {
        match hidden_dims(&shape) {
            Err(ModelError::InvalidInput(m)) => assert_eq!(m, "hidden states must have two or three dimensions"),
            _ => panic!("expected an invalid-input error"),
        }
    }
}

#[test]
fn test_packed_qkv_layout() {
    assert_eq!(
        packed_qkv(32, 2, 128),
        PackedQkv { q_start: 0, q_len: 4096, k_start: 4096, k_len: 256, v_start: 4352, v_len: 256 }
    );
    let equal = packed_qkv(4, 4, 16);
    assert_eq!(equal.k_start, 64);
    assert_eq!(equal.v_start + equal.v_len, 192);
}

#[test]
fn test_head_groups() {
    assert_eq!(head_groups(32, 8), HeadGroups { num_groups: 4, repeat_kv: true });
    assert_eq!(head_groups(8, 8), HeadGroups { num_groups: 1, repeat_kv: false });
    assert_eq!(head_groups(6, 4), HeadGroups { num_groups: 1, repeat_kv: false });
}

#[test]
fn test_cache_positions() {
    assert_eq!(cache_positions(3, Some(5)), CachePositions { position_offset: 5, total_len: 8, next_cache_len: 8 });
    assert_eq!(cache_positions(4, None), CachePositions { position_offset: 0, total_len: 4, next_cache_len: 4 });
    assert_eq!(cache_positions(1, Some(0)), CachePositions { position_offset: 0, total_len: 1, next_cache_len: 1 });
}

#[test]
fn test_causal_mask_without_cache() {
    assert_eq!(causal_mask(2, 2, 0), vec![true, false, true, true]);
    assert_eq!(causal_mask(3, 3, 0), vec![true, false, false, true, true, false, true, true, true]);
    assert!(causal_mask(0, 7, 0).is_empty());
}

#[test]
fn test_causal_mask_after_cached_positions() {
    let plan = cache_positions(2, Some(3));
    let mask = causal_mask(2, plan.total_len, plan.position_offset);
    assert_eq!(mask, vec![true, true, true, true, false, true, true, true, true, true]);
    let step = cache_positions(1, Some(6));
    assert_eq!(causal_mask(1, step.total_len, step.position_offset), vec![true; 7]);
}

#[test]
fn test_plan_of_a_cached_pass() {
    let plan = plan_attention(&[1, 2, 16], 4, 2, Some(3)).unwrap();
    assert_eq!(plan.dims, HiddenDims { batch_size: 1, seq_len: 2, hidden_size: 16 });
    assert_eq!(plan.groups, HeadGroups { num_groups: 2, repeat_kv: true });
    assert_eq!(plan.positions, CachePositions { position_offset: 3, total_len: 5, next_cache_len: 5 });
    assert_eq!(plan.mask, vec![true, true, true, true, false, true, true, true, true, true]);
}

#[test]
fn test_plan_of_an_uncached_pass() {
    let plan = plan_attention(&[3, 8], 2, 2, None).unwrap();
    assert_eq!(plan.dims, HiddenDims { batch_size: 1, seq_len: 3, hidden_size: 8 });
    assert_eq!(plan.groups, HeadGroups { num_groups: 1, repeat_kv: false });
    assert_eq!(plan.positions, CachePositions { position_offset: 0, total_len: 3, next_cache_len: 3 });
    assert_eq!(plan.mask, vec![true, false, false, true, true, false, true, true, true]);
}

#[test]
fn test_plan_refuses_a_flat_input() {
    match plan_attention(&[16], 4, 2, Some(3)) {
        Err(ModelError::InvalidInput(m)) => assert_eq!(m, "hidden states must have two or three dimensions"),
        _ => panic!("expected an invalid-input error"),
    }
}
