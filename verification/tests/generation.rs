use model_runtime::common::GenerationConfig;
use model_runtime::generation::{last_logits_range, last_position, GenerationLoop};

fn request(max_new_tokens: usize, eos_token_id: u32) -> GenerationConfig {
    GenerationConfig { max_new_tokens, eos_token_id, ..Default::default() }
}

#[test]
fn test_generation_appends_until_budget() {
    let mut g = GenerationLoop::new(vec![5, 6], &request(3, 2));
    let mut next = 10;
    while g.wants_token() {
        g.accept(next);
        next += 1;
    }
    assert_eq!(g.tokens(), &[5, 6, 10, 11, 12]);
}

#[test]
fn test_generation_stops_at_eos_without_keeping_it() {
    let mut g = GenerationLoop::new(vec![1], &request(10, 0));
    g.accept(7);
    g.accept(0);
    assert!(!g.wants_token());
    assert_eq!(g.into_tokens(), vec![1, 7]);
}

#[test]
fn test_generation_with_no_budget_samples_nothing() {
    let g = GenerationLoop::new(vec![4, 4], &request(0, 0));
    assert!(!g.wants_token());
    assert_eq!(g.tokens(), &[4, 4]);
}

#[test]
fn test_prefilled_generation_with_no_budget_gives_the_prompt() {
    let g = GenerationLoop::with_prefill(vec![3], &request(0, 9));
    assert!(!g.wants_token());
    assert_eq!(g.tokens(), &[3]);
}

#[test]
fn test_recurrent_feed_and_warmup() {
    let empty = GenerationLoop::new(vec![], &request(1, 0));
    assert_eq!(empty.last_token(), 0);
    assert_eq!(empty.warmup_len(), 0);
    let g = GenerationLoop::new(vec![11, 12, 13], &request(1, 0));
    assert_eq!(g.last_token(), 13);
    assert_eq!(g.warmup_len(), 2);
}

#[test]
fn test_last_logits_window() {
    assert_eq!(last_logits_range(1, 100), (0, 100));
    assert_eq!(last_logits_range(4, 100), (300, 400));
}

#[test]
fn test_last_position_of_logits() {
    assert_eq!(last_position(&[1, 7, 100]), 6);
    assert_eq!(last_position(&[5, 100]), 4);
}

#[test]
fn test_prefilled_and_plain_requests_agree() {
    let config = request(2, 0);
    let mut plain = GenerationLoop::new(vec![1], &config);
    let mut cached = GenerationLoop::with_prefill(vec![1], &config);
    for t in [5u32, 6u32] {
        assert!(plain.wants_token() && cached.wants_token());
        plain.accept(t);
        cached.accept(t);
    }
    assert!(!plain.wants_token() && !cached.wants_token());
    assert_eq!(plain.tokens(), cached.tokens());
}
