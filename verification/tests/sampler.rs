use lunnama::gen_config_builder::{LunnamaGenConfigBuilder, LunnamaSampler, SamplerStage};
use lunnama::sampling::{greedy_index, greedy_token, TokenLogit};

fn candidates(logits: &[f32]) -> Vec<TokenLogit> {
    let mut out = Vec::new();
    for (i, logit) in logits.iter().enumerate() {
        out.push(TokenLogit { token: i as i32, logit: logit.to_bits() });
    }
    out
}

#[test]
fn should_choose_the_higher_token_in_logits() {
    let data_array = vec![
        TokenLogit { token: 0, logit: 0f32.to_bits() },
        TokenLogit { token: 1, logit: 1f32.to_bits() },
    ];
    let sampler = LunnamaGenConfigBuilder::default().greedy().get_sampler();
    assert!(matches!(sampler, LunnamaSampler::Greedy));
    assert_eq!(sampler.deterministic_choice(&data_array), Some(1));
    assert_eq!(greedy_token(&data_array), Some(1));
}

#[test]
fn greedy_is_deterministic() {
    let data = candidates(&[0.25, -3.0, 7.5, 7.25, 0.0]);
    let first = greedy_token(&data);
    let second = greedy_token(&data);
    assert_eq!(first, Some(2));
    assert_eq!(first, second);
}

#[test]
fn greedy_on_nothing_selects_nothing() {
    assert_eq!(greedy_index(&Vec::new()), None);
    assert_eq!(greedy_token(&Vec::new()), None);
}

#[test]
fn greedy_takes_the_first_of_equal_logits() {
    assert_eq!(greedy_index(&candidates(&[1.0, 3.0, 3.0, 2.0])), Some(1));
    assert_eq!(greedy_index(&candidates(&[0.0, -0.0])), Some(0));
    assert_eq!(greedy_index(&candidates(&[-0.0, 0.0])), Some(0));
}

#[test]
fn greedy_orders_negative_logits() {
    assert_eq!(greedy_index(&candidates(&[-5.0, -1.5, -2.0])), Some(1));
    assert_eq!(greedy_index(&candidates(&[-1.0e-40, -1.0, f32::NEG_INFINITY])), Some(0));
    assert_eq!(greedy_index(&candidates(&[1.0, f32::INFINITY, 3.0e38])), Some(1));
}

#[test]
fn greedy_skips_logits_that_are_no_number() {
    assert_eq!(greedy_index(&candidates(&[1.0, f32::NAN, 2.0])), Some(2));
    assert_eq!(greedy_index(&candidates(&[3.0, f32::NAN, 2.0])), Some(0));
    assert_eq!(greedy_index(&candidates(&[f32::NAN, 5.0])), Some(0));
}

#[test]
fn greedy_returns_the_token_not_the_index() {
    let data = vec![
        TokenLogit { token: 17, logit: 0.5f32.to_bits() },
        TokenLogit { token: 99, logit: 2.5f32.to_bits() },
        TokenLogit { token: 4, logit: 1.5f32.to_bits() },
    ];
    assert_eq!(greedy_index(&data), Some(1));
    assert_eq!(greedy_token(&data), Some(99));
}

#[test]
fn greedy_agrees_with_a_scan_over_the_numbers() {
    let mut seed: u32 = 0x2545_f491;
    for _ in 0..200 {
        let mut logits = Vec::new();
        for _ in 0..17 {
            seed ^= seed << 13;
            seed ^= seed >> 17;
            seed ^= seed << 5;
            let value = f32::from_bits(seed);
            logits.push(if value.is_nan() { 0.0 } else { value });
        }
        let mut expected = 0;
        for i in 1..logits.len() {
            if logits[i] > logits[expected] {
                expected = i;
            }
        }
        assert_eq!(greedy_index(&candidates(&logits)), Some(expected));
    }
}

#[test]
fn only_the_greedy_sampler_is_decided_by_the_candidates() {
    let data = candidates(&[0.5, 4.0, -2.0]);
    let greedy = LunnamaGenConfigBuilder::default().greedy().get_sampler();
    assert_eq!(greedy.deterministic_choice(&data), Some(1));
    assert_eq!(greedy.deterministic_choice(&Vec::new()), None);

    let chain = LunnamaGenConfigBuilder::default().get_sampler();
    assert!(matches!(chain, LunnamaSampler::Chain { .. }));
    assert_eq!(chain.deterministic_choice(&data), None);
}

#[test]
fn the_chain_of_an_untouched_configuration_keeps_every_candidate() {
    match LunnamaGenConfigBuilder::default().get_sampler() {
        LunnamaSampler::Chain { stages, no_perf } => {
            assert!(!no_perf);
            assert_eq!(
                stages,
                vec![
                    SamplerStage::Temperature { bits: 0.0f32.to_bits() },
                    SamplerStage::TopK { k: i32::MAX },
                    SamplerStage::TopP { bits: 0.0f32.to_bits(), min_keep: 1 },
                    SamplerStage::Dist { seed: 0 },
                ]
            );
        }
        LunnamaSampler::Greedy => panic!("a chain was expected"),
    }
}
