use deepclaude::error::OrchestrationError;
use deepclaude::models::{Stage, TokenUsage};
use deepclaude::pricing::{PricingEntry, PricingTable, StagePrice, stage_cost};
use deepclaude::usage::UsageAccumulator;

fn entry(provider: &str, model: &str, p: u32, c: u32) -> PricingEntry {
    PricingEntry {
        provider: provider.to_string(),
        model: model.to_string(),
        price: StagePrice { prompt_nanodollars: p, completion_nanodollars: c },
    }
}

#[test]
fn lookup_finds_the_first_matching_row() {
    let mut t = PricingTable::new();
    t.push(entry("reasonco", "thinker-1", 2, 3));
    t.push(entry("answerco", "writer-1", 5, 7));
    t.push(entry("answerco", "writer-1", 100, 100));
    let p = t.lookup(&"answerco".to_string(), &"writer-1".to_string()).unwrap();
    assert_eq!(p.prompt_nanodollars, 5);
    assert_eq!(p.completion_nanodollars, 7);
}

#[test]
fn lookup_of_unknown_pair_is_pricing_not_found() {
    let mut t = PricingTable::new();
    t.push(entry("reasonco", "thinker-1", 2, 3));
    let r = t.lookup(&"reasonco".to_string(), &"other-model".to_string());
    match r {
        Err(e) => assert_eq!(e, OrchestrationError::PricingNotFound),
        Ok(p) => panic!(
            "unknown model must not be priced, got {}/{}",
            p.prompt_nanodollars, p.completion_nanodollars
        ),
    }
    let r = t.lookup(&"other-provider".to_string(), &"thinker-1".to_string());
    assert!(r.is_err());
}

#[test]
fn empty_table_prices_nothing() {
    let t = PricingTable::new();
    assert!(t.lookup(&"reasonco".to_string(), &"thinker-1".to_string()).is_err());
}

#[test]
fn stage_cost_is_exact() {
    let usage = TokenUsage { prompt_tokens: 10, completion_tokens: 8 };
    let price = StagePrice { prompt_nanodollars: 2, completion_nanodollars: 3 };
    assert_eq!(stage_cost(usage, price), 10 * 2 + 8 * 3);
}

#[test]
fn stage_cost_handles_the_largest_counts() {
    let usage = TokenUsage { prompt_tokens: u64::MAX, completion_tokens: u64::MAX };
    let price = StagePrice { prompt_nanodollars: u32::MAX, completion_nanodollars: u32::MAX };
    let expected = 2 * (u64::MAX as u128) * (u32::MAX as u128);
    assert_eq!(stage_cost(usage, price), expected);
}

#[test]
fn accumulator_adds_pairwise_per_stage() {
    let mut acc = UsageAccumulator::new();
    acc.add(Stage::Reasoning, TokenUsage { prompt_tokens: 10, completion_tokens: 8 });
    acc.add(Stage::Completion, TokenUsage { prompt_tokens: 20, completion_tokens: 2 });
    let total = acc.total();
    assert_eq!(total.prompt_tokens, 30);
    assert_eq!(total.completion_tokens, 10);
}

#[test]
fn accumulator_cost_prices_each_stage_at_its_own_row() {
    let mut t = PricingTable::new();
    t.push(entry("reasonco", "thinker-1", 2, 3));
    t.push(entry("answerco", "writer-1", 5, 7));
    let mut acc = UsageAccumulator::new();
    acc.add(Stage::Reasoning, TokenUsage { prompt_tokens: 10, completion_tokens: 8 });
    acc.add(Stage::Completion, TokenUsage { prompt_tokens: 20, completion_tokens: 2 });
    let cost = acc
        .cost(
            &t,
            &"reasonco".to_string(),
            &"thinker-1".to_string(),
            &"answerco".to_string(),
            &"writer-1".to_string(),
        )
        .unwrap();
    assert_eq!(cost, 10 * 2 + 8 * 3 + 20 * 5 + 2 * 7);
    let missing = acc.cost(
        &t,
        &"reasonco".to_string(),
        &"thinker-1".to_string(),
        &"answerco".to_string(),
        &"unknown".to_string(),
    );
    match missing {
        Err(e) => assert_eq!(e, OrchestrationError::PricingNotFound),
        Ok(c) => panic!("unknown pair must not be priced, got {}", c),
    }
}

#[test]
fn accumulator_addition_is_commutative_in_effect() {
    let a = TokenUsage { prompt_tokens: 3, completion_tokens: 5 };
    let b = TokenUsage { prompt_tokens: 11, completion_tokens: 13 };
    let ab = a.combined(b);
    let ba = b.combined(a);
    assert_eq!(ab, ba);
}
