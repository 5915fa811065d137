use aipack::pricing::{PromptTokensDetails, Usage, price_it};

fn as_usd(price_e4: i64) -> f64 {
    price_e4 as f64 / 10_000.0
}

#[test]
fn test_pricing_pricer_price_it_simple() {
    // -- Setup & Fixtures
    let usage = Usage {
        prompt_tokens: Some(1000),
        completion_tokens: Some(500),
        prompt_tokens_details: None,
        ..Default::default()
    };

    // -- Exec
    let price = price_it("openai", "gpt-4o", &usage);

    // -- Check
    assert!(price.is_some());
    let price = as_usd(price.unwrap());
    // gpt-4o: input_cached 1.25, input_normal 2.5, output_normal 10.0
    // Calculate expected: (1000 * 2.5 / 1_000_000) + (500 * 10.0 / 1_000_000)
    let expected = 0.0025 + 0.005; // 0.0075
    assert!((price - expected).abs() < f64::EPSILON);
}

#[test]
fn test_pricing_pricer_price_it_with_cached() {
    // -- Setup & Fixtures
    let fx_prompt_tokens = 1000;
    let fx_completion_tokens = 500;
    let fx_cached_tokens = 400;
    let usage = Usage {
        prompt_tokens: Some(fx_prompt_tokens),
        completion_tokens: Some(fx_completion_tokens),
        prompt_tokens_details: Some(PromptTokensDetails {
            cached_tokens: Some(fx_cached_tokens),
            audio_tokens: None,
            cache_creation_tokens: None,
        }),
        ..Default::default()
    };

    // -- Exec
    let price = price_it("openai", "gpt-4o-mini", &usage);

    // -- Check
    assert!(price.is_some());
    let price = as_usd(price.unwrap());
    // gpt-4o-mini: input_cached 0.075, input_normal 0.15, output_normal 0.6
    let cached = fx_cached_tokens as f64 * 0.075 / 1_000_000.0;
    let prompt = fx_prompt_tokens as f64 * 0.150 / 1_000_000.0;
    let completion = fx_completion_tokens as f64 * 0.6 / 1_000_000.0;
    let expected = cached + prompt + completion;
    let expected = (expected * 10_000.0).round() / 10_000.0;
    assert!((price - expected).abs() < f64::EPSILON);
}

#[test]
fn test_pricing_pricer_price_it_with_cached_no_cached_price() {
    // -- Setup & Fixtures
    let fx_prompt_tokens = 1000;
    let fx_completion_tokens = 500;
    let fx_cached_tokens = 400;
    let usage = Usage {
        prompt_tokens: Some(fx_prompt_tokens),
        completion_tokens: Some(fx_completion_tokens),
        prompt_tokens_details: Some(PromptTokensDetails {
            cached_tokens: Some(fx_cached_tokens),
            audio_tokens: None,
            cache_creation_tokens: None,
        }),
        ..Default::default()
    };

    // -- Exec
    // Test with a model that has input_cached: None (e.g., groq model)
    let price = price_it("groq", "llama-3-70b-8k", &usage);

    // -- Check
    assert!(price.is_some());
    let price = as_usd(price.unwrap());
    // llama-3-70b-8k: input_cached None, input_normal 0.59, output_normal 0.79
    // Calculate expected: cached tokens should use input_normal price
    let cached = fx_cached_tokens as f64 * 0.59 / 1_000_000.0;
    let prompt = fx_prompt_tokens as f64 * 0.59 / 1_000_000.0;
    let completion = fx_completion_tokens as f64 * 0.79 / 1_000_000.0;
    let expected = cached + prompt + completion;
    let expected = (expected * 10_000.0).round() / 10_000.0;
    assert!((price - expected).abs() < f64::EPSILON);
}

#[test]
fn test_pricing_pricer_price_it_with_cache_creation() {
    // -- Setup & Fixtures
    let fx_prompt_tokens = 1000;
    let fx_completion_tokens = 500;
    let fx_cached_tokens = 400;
    let fx_cache_creation_tokens = 200;
    let usage = Usage {
        prompt_tokens: Some(fx_prompt_tokens),
        completion_tokens: Some(fx_completion_tokens),
        prompt_tokens_details: Some(PromptTokensDetails {
            cached_tokens: Some(fx_cached_tokens),
            cache_creation_tokens: Some(fx_cache_creation_tokens),
            audio_tokens: None,
        }),
        ..Default::default()
    };

    // -- Exec
    // Test with an Anthropic model which uses cache_creation_tokens
    let price = price_it("anthropic", "sonnet-3-5", &usage);

    // -- Check
    assert!(price.is_some());
    let price = as_usd(price.unwrap());
    // sonnet-3-5: input_cached 0.3, input_normal 3.0, output_normal 15.0
    let cached = fx_cached_tokens as f64 * 0.3 / 1_000_000.0;
    // NOTE: cache_creation uses input_normal * 1.25
    let cache_creation = fx_cache_creation_tokens as f64 * 1.25 * 3.0 / 1_000_000.0;
    let prompt = fx_prompt_tokens as f64 * 3.0 / 1_000_000.0;
    let completion = fx_completion_tokens as f64 * 15.0 / 1_000_000.0;
    let expected = cached + cache_creation + prompt + completion;
    let expected = (expected * 10_000.0).round() / 10_000.0; // 0.00012 + 0.00075 + 0.003 + 0.0075 = 0.01137 -> 0.0114
    assert!((price - expected).abs() < f64::EPSILON);
}

#[test]
fn test_pricing_pricer_price_it_unknown_provider() {
    // -- Setup & Fixtures
    let usage = Usage {
        prompt_tokens: Some(1000),
        completion_tokens: Some(500),
        ..Default::default()
    };

    // -- Exec
    let price = price_it("unknown_provider", "gpt-4o", &usage);

    // -- Check
    assert!(price.is_none());
}

#[test]
fn test_pricing_pricer_price_it_unknown_model() {
    // -- Setup & Fixtures
    let usage = Usage {
        prompt_tokens: Some(1000),
        completion_tokens: Some(500),
        ..Default::default()
    };

    // -- Exec
    let price = price_it("openai", "unknown_model", &usage);

    // -- Check
    assert!(price.is_none());
}

#[test]
fn test_pricing_groq_tail_entries() {
    // the smaller groq models share one flat rate
    let usage = Usage {
        prompt_tokens: Some(1_000_000),
        completion_tokens: None,
        ..Default::default()
    };
    // llama3-8b-8k: 0.05 per million input tokens => $0.05
    assert_eq!(price_it("groq", "llama3-8b-8k", &usage), Some(500));
    // gemma2-9b-it and llama-guard-3-8b-8k: 0.2 per million => $0.2
    assert_eq!(price_it("groq", "gemma2-9b-it", &usage), Some(2000));
    assert_eq!(price_it("groq", "llama-guard-3-8b-8k", &usage), Some(2000));
}

#[test]
fn test_pricing_longest_prefix_match() {
    // gpt-4o-mini-2024 must match gpt-4o-mini, not gpt-4o
    let usage = Usage {
        prompt_tokens: Some(1_000_000),
        completion_tokens: None,
        ..Default::default()
    };
    let price = price_it("openai", "gpt-4o-mini-2024", &usage);
    // at gpt-4o-mini's input rate: 1M tokens * 0.15/M = $0.15 => 1500 e4-units
    assert_eq!(price, Some(1500));
    // gpt-4o's rate would have been $2.50 => 25000 e4-units
    let full = price_it("openai", "gpt-4o", &usage);
    assert_eq!(full, Some(25000));
}
