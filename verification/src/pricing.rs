//! The pricing calculator: a static per-provider table of per-model
//! token rates, longest-prefix model lookup, and the exact price of a
//! token usage.
//!
//! Money is held in fixed-point integers: rates in micro-dollars per
//! million tokens (so `2_500_000` is $2.50 per million), and computed
//! prices in ten-thousandths of a dollar (`75` is $0.0075), the
//! four-decimal rounding the price report uses.
use vstd::prelude::*;

use crate::text::{chars_vec, starts_with_chars, str_eq};

verus! {

// region: types

/// Token usage reported by the chat provider.
#[derive(Debug, Clone, Copy, PartialEq, Eq, Structural, Default)]
pub struct Usage {
    pub prompt_tokens: Option<i32>,
    pub prompt_tokens_details: Option<PromptTokensDetails>,
    pub completion_tokens: Option<i32>,
    pub completion_tokens_details: Option<CompletionTokensDetails>,
    pub total_tokens: Option<i32>,
}

#[derive(Debug, Clone, Copy, PartialEq, Eq, Structural, Default)]
pub struct PromptTokensDetails {
    pub cache_creation_tokens: Option<i32>,
    pub cached_tokens: Option<i32>,
    pub audio_tokens: Option<i32>,
}

#[derive(Debug, Clone, Copy, PartialEq, Eq, Structural, Default)]
pub struct CompletionTokensDetails {
    pub accepted_prediction_tokens: Option<i32>,
    pub rejected_prediction_tokens: Option<i32>,
    pub reasoning_tokens: Option<i32>,
    pub audio_tokens: Option<i32>,
}

/// Rates of one model, in micro-dollars per million tokens. A missing
/// cached-input or reasoning-output rate falls back to the normal rate.
pub struct ModelPricing {
    pub name: String,
    pub input_cached: Option<u64>,
    pub input_normal: u64,
    pub output_normal: u64,
    pub output_reasoning: Option<u64>,
}

pub struct ProviderPricing {
    pub name: String,
    pub models: Vec<ModelPricing>,
}

/// The shape of a model's rates, for contracts.
pub struct ModelPricingV {
    pub name: Seq<char>,
    pub input_cached: Option<u64>,
    pub input_normal: u64,
    pub output_normal: u64,
    pub output_reasoning: Option<u64>,
}

pub struct ProviderPricingV {
    pub name: Seq<char>,
    pub models: Seq<ModelPricingV>,
}

pub open spec fn mpv(m: ModelPricing) -> ModelPricingV {
    ModelPricingV {
        name: m.name@,
        input_cached: m.input_cached,
        input_normal: m.input_normal,
        output_normal: m.output_normal,
        output_reasoning: m.output_reasoning,
    }
}

pub open spec fn models_v(s: Seq<ModelPricing>) -> Seq<ModelPricingV>
    decreases s.len(),
{
    if s.len() == 0 {
        Seq::empty()
    } else {
        models_v(s.drop_last()).push(mpv(s.last()))
    }
}

pub open spec fn providers_v(s: Seq<ProviderPricing>) -> Seq<ProviderPricingV>
    decreases s.len(),
{
    if s.len() == 0 {
        Seq::empty()
    } else {
        providers_v(s.drop_last()).push(
            ProviderPricingV { name: s.last().name@, models: models_v(s.last().models@) },
        )
    }
}

pub proof fn lemma_models_v(s: Seq<ModelPricing>)
    ensures
        models_v(s).len() == s.len(),
        forall|i: int| 0 <= i < s.len() ==> models_v(s)[i] == mpv(s[i]),
    decreases s.len(),
{
    if s.len() > 0 {
        lemma_models_v(s.drop_last());
    }
}

pub proof fn lemma_providers_v(s: Seq<ProviderPricing>)
    ensures
        providers_v(s).len() == s.len(),
        forall|i: int|
            0 <= i < s.len() ==> providers_v(s)[i] == (ProviderPricingV {
                name: s[i].name@,
                models: models_v(s[i].models@),
            }),
    decreases s.len(),
{
    if s.len() > 0 {
        lemma_providers_v(s.drop_last());
    }
}

/// Every rate the table may hold: at most a million dollars per million
/// tokens, which keeps every computed price inside an `i64`.
pub open spec fn rate_ok(r: u64) -> bool {
    r <= 1_000_000_000_000
}

pub open spec fn model_rates_ok(m: ModelPricingV) -> bool {
    &&& match m.input_cached {
        Some(r) => rate_ok(r),
        None => true,
    }
    &&& rate_ok(m.input_normal)
    &&& rate_ok(m.output_normal)
    &&& match m.output_reasoning {
        Some(r) => rate_ok(r),
        None => true,
    }
}

pub open spec fn table_wf(ps: Seq<ProviderPricingV>) -> bool {
    forall|i: int, j: int|
        0 <= i < ps.len() && 0 <= j < ps[i].models.len() ==> model_rates_ok(
            #[trigger] ps[i].models[j],
        )
}

// endregion: types

// region: lookup and price specification

/// The first provider with this exact name.
pub open spec fn find_provider(ps: Seq<ProviderPricingV>, name: Seq<char>) -> Option<
    ProviderPricingV,
>
    decreases ps.len(),
{
    if ps.len() == 0 {
        None
    } else if ps[0].name == name {
        Some(ps[0])
    } else {
        find_provider(ps.drop_first(), name)
    }
}

/// The model chosen among the first `n`: a model is a candidate when its
/// name is a prefix of the asked name; a later candidate replaces the
/// current one only when its name is strictly longer.
pub open spec fn best_model_upto(ms: Seq<ModelPricingV>, name: Seq<char>, n: int) -> Option<
    ModelPricingV,
>
    decreases n,
{
    if n <= 0 {
        None
    } else {
        let prev = best_model_upto(ms, name, n - 1);
        let m = ms[n - 1];
        if m.name.is_prefix_of(name) && (match prev {
            None => true,
            Some(p) => p.name.len() < m.name.len(),
        }) {
            Some(m)
        } else {
            prev
        }
    }
}

/// The model whose name is the longest prefix of the asked name.
pub open spec fn best_model(ms: Seq<ModelPricingV>, name: Seq<char>) -> Option<ModelPricingV> {
    best_model_upto(ms, name, ms.len() as int)
}

/// A count that may be absent counts as zero.
pub open spec fn spec_tok(o: Option<i32>) -> int {
    match o {
        Some(t) => t as int,
        None => 0,
    }
}

pub open spec fn spec_cached_tokens(u: Usage) -> int {
    match u.prompt_tokens_details {
        Some(d) => spec_tok(d.cached_tokens),
        None => 0,
    }
}

pub open spec fn spec_cache_creation_tokens(u: Usage) -> int {
    match u.prompt_tokens_details {
        Some(d) => spec_tok(d.cache_creation_tokens),
        None => 0,
    }
}

pub open spec fn spec_reasoning_tokens(u: Usage) -> int {
    match u.completion_tokens_details {
        Some(d) => spec_tok(d.reasoning_tokens),
        None => 0,
    }
}

/// Four times the price in units of 10^-12 dollars. The factor of four
/// keeps the 1.25x cache-creation surcharge integral: that surcharge is
/// the only provider convention of its kind in the table, billed on
/// cache-creation tokens at 5/4 of the normal input rate.
pub open spec fn spec_price_q(m: ModelPricingV, u: Usage) -> int {
    let cached = spec_cached_tokens(u);
    let cache_creation = spec_cache_creation_tokens(u);
    let prompt = spec_tok(u.prompt_tokens);
    let completion = spec_tok(u.completion_tokens);
    let reasoning = spec_reasoning_tokens(u);
    let price_input_cached = match m.input_cached {
        Some(r) => r,
        None => m.input_normal,
    };
    let price_output_reasoning = match m.output_reasoning {
        Some(r) => r,
        None => m.output_normal,
    };
    4 * cached * price_input_cached + 5 * cache_creation * m.input_normal + 4 * prompt
        * m.input_normal + 4 * (completion - reasoning) * m.output_normal + 4 * reasoning
        * price_output_reasoning
}

/// Rounding half away from zero of `q / 400_000_000`: the price in
/// ten-thousandths of a dollar, rounded to four decimal places.
pub open spec fn spec_round_q(q: int) -> int {
    if q >= 0 {
        (q + 200_000_000) / 400_000_000
    } else {
        -(((-q) + 200_000_000) / 400_000_000)
    }
}

/// The priced usage: `None` when the provider is unknown or no model
/// name in the provider's table is a prefix of the asked model name.
pub open spec fn spec_price(
    ps: Seq<ProviderPricingV>,
    provider: Seq<char>,
    model: Seq<char>,
    u: Usage,
) -> Option<int> {
    match find_provider(ps, provider) {
        None => None,
        Some(p) => match best_model(p.models, model) {
            None => None,
            Some(m) => Some(spec_round_q(spec_price_q(m, u))),
        },
    }
}

// endregion: lookup and price specification

// region: laws

/// Price monotonic fallback: on a model without a cached-input rate,
/// cached tokens are priced exactly as non-cached tokens, at the normal
/// input rate.
pub proof fn lemma_price_cached_fallback(m: ModelPricingV, u: Usage)
    requires
        m.input_cached is None,
    ensures
        spec_price_q(m, u) == spec_price_q(
            ModelPricingV { input_cached: Some(m.input_normal), ..m },
            u,
        ),
{
}

/// Longest-prefix match: the chosen model's name is a prefix of the
/// asked name and no other prefix in the table is strictly longer; when
/// no name is a prefix, no model is chosen.
pub proof fn lemma_best_model_longest_prefix(ms: Seq<ModelPricingV>, name: Seq<char>)
    ensures
        match best_model(ms, name) {
            Some(m) => {
                &&& m.name.is_prefix_of(name)
                &&& exists|i: int| 0 <= i < ms.len() && ms[i] == m
                &&& forall|i: int|
                    0 <= i < ms.len() && (#[trigger] ms[i].name).is_prefix_of(name)
                        ==> ms[i].name.len() <= m.name.len()
            },
            None => forall|i: int|
                0 <= i < ms.len() ==> !(#[trigger] ms[i].name).is_prefix_of(name),
        },
{
    lemma_best_model_upto(ms, name, ms.len() as int);
}

proof fn lemma_best_model_upto(ms: Seq<ModelPricingV>, name: Seq<char>, n: int)
    requires
        n <= ms.len(),
    ensures
        match best_model_upto(ms, name, n) {
            Some(m) => {
                &&& m.name.is_prefix_of(name)
                &&& exists|i: int| 0 <= i < n && ms[i] == m
                &&& forall|i: int|
                    0 <= i < n && (#[trigger] ms[i].name).is_prefix_of(name) ==> ms[i].name.len()
                        <= m.name.len()
            },
            None => forall|i: int| 0 <= i < n ==> !(#[trigger] ms[i].name).is_prefix_of(name),
        },
    decreases n,
{
    if n > 0 {
        lemma_best_model_upto(ms, name, n - 1);
    }
}

// endregion: laws

// region: executable lookup

fn tok(o: Option<i32>) -> (t: i64)
    ensures
        t as int == spec_tok(o),
        -2147483648 <= t <= 2147483647,
{
    match o {
        Some(x) => x as i64,
        None => 0,
    }
}

/// `t * rate` exactly, with the bounds the price sum needs.
fn mul_rate(t: i64, rate: u64) -> (r: i128)
    requires
        -8589934592 <= t <= 8589934592,
        rate_ok(rate),
    ensures
        r == t as int * rate as int,
        -8589934592000000000000 <= r <= 8589934592000000000000,
{
    proof {
        assert((t as int) * (rate as int) <= 8589934592000000000000 && (t as int) * (rate as int)
            >= -8589934592000000000000) by (nonlinear_arith)
            requires
                -8589934592 <= t as int <= 8589934592,
                0 <= rate as int <= 1000000000000,
        ;
    }
    (t as i128) * (rate as i128)
}

/// The exact rounded price of `usage` on one model.
fn model_price(m: &ModelPricing, usage: &Usage) -> (p: i64)
    requires
        model_rates_ok(mpv(*m)),
    ensures
        p as int == spec_round_q(spec_price_q(mpv(*m), *usage)),
{
    let cached: i64 = match &usage.prompt_tokens_details {
        Some(d) => tok(d.cached_tokens),
        None => 0,
    };
    let cache_creation: i64 = match &usage.prompt_tokens_details {
        Some(d) => tok(d.cache_creation_tokens),
        None => 0,
    };
    let prompt: i64 = tok(usage.prompt_tokens);
    let completion: i64 = tok(usage.completion_tokens);
    let reasoning: i64 = match &usage.completion_tokens_details {
        Some(d) => tok(d.reasoning_tokens),
        None => 0,
    };
    let price_input_cached: u64 = match m.input_cached {
        Some(r) => r,
        None => m.input_normal,
    };
    let price_output_reasoning: u64 = match m.output_reasoning {
        Some(r) => r,
        None => m.output_normal,
    };
    let t1: i128 = mul_rate(cached, price_input_cached);
    let t2: i128 = mul_rate(cache_creation, m.input_normal);
    let t3: i128 = mul_rate(prompt, m.input_normal);
    let t4: i128 = mul_rate(completion - reasoning, m.output_normal);
    let t5: i128 = mul_rate(reasoning, price_output_reasoning);
    let q: i128 = 4 * t1 + 5 * t2 + 4 * t3 + 4 * t4 + 4 * t5;
    proof {
        let uv = *usage;
        let mv = mpv(*m);
        assert(4 * (t1 as int) == 4 * spec_cached_tokens(uv) * (price_input_cached as int))
            by (nonlinear_arith)
            requires
                t1 as int == spec_cached_tokens(uv) * (price_input_cached as int),
        ;
        assert(5 * (t2 as int) == 5 * spec_cache_creation_tokens(uv) * (mv.input_normal as int))
            by (nonlinear_arith)
            requires
                t2 as int == spec_cache_creation_tokens(uv) * (mv.input_normal as int),
        ;
        assert(4 * (t3 as int) == 4 * spec_tok(uv.prompt_tokens) * (mv.input_normal as int))
            by (nonlinear_arith)
            requires
                t3 as int == spec_tok(uv.prompt_tokens) * (mv.input_normal as int),
        ;
        assert(4 * (t4 as int) == 4 * (spec_tok(uv.completion_tokens) - spec_reasoning_tokens(uv))
            * (mv.output_normal as int)) by (nonlinear_arith)
            requires
                t4 as int == (spec_tok(uv.completion_tokens) - spec_reasoning_tokens(uv)) * (
                mv.output_normal as int),
        ;
        assert(4 * (t5 as int) == 4 * spec_reasoning_tokens(uv) * (price_output_reasoning as int))
            by (nonlinear_arith)
            requires
                t5 as int == spec_reasoning_tokens(uv) * (price_output_reasoning as int),
        ;
        assert(q == spec_price_q(mv, uv));
    }
    let p: i128 = if q >= 0 {
        (q + 200000000) / 400000000
    } else {
        -((-q + 200000000) / 400000000)
    };
    proof {
        assert(p as int == spec_round_q(q as int));
    }
    proof {
        assert(-500000000000000 <= p <= 500000000000000) by (nonlinear_arith)
            requires
                -200000000000000000000000i128 <= q <= 200000000000000000000000i128,
                p == (if q >= 0 {
                    (q + 200000000) as int / 400000000
                } else {
                    -(((-q) + 200000000) as int / 400000000)
                }),
        ;
    }
    p as i64
}

/// The price of `usage` for `model_name` at `provider_type`, looked up
/// in `table`: exact provider match, then longest-prefix model match.
/// In ten-thousandths of a dollar; `None` when provider or model is
/// unknown.
pub fn price_for(
    table: &Vec<ProviderPricing>,
    provider_type: &str,
    model_name: &str,
    usage: &Usage,
) -> (r: Option<i64>)
    requires
        table_wf(providers_v(table@)),
    ensures
        match r {
            Some(p) => spec_price(providers_v(table@), provider_type@, model_name@, *usage)
                == Some(p as int),
            None => spec_price(providers_v(table@), provider_type@, model_name@, *usage) is None,
        },
{
    proof {
        lemma_providers_v(table@);
    }
    let ghost pv = providers_v(table@);
    let mut i: usize = 0;
    while i < table.len()
        invariant
            0 <= i <= table@.len(),
            pv == providers_v(table@),
            pv.len() == table@.len(),
            forall|k: int|
                0 <= k < table@.len() ==> pv[k] == (ProviderPricingV {
                    name: table@[k].name@,
                    models: models_v(table@[k].models@),
                }),
            forall|k: int| 0 <= k < i ==> pv[k].name != provider_type@,
            table_wf(pv),
        decreases table@.len() - i,
    {
        if str_eq(table[i].name.as_str(), provider_type) {
            proof {
                lemma_find_provider_skip(pv, provider_type@, i as int);
                assert(pv.skip(i as int)[0] == pv[i as int]);
            }
            return provider_price(&table[i], Ghost(pv[i as int]), model_name, usage);
        }
        i = i + 1;
    }
    proof {
        lemma_find_provider_skip(pv, provider_type@, pv.len() as int);
        assert(pv.skip(pv.len() as int) =~= Seq::<ProviderPricingV>::empty());
    }
    None
}

proof fn lemma_find_provider_skip(ps: Seq<ProviderPricingV>, name: Seq<char>, j: int)
    requires
        0 <= j <= ps.len(),
        forall|k: int| 0 <= k < j ==> ps[k].name != name,
    ensures
        find_provider(ps, name) == find_provider(ps.skip(j), name),
    decreases j,
{
    if j == 0 {
        assert(ps.skip(0) =~= ps);
    } else {
        let t = ps.drop_first();
        assert(forall|k: int| 0 <= k < j - 1 ==> #[trigger] t[k] == ps[k + 1]);
        lemma_find_provider_skip(t, name, j - 1);
        assert(t.skip(j - 1) =~= ps.skip(j));
    }
}

fn provider_price(
    provider: &ProviderPricing,
    Ghost(pview): Ghost<ProviderPricingV>,
    model_name: &str,
    usage: &Usage,
) -> (r: Option<i64>)
    requires
        pview == (ProviderPricingV { name: provider.name@, models: models_v(provider.models@) }),
        forall|j: int| 0 <= j < pview.models.len() ==> model_rates_ok(#[trigger] pview.models[j]),
    ensures
        match r {
            Some(p) => match best_model(pview.models, model_name@) {
                Some(m) => spec_round_q(spec_price_q(m, *usage)) == p as int,
                None => false,
            },
            None => best_model(pview.models, model_name@) is None,
        },
{
    proof {
        lemma_models_v(provider.models@);
    }
    let ghost ms = pview.models;
    let name_chars = chars_vec(model_name);
    let mut best: Option<usize> = None;
    let mut best_len: usize = 0;
    let mut i: usize = 0;
    while i < provider.models.len()
        invariant
            0 <= i <= provider.models@.len(),
            ms == models_v(provider.models@),
            ms.len() == provider.models@.len(),
            forall|k: int| 0 <= k < ms.len() ==> ms[k] == mpv(provider.models@[k]),
            name_chars@ == model_name@,
            match best {
                None => best_model_upto(ms, model_name@, i as int) is None,
                Some(b) => b < i && best_model_upto(ms, model_name@, i as int) == Some(ms[b as int])
                    && best_len == ms[b as int].name.len(),
            },
        decreases provider.models@.len() - i,
    {
        let m_chars = chars_vec(provider.models[i].name.as_str());
        let m_len = m_chars.len();
        if starts_with_chars(name_chars.as_slice(), m_chars.as_slice()) {
            let better = match best {
                None => true,
                Some(_) => best_len < m_len,
            };
            if better {
                best = Some(i);
                best_len = m_len;
            }
        }
        i = i + 1;
    }
    match best {
        None => None,
        Some(b) => Some(model_price(&provider.models[b], usage)),
    }
}

// endregion: executable lookup

// region: the table

fn push_model(
    v: &mut Vec<ModelPricing>,
    name: &str,
    input_cached: Option<u64>,
    input_normal: u64,
    output_normal: u64,
)
    ensures
        models_v(final(v)@) == models_v(old(v)@).push(
            mv(name@, input_cached, input_normal, output_normal),
        ),
{
    v.push(
        ModelPricing {
            name: name.to_owned(),
            input_cached,
            input_normal,
            output_normal,
            output_reasoning: None,
        },
    );
    proof {
        assert(v@.drop_last() =~= old(v)@);
    }
}

fn push_provider(v: &mut Vec<ProviderPricing>, name: &str, models: Vec<ModelPricing>)
    ensures
        providers_v(final(v)@) == providers_v(old(v)@).push(
            ProviderPricingV { name: name@, models: models_v(models@) },
        ),
{
    v.push(ProviderPricing { name: name.to_owned(), models });
    proof {
        assert(v@.drop_last() =~= old(v)@);
    }
}

/// A table entry without a reasoning-output rate, for the table spec.
pub open spec fn mv(
    name: Seq<char>,
    input_cached: Option<u64>,
    input_normal: u64,
    output_normal: u64,
) -> ModelPricingV {
    ModelPricingV { name, input_cached, input_normal, output_normal, output_reasoning: None }
}

pub open spec fn spec_openai_models() -> Seq<ModelPricingV> {
    seq![
        mv("gpt-4o"@, Some(1250000u64), 2500000u64, 10000000u64),
        mv("gpt-4o-mini"@, Some(75000u64), 150000u64, 600000u64),
    ]
}

pub open spec fn spec_groq_models() -> Seq<ModelPricingV> {
    seq![
        mv("openai/gpt-oss-20b"@, None, 100000u64, 500000u64),
        mv("openai/gpt-oss-120b"@, None, 150000u64, 750000u64),
        mv("moonshotai/kimi-k2-instruct"@, None, 1000000u64, 3000000u64),
        mv("meta-llama/llama-4-scout-17b-16e-instruct"@, None, 110000u64, 340000u64),
        mv("meta-llama/llama-4-maverick-17b-128e-instruct"@, None, 200000u64, 600000u64),
        mv("meta-llama/llama-guard-4-12b"@, None, 200000u64, 200000u64),
        mv("deepseek-r1-distill-llama-70b"@, None, 750000u64, 990000u64),
        mv("qwen/qwen3-32b"@, None, 290000u64, 590000u64),
        mv("mistral-saba-24b-32k"@, None, 790000u64, 790000u64),
        mv("llama-3.3-70b-versatile"@, None, 590000u64, 790000u64),
        mv("llama-3.1-8b-instant"@, None, 50000u64, 80000u64),
        mv("llama-3-70b-8k"@, None, 590000u64, 790000u64),
        mv("llama3-70b-8k"@, None, 590000u64, 790000u64),
        mv("llama3-8b-8k"@, None, 50000u64, 80000u64),
        mv("gemma2-9b-it"@, None, 200000u64, 200000u64),
        mv("llama-guard-3-8b-8k"@, None, 200000u64, 200000u64),
    ]
}

pub open spec fn spec_gemini_models() -> Seq<ModelPricingV> {
    seq![
        mv("gemini-3-pro"@, Some(200000u64), 2000000u64, 12000000u64),
        mv("gemini-3-flash"@, Some(50000u64), 500000u64, 3000000u64),
        mv("gemini-2.5-pro"@, Some(125000u64), 1250000u64, 10000000u64),
        mv("gemini-2.5-flash"@, Some(30000u64), 300000u64, 2500000u64),
        mv("gemini-2.5-flash-lite"@, Some(10000u64), 100000u64, 400000u64),
        mv("gemini-2.0-flash"@, Some(25000u64), 100000u64, 400000u64),
        mv("gemini-2.0-flash-lite"@, None, 75000u64, 300000u64),
        mv("gemini-flash-latest"@, Some(30000u64), 300000u64, 2500000u64),
        mv("gemini-pro-latest"@, Some(125000u64), 1250000u64, 10000000u64),
        mv("gemini-embedding-001"@, None, 150000u64, 0u64),
        mv("gemini-robotics-er-1.5"@, None, 300000u64, 2500000u64),
        mv("gemini-2.5-computer-use"@, None, 1250000u64, 10000000u64),
        mv("gemma-3"@, Some(0u64), 0u64, 0u64),
        mv("gemma-3n"@, Some(0u64), 0u64, 0u64),
    ]
}

pub open spec fn spec_deepseek_models() -> Seq<ModelPricingV> {
    seq![
        mv("deepseek-chat"@, Some(70000u64), 270000u64, 1100000u64),
        mv("deepseek-reasoner"@, Some(140000u64), 550000u64, 2190000u64),
    ]
}

pub open spec fn spec_anthropic_models() -> Seq<ModelPricingV> {
    seq![
        mv("opus-4-6"@, Some(500000u64), 5000000u64, 25000000u64),
        mv("opus-4-5"@, Some(500000u64), 5000000u64, 25000000u64),
        mv("opus-4-1"@, Some(1500000u64), 15000000u64, 75000000u64),
        mv("opus-4"@, Some(1500000u64), 15000000u64, 75000000u64),
        mv("sonnet-4-5"@, Some(300000u64), 3000000u64, 15000000u64),
        mv("sonnet-4"@, Some(300000u64), 3000000u64, 15000000u64),
        mv("haiku-4-5"@, Some(100000u64), 1000000u64, 5000000u64),
        mv("sonnet-3-5"@, Some(300000u64), 3000000u64, 15000000u64),
        mv("haiku-3-5"@, Some(80000u64), 800000u64, 4000000u64),
        mv("haiku-3"@, Some(30000u64), 250000u64, 1250000u64),
    ]
}

pub open spec fn spec_xai_models() -> Seq<ModelPricingV> {
    seq![
        mv("grok-4"@, Some(750000u64), 3000000u64, 15000000u64),
        mv("grok-3"@, Some(750000u64), 3000000u64, 15000000u64),
        mv("grok-3-mini"@, Some(75000u64), 300000u64, 500000u64),
        mv("grok-3-fast"@, Some(1250000u64), 5000000u64, 25000000u64),
        mv("grok-3-mini-fast"@, Some(150000u64), 600000u64, 4000000u64),
        mv("grok-beta"@, None, 5000000u64, 15000000u64),
        mv("grok-2-image-gen"@, None, 0u64, 0u64),
        mv("grok-2-vision-1212"@, None, 2000000u64, 10000000u64),
        mv("grok-2-1212"@, None, 2000000u64, 10000000u64),
        mv("grok-vision-beta"@, None, 5000000u64, 15000000u64),
        mv("grok-2-image-1212"@, None, 0u64, 70000u64),
    ]
}

/// The built-in pricing table.
pub open spec fn spec_providers() -> Seq<ProviderPricingV> {
    seq![
        ProviderPricingV { name: "openai"@, models: spec_openai_models() },
        ProviderPricingV { name: "groq"@, models: spec_groq_models() },
        ProviderPricingV { name: "gemini"@, models: spec_gemini_models() },
        ProviderPricingV { name: "deepseek"@, models: spec_deepseek_models() },
        ProviderPricingV { name: "anthropic"@, models: spec_anthropic_models() },
        ProviderPricingV { name: "xai"@, models: spec_xai_models() },
    ]
}

fn openai_models() -> (r: Vec<ModelPricing>)
    ensures
        models_v(r@) == spec_openai_models(),
{
    let mut v: Vec<ModelPricing> = Vec::new();
    push_model(&mut v, "gpt-4o", Some(1250000u64), 2500000, 10000000);
    push_model(&mut v, "gpt-4o-mini", Some(75000u64), 150000, 600000);
    proof {
        assert(models_v(v@) =~= spec_openai_models());
    }
    v
}

fn groq_models() -> (r: Vec<ModelPricing>)
    ensures
        models_v(r@) == spec_groq_models(),
{
    let mut v: Vec<ModelPricing> = Vec::new();
    push_model(&mut v, "openai/gpt-oss-20b", None, 100000, 500000);
    push_model(&mut v, "openai/gpt-oss-120b", None, 150000, 750000);
    push_model(&mut v, "moonshotai/kimi-k2-instruct", None, 1000000, 3000000);
    push_model(&mut v, "meta-llama/llama-4-scout-17b-16e-instruct", None, 110000, 340000);
    push_model(&mut v, "meta-llama/llama-4-maverick-17b-128e-instruct", None, 200000, 600000);
    push_model(&mut v, "meta-llama/llama-guard-4-12b", None, 200000, 200000);
    push_model(&mut v, "deepseek-r1-distill-llama-70b", None, 750000, 990000);
    push_model(&mut v, "qwen/qwen3-32b", None, 290000, 590000);
    push_model(&mut v, "mistral-saba-24b-32k", None, 790000, 790000);
    push_model(&mut v, "llama-3.3-70b-versatile", None, 590000, 790000);
    push_model(&mut v, "llama-3.1-8b-instant", None, 50000, 80000);
    push_model(&mut v, "llama-3-70b-8k", None, 590000, 790000);
    push_model(&mut v, "llama3-70b-8k", None, 590000, 790000);
    push_model(&mut v, "llama3-8b-8k", None, 50000, 80000);
    push_model(&mut v, "gemma2-9b-it", None, 200000, 200000);
    push_model(&mut v, "llama-guard-3-8b-8k", None, 200000, 200000);
    proof {
        assert(models_v(v@) =~= spec_groq_models());
    }
    v
}

fn gemini_models() -> (r: Vec<ModelPricing>)
    ensures
        models_v(r@) == spec_gemini_models(),
{
    let mut v: Vec<ModelPricing> = Vec::new();
    push_model(&mut v, "gemini-3-pro", Some(200000u64), 2000000, 12000000);
    push_model(&mut v, "gemini-3-flash", Some(50000u64), 500000, 3000000);
    push_model(&mut v, "gemini-2.5-pro", Some(125000u64), 1250000, 10000000);
    push_model(&mut v, "gemini-2.5-flash", Some(30000u64), 300000, 2500000);
    push_model(&mut v, "gemini-2.5-flash-lite", Some(10000u64), 100000, 400000);
    push_model(&mut v, "gemini-2.0-flash", Some(25000u64), 100000, 400000);
    push_model(&mut v, "gemini-2.0-flash-lite", None, 75000, 300000);
    push_model(&mut v, "gemini-flash-latest", Some(30000u64), 300000, 2500000);
    push_model(&mut v, "gemini-pro-latest", Some(125000u64), 1250000, 10000000);
    push_model(&mut v, "gemini-embedding-001", None, 150000, 0);
    push_model(&mut v, "gemini-robotics-er-1.5", None, 300000, 2500000);
    push_model(&mut v, "gemini-2.5-computer-use", None, 1250000, 10000000);
    push_model(&mut v, "gemma-3", Some(0u64), 0, 0);
    push_model(&mut v, "gemma-3n", Some(0u64), 0, 0);
    proof {
        assert(models_v(v@) =~= spec_gemini_models());
    }
    v
}

fn deepseek_models() -> (r: Vec<ModelPricing>)
    ensures
        models_v(r@) == spec_deepseek_models(),
{
    let mut v: Vec<ModelPricing> = Vec::new();
    push_model(&mut v, "deepseek-chat", Some(70000u64), 270000, 1100000);
    push_model(&mut v, "deepseek-reasoner", Some(140000u64), 550000, 2190000);
    proof {
        assert(models_v(v@) =~= spec_deepseek_models());
    }
    v
}

fn anthropic_models() -> (r: Vec<ModelPricing>)
    ensures
        models_v(r@) == spec_anthropic_models(),
{
    let mut v: Vec<ModelPricing> = Vec::new();
    push_model(&mut v, "opus-4-6", Some(500000u64), 5000000, 25000000);
    push_model(&mut v, "opus-4-5", Some(500000u64), 5000000, 25000000);
    push_model(&mut v, "opus-4-1", Some(1500000u64), 15000000, 75000000);
    push_model(&mut v, "opus-4", Some(1500000u64), 15000000, 75000000);
    push_model(&mut v, "sonnet-4-5", Some(300000u64), 3000000, 15000000);
    push_model(&mut v, "sonnet-4", Some(300000u64), 3000000, 15000000);
    push_model(&mut v, "haiku-4-5", Some(100000u64), 1000000, 5000000);
    push_model(&mut v, "sonnet-3-5", Some(300000u64), 3000000, 15000000);
    push_model(&mut v, "haiku-3-5", Some(80000u64), 800000, 4000000);
    push_model(&mut v, "haiku-3", Some(30000u64), 250000, 1250000);
    proof {
        assert(models_v(v@) =~= spec_anthropic_models());
    }
    v
}

fn xai_models() -> (r: Vec<ModelPricing>)
    ensures
        models_v(r@) == spec_xai_models(),
{
    let mut v: Vec<ModelPricing> = Vec::new();
    push_model(&mut v, "grok-4", Some(750000u64), 3000000, 15000000);
    push_model(&mut v, "grok-3", Some(750000u64), 3000000, 15000000);
    push_model(&mut v, "grok-3-mini", Some(75000u64), 300000, 500000);
    push_model(&mut v, "grok-3-fast", Some(1250000u64), 5000000, 25000000);
    push_model(&mut v, "grok-3-mini-fast", Some(150000u64), 600000, 4000000);
    push_model(&mut v, "grok-beta", None, 5000000, 15000000);
    push_model(&mut v, "grok-2-image-gen", None, 0, 0);
    push_model(&mut v, "grok-2-vision-1212", None, 2000000, 10000000);
    push_model(&mut v, "grok-2-1212", None, 2000000, 10000000);
    push_model(&mut v, "grok-vision-beta", None, 5000000, 15000000);
    push_model(&mut v, "grok-2-image-1212", None, 0, 70000);
    proof {
        assert(models_v(v@) =~= spec_xai_models());
    }
    v
}

/// Builds the per-provider price table.
pub fn providers() -> (r: Vec<ProviderPricing>)
    ensures
        providers_v(r@) == spec_providers(),
{
    let mut v: Vec<ProviderPricing> = Vec::new();
    push_provider(&mut v, "openai", openai_models());
    push_provider(&mut v, "groq", groq_models());
    push_provider(&mut v, "gemini", gemini_models());
    push_provider(&mut v, "deepseek", deepseek_models());
    push_provider(&mut v, "anthropic", anthropic_models());
    push_provider(&mut v, "xai", xai_models());
    proof {
        assert(providers_v(v@) =~= spec_providers());
    }
    v
}

proof fn lemma_spec_table_wf()
    ensures
        table_wf(spec_providers()),
{
    assert forall|i: int, j: int|
        0 <= i < spec_providers().len() && 0 <= j < spec_providers()[i].models.len()
        implies model_rates_ok(#[trigger] spec_providers()[i].models[j]) by {
        if i == 0 {
            assert(model_rates_ok(spec_openai_models()[j]));
        } else if i == 1 {
            assert(model_rates_ok(spec_groq_models()[j]));
        } else if i == 2 {
            assert(model_rates_ok(spec_gemini_models()[j]));
        } else if i == 3 {
            assert(model_rates_ok(spec_deepseek_models()[j]));
        } else if i == 4 {
            assert(model_rates_ok(spec_anthropic_models()[j]));
        } else {
            assert(model_rates_ok(spec_xai_models()[j]));
        }
    }
}

/// The price in ten-thousandths of a dollar of `usage` for this
/// provider and model in the built-in table, or `None` when either is
/// unknown there.
pub fn price_it(provider_type: &str, model_name: &str, usage: &Usage) -> (r: Option<i64>)
    ensures
        match r {
            Some(p) => spec_price(spec_providers(), provider_type@, model_name@, *usage) == Some(
                p as int,
            ),
            None => spec_price(spec_providers(), provider_type@, model_name@, *usage) is None,
        },
{
    let table = providers();
    proof {
        lemma_spec_table_wf();
    }
    price_for(&table, provider_type, model_name, usage)
}

// endregion: the table

} // verus!
