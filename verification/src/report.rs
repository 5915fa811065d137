//! Human-readable accounting text: duration, price, token breakdown and
//! model identity, composed into the one-line info string of a chat
//! response.
use vstd::prelude::*;

use crate::num::{format_num, padded_digits, spec_digits, spec_format_num, spec_padded_digits,
    spec_trim_zeros, trim_zeros, u64_digits};
use crate::pricing::Usage;
use crate::text::{str_eq, string_from_chars};
use crate::value::NumVal;
use vstd::string::StringExecFns;

verus! {

// region: numbers and durations

pub open spec fn spec_pow10(n: nat) -> nat
    decreases n,
{
    if n == 0 {
        1
    } else {
        10 * spec_pow10((n - 1) as nat)
    }
}

proof fn lemma_pow10_vals()
    ensures
        spec_pow10(17) == 100_000_000_000_000_000,
        spec_pow10(18) == 1_000_000_000_000_000_000,
{
    assert(spec_pow10(0) == 1);
    assert(spec_pow10(1) == 10);
    assert(spec_pow10(2) == 100);
    assert(spec_pow10(3) == 1000);
    assert(spec_pow10(4) == 10000);
    assert(spec_pow10(5) == 100000);
    assert(spec_pow10(6) == 1000000);
    assert(spec_pow10(7) == 10000000);
    assert(spec_pow10(8) == 100000000);
    assert(spec_pow10(9) == 1000000000);
    assert(spec_pow10(10) == 10000000000);
    assert(spec_pow10(11) == 100000000000);
    assert(spec_pow10(12) == 1000000000000);
    assert(spec_pow10(13) == 10000000000000);
    assert(spec_pow10(14) == 100000000000000);
    assert(spec_pow10(15) == 1000000000000000);
    assert(spec_pow10(16) == 10000000000000000);
    assert(spec_pow10(17) == 100000000000000000);
    assert(spec_pow10(18) == 1000000000000000000);
}

proof fn lemma_pow10_bound(n: nat)
    requires
        n <= 18,
    ensures
        spec_pow10(n) <= 1_000_000_000_000_000_000,
        spec_pow10(n) >= 1,
{
    lemma_pow10_pos(n);
    lemma_pow10_mono(n, 18);
    lemma_pow10_vals();
}

proof fn lemma_pow10_mono(a: nat, b: nat)
    requires
        a <= b,
    ensures
        spec_pow10(a) <= spec_pow10(b),
    decreases b,
{
    if a < b {
        lemma_pow10_mono(a, (b - 1) as nat);
        lemma_pow10_pos((b - 1) as nat);
    }
}

proof fn lemma_pow10_pos(n: nat)
    ensures
        spec_pow10(n) >= 1,
    decreases n,
{
    if n > 0 {
        lemma_pow10_pos((n - 1) as nat);
    }
}

fn pow10(n: u32) -> (r: u64)
    requires
        n <= 18,
    ensures
        r as nat == spec_pow10(n as nat),
        r >= 1,
{
    proof {
        lemma_pow10_pos(n as nat);
    }
    let mut p: u64 = 1;
    let mut k: u32 = 0;
    while k < n
        invariant
            0 <= k <= n <= 18,
            p as nat == spec_pow10(k as nat),
        decreases n - k,
    {
        proof {
            lemma_pow10_mono(k as nat, 17);
            lemma_pow10_vals();
        }
        p = p * 10;
        k = k + 1;
    }
    p
}

/// The decimal text of a fixed-point number: sign, integer digits, and
/// `scale` fractional digits when the scale is positive.
pub open spec fn spec_numval_text(n: NumVal) -> Seq<char> {
    let mag = if n.mantissa < 0 {
        -(n.mantissa as int)
    } else {
        n.mantissa as int
    };
    let p = spec_pow10(n.scale as nat) as int;
    let digits = if n.scale == 0 {
        spec_digits(mag as nat)
    } else {
        spec_digits((mag / p) as nat) + seq!['.'] + spec_padded_digits(
            (mag % p) as nat,
            n.scale as nat,
        )
    };
    if n.mantissa < 0 {
        seq!['-'] + digits
    } else {
        digits
    }
}

/// Renders a fixed-point number (`NumVal { mantissa: 25, scale: 1 }` as
/// `2.5`).
pub fn numval_text(n: NumVal) -> (r: String)
    requires
        n.wf(),
    ensures
        r@ == spec_numval_text(n),
{
    let mag: u64 = if n.mantissa < 0 {
        (-(n.mantissa as i128)) as u64
    } else {
        n.mantissa as u64
    };
    let mut digits = if n.scale == 0 {
        u64_digits(mag)
    } else {
        let p = pow10(n.scale);
        proof {
            lemma_pow10_bound(n.scale as nat);
        }
        let mut d = u64_digits(mag / p);
        d.push('.');
        let mut frac = padded_digits(mag % p, n.scale as usize);
        d.append(&mut frac);
        proof {
            assert(d@ =~= spec_digits((mag / p) as nat) + seq!['.'] + spec_padded_digits(
                (mag % p) as nat,
                n.scale as nat,
            ));
        }
        d
    };
    if n.mantissa < 0 {
        let mut out: Vec<char> = Vec::new();
        out.push('-');
        out.append(&mut digits);
        proof {
            assert(out@ =~= spec_numval_text(n));
        }
        string_from_chars(out.as_slice())
    } else {
        string_from_chars(digits.as_slice())
    }
}

/// Wall-clock duration text: seconds with three decimal places, as in
/// `1.234s`.
pub open spec fn spec_duration_text(ms: nat) -> Seq<char> {
    spec_digits(ms / 1000) + seq!['.'] + spec_padded_digits(ms % 1000, 3) + seq!['s']
}

pub fn format_duration(duration_ms: u64) -> (r: String)
    ensures
        r@ == spec_duration_text(duration_ms as nat),
{
    let mut d = u64_digits(duration_ms / 1000);
    d.push('.');
    let mut frac = padded_digits(duration_ms % 1000, 3);
    d.append(&mut frac);
    d.push('s');
    proof {
        assert(d@ =~= spec_duration_text(duration_ms as nat));
    }
    string_from_chars(d.as_slice())
}

/// Price text from ten-thousandths of a dollar: the integer dollars,
/// then the fraction with trailing zeros trimmed (`75` as `0.0075`,
/// `50` as `0.005`, `20000` as `2`).
pub open spec fn spec_price_text(p: int) -> Seq<char> {
    let mag = if p < 0 {
        -p
    } else {
        p
    };
    let digits = if mag % 10000 == 0 {
        spec_digits((mag / 10000) as nat)
    } else {
        spec_digits((mag / 10000) as nat) + seq!['.'] + spec_trim_zeros(
            spec_padded_digits((mag % 10000) as nat, 4),
        )
    };
    if p < 0 {
        seq!['-'] + digits
    } else {
        digits
    }
}

pub fn format_price(p: i64) -> (r: String)
    ensures
        r@ == spec_price_text(p as int),
{
    let mag: u64 = if p < 0 {
        (-(p as i128)) as u64
    } else {
        p as u64
    };
    let mut digits = if mag % 10000 == 0 {
        u64_digits(mag / 10000)
    } else {
        let mut d = u64_digits(mag / 10000);
        d.push('.');
        let mut frac = trim_zeros(padded_digits(mag % 10000, 4));
        d.append(&mut frac);
        proof {
            assert(d@ =~= spec_digits((mag / 10000) as nat) + seq!['.'] + spec_trim_zeros(
                spec_padded_digits((mag % 10000) as nat, 4),
            ));
        }
        d
    };
    if p < 0 {
        let mut out: Vec<char> = Vec::new();
        out.push('-');
        out.append(&mut digits);
        proof {
            assert(out@ =~= spec_price_text(p as int));
        }
        string_from_chars(out.as_slice())
    } else {
        string_from_chars(digits.as_slice())
    }
}

// endregion: numbers and durations

// region: usage and model text

/// The token breakdown line: prompt total with cached and
/// cache-creation sub-counts, completion total with the reasoning
/// sub-count.
pub open spec fn spec_usage_text(u: Usage) -> Seq<char> {
    let prompt = "Prompt Tokens: "@ + spec_format_num(match u.prompt_tokens {
        Some(t) => t as int,
        None => 0,
    });
    let prompt = match u.prompt_tokens_details {
        Some(d) => {
            let cached = prompt + " (cached: "@ + spec_format_num(match d.cached_tokens {
                Some(t) => t as int,
                None => 0,
            });
            let cached = match d.cache_creation_tokens {
                Some(cc) => cached + ", cache_creation: "@ + spec_format_num(cc as int),
                None => cached,
            };
            cached + ")"@
        },
        None => prompt,
    };
    let full = prompt + " | Completion Tokens: "@ + spec_format_num(match u.completion_tokens {
        Some(t) => t as int,
        None => 0,
    });
    match u.completion_tokens_details {
        Some(d) => match d.reasoning_tokens {
            Some(rt) => full + " (reasoning: "@ + spec_format_num(rt as int) + ")"@,
            None => full,
        },
        None => full,
    }
}

/// Renders the token breakdown of a usage.
pub fn format_usage(usage: &Usage) -> (r: String)
    ensures
        r@ == spec_usage_text(*usage),
{
    let mut buff = String::new();
    buff.append("Prompt Tokens: ");
    let pt = format_num(match usage.prompt_tokens {
        Some(t) => t as i64,
        None => 0,
    });
    buff.append(pt.as_str());
    if let Some(d) = &usage.prompt_tokens_details {
        buff.append(" (cached: ");
        let ct = format_num(match d.cached_tokens {
            Some(t) => t as i64,
            None => 0,
        });
        buff.append(ct.as_str());
        if let Some(cc) = d.cache_creation_tokens {
            buff.append(", cache_creation: ");
            let cct = format_num(cc as i64);
            buff.append(cct.as_str());
        }
        buff.append(")");
    }
    buff.append(" | Completion Tokens: ");
    let comp = format_num(match usage.completion_tokens {
        Some(t) => t as i64,
        None => 0,
    });
    buff.append(comp.as_str());
    if let Some(d) = &usage.completion_tokens_details {
        if let Some(rt) = d.reasoning_tokens {
            buff.append(" (reasoning: ");
            let rtt = format_num(rt as i64);
            buff.append(rtt.as_str());
            buff.append(")");
        }
    }
    buff
}

/// The model identity section: the resolved model name (with the
/// provider's own name when it differs), the adapter, and the sampling
/// settings when set.
pub open spec fn spec_model_text(
    model_name: Seq<char>,
    provider_model_name: Seq<char>,
    adapter_kind: Seq<char>,
    temperature: Option<NumVal>,
    top_p: Option<NumVal>,
) -> Seq<char> {
    let model_section = if model_name != provider_model_name {
        "Model: "@ + model_name + " ("@ + provider_model_name + ") "@
    } else {
        "Model: "@ + model_name + " "@
    };
    let text = model_section + "| Adapter: "@ + adapter_kind;
    let text = match temperature {
        Some(t) => text + " | Temperature: "@ + spec_numval_text(t),
        None => text,
    };
    match top_p {
        Some(t) => text + " | top_p: "@ + spec_numval_text(t),
        None => text,
    }
}

/// Renders the model identity section of the info string.
pub fn format_model(
    model_name: &str,
    provider_model_name: &str,
    adapter_kind: &str,
    temperature: Option<NumVal>,
    top_p: Option<NumVal>,
) -> (r: String)
    requires
        temperature is Some ==> temperature->0.wf(),
        top_p is Some ==> top_p->0.wf(),
    ensures
        r@ == spec_model_text(model_name@, provider_model_name@, adapter_kind@, temperature, top_p),
{
    let mut buff = String::new();
    buff.append("Model: ");
    buff.append(model_name);
    if !str_eq(model_name, provider_model_name) {
        buff.append(" (");
        buff.append(provider_model_name);
        buff.append(") ");
    } else {
        buff.append(" ");
    }
    buff.append("| Adapter: ");
    buff.append(adapter_kind);
    if let Some(t) = temperature {
        buff.append(" | Temperature: ");
        let tt = numval_text(t);
        buff.append(tt.as_str());
    }
    if let Some(t) = top_p {
        buff.append(" | top_p: ");
        let tt = numval_text(t);
        buff.append(tt.as_str());
    }
    buff
}

/// The leading part of the info string: duration, price when known, and
/// the token breakdown.
pub open spec fn spec_first_info_text(duration_ms: nat, price: Option<int>, u: Usage) -> Seq<char> {
    let text = "Duration: "@ + spec_duration_text(duration_ms);
    let text = match price {
        Some(p) => text + " | ~$"@ + spec_price_text(p),
        None => text,
    };
    text + " | "@ + spec_usage_text(u)
}

/// Renders duration, price and usage into the start of the info string.
pub fn format_first_info(duration_ms: u64, price: Option<i64>, usage: &Usage) -> (r: String)
    ensures
        r@ == spec_first_info_text(duration_ms as nat, match price {
            Some(p) => Some(p as int),
            None => None,
        }, *usage),
{
    let mut buff = String::new();
    buff.append("Duration: ");
    let d = format_duration(duration_ms);
    buff.append(d.as_str());
    if let Some(p) = price {
        buff.append(" | ~$");
        let pt = format_price(p);
        buff.append(pt.as_str());
    }
    buff.append(" | ");
    let ut = format_usage(usage);
    buff.append(ut.as_str());
    buff
}

// endregion: usage and model text

} // verus!
