use aipack::agent::parse_prompt_part_options;
use aipack::num::format_num;
use aipack::paths::{is_windows_style, path_join_os_normalized};
use aipack::pricing::{PromptTokensDetails, Usage};
use aipack::report::{format_duration, format_price, format_usage, numval_text};
use aipack::text::{
    first_line_truncate, remove_first_lines_impl, remove_last_lines_impl, to_ascii_lower,
};
use aipack::value::NumVal;

#[test]
fn test_remove_first_lines_simple() {
    assert_eq!(remove_first_lines_impl("one\ntwo\nthree", 1), "two\nthree");
    assert_eq!(remove_first_lines_impl("one\ntwo\nthree", 2), "three");
    // fewer line breaks than asked: everything goes
    assert_eq!(remove_first_lines_impl("one", 1), "");
    assert_eq!(remove_first_lines_impl("one\ntwo", 5), "");
    assert_eq!(remove_first_lines_impl("one\ntwo", 0), "one\ntwo");
}

#[test]
fn test_remove_last_lines_simple() {
    assert_eq!(remove_last_lines_impl("one\ntwo\nthree", 1), "one\ntwo");
    assert_eq!(remove_last_lines_impl("one\ntwo\nthree", 2), "one");
    assert_eq!(remove_last_lines_impl("one", 1), "");
    assert_eq!(remove_last_lines_impl("one\ntwo", 5), "");
    assert_eq!(remove_last_lines_impl("one\ntwo", 0), "one\ntwo");
}

#[test]
fn test_first_line_truncate_simple() {
    assert_eq!(first_line_truncate("hello world\nsecond", 5), "hello");
    assert_eq!(first_line_truncate("short\nrest", 100), "short");
    assert_eq!(first_line_truncate("windows line\r\nrest", 100), "windows line");
    assert_eq!(first_line_truncate("", 10), "");
}

#[test]
fn test_format_num_grouping() {
    assert_eq!(format_num(0), "0");
    assert_eq!(format_num(999), "999");
    assert_eq!(format_num(1000), "1,000");
    assert_eq!(format_num(1234567), "1,234,567");
    assert_eq!(format_num(-1234567), "-1,234,567");
}

#[test]
fn test_format_duration_millis() {
    assert_eq!(format_duration(1234), "1.234s");
    assert_eq!(format_duration(45), "0.045s");
    assert_eq!(format_duration(61000), "61.000s");
}

#[test]
fn test_format_price_trims_zeros() {
    assert_eq!(format_price(75), "0.0075");
    assert_eq!(format_price(50), "0.005");
    assert_eq!(format_price(20000), "2");
    assert_eq!(format_price(114), "0.0114");
}

#[test]
fn test_numval_text_scales() {
    assert_eq!(numval_text(NumVal { mantissa: 3, scale: 1 }), "0.3");
    assert_eq!(numval_text(NumVal { mantissa: 25, scale: 1 }), "2.5");
    assert_eq!(numval_text(NumVal { mantissa: 7, scale: 0 }), "7");
    assert_eq!(numval_text(NumVal { mantissa: -15, scale: 1 }), "-1.5");
}

#[test]
fn test_to_ascii_lower_adapter_names() {
    assert_eq!(to_ascii_lower("OpenAI"), "openai");
    assert_eq!(to_ascii_lower("Gemini"), "gemini");
    assert_eq!(to_ascii_lower("already-lower"), "already-lower");
}

#[test]
fn test_is_windows_style_paths() {
    assert!(is_windows_style("C:/Users"));
    assert!(is_windows_style("\\\\server\\share"));
    assert!(!is_windows_style("/usr/local"));
    assert!(!is_windows_style("relative/path"));
}

#[test]
fn test_path_join_posix() {
    let comps = vec!["some/dir/".to_string(), "/sub/".to_string(), "file.txt".to_string()];
    assert_eq!(path_join_os_normalized(&comps, '/'), "some/dir/sub/file.txt");
}

#[test]
fn test_path_join_windows() {
    let comps = vec!["C:/base/".to_string(), "sub/dir".to_string()];
    assert_eq!(path_join_os_normalized(&comps, '/'), "C:\\base\\sub\\dir");
}

#[test]
fn test_format_usage_breakdown() {
    let usage = Usage {
        prompt_tokens: Some(12000),
        completion_tokens: Some(345),
        prompt_tokens_details: Some(PromptTokensDetails {
            cached_tokens: Some(1000),
            cache_creation_tokens: Some(200),
            audio_tokens: None,
        }),
        ..Default::default()
    };
    assert_eq!(
        format_usage(&usage),
        "Prompt Tokens: 12,000 (cached: 1,000, cache_creation: 200) | Completion Tokens: 345"
    );
}

#[test]
fn test_parse_part_options_directive() {
    let parsed = parse_prompt_part_options("  cache = true  ").expect("directive parses");
    assert!(parsed.expect("directive present").cache);
    let parsed = parse_prompt_part_options("cache = false").expect("directive parses");
    assert!(!parsed.expect("directive present").cache);
    assert!(parse_prompt_part_options("   ").expect("blank is no directive").is_none());
    assert!(parse_prompt_part_options("cache = maybe").is_err());
}
