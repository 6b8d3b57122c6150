use quick_translate::fence::strip_code_fences;
use quick_translate::lang::{
    build_system_prompt, normalize_target_language, tencent_target, to_ascii_lower,
    to_ascii_upper, tone_instruction,
};
use quick_translate::text::is_blank;

#[test]
fn chinese_aliases_share_one_token() {
    assert_eq!(normalize_target_language("zh"), "中文");
    assert_eq!(normalize_target_language("ZH-CN"), "中文");
    assert_eq!(normalize_target_language("zh_cn"), "中文");
    assert_eq!(normalize_target_language("Zh-Hans"), "中文");
    assert_eq!(normalize_target_language("chinese"), "中文");
    assert_eq!(normalize_target_language("  CHINESE  "), "中文");
}

#[test]
fn english_and_japanese_aliases_share_one_token() {
    assert_eq!(normalize_target_language("en"), "英文");
    assert_eq!(normalize_target_language("EN-US"), "英文");
    assert_eq!(normalize_target_language("en_gb"), "英文");
    assert_eq!(normalize_target_language("En-Gb"), "英文");
    assert_eq!(normalize_target_language("English"), "英文");
    assert_eq!(normalize_target_language("ja"), "日文");
    assert_eq!(normalize_target_language("JP"), "日文");
    assert_eq!(normalize_target_language("japanese"), "日文");
}

#[test]
fn unrecognized_target_passes_through_trimmed() {
    assert_eq!(normalize_target_language("fr"), "fr");
    assert_eq!(normalize_target_language("  Deutsch  "), "Deutsch");
    assert_eq!(normalize_target_language(""), "");
}

#[test]
fn trimming_removes_unicode_whitespace() {
    // The same characters `str::trim` removes: vertical tab, NEL,
    // no-break space, the U+2000 block, line and paragraph separators.
    assert_eq!(normalize_target_language("\u{b}fr"), "fr");
    assert_eq!(normalize_target_language("\u{2028}zh"), "中文");
    assert_eq!(normalize_target_language("\u{a0}EN\u{3000}"), "英文");
    assert_eq!(
        normalize_target_language("\u{b}zh"),
        normalize_target_language("zh")
    );
}

#[test]
fn provider_target_codes_collapse() {
    assert_eq!(tencent_target("ZH-CN"), "zh");
    assert_eq!(tencent_target("zh"), "zh");
    assert_eq!(tencent_target("EN-US"), "en");
    assert_eq!(tencent_target("Ja"), "ja");
    assert_eq!(tencent_target("kr"), "ko");
    assert_eq!(tencent_target("ko"), "ko");
    assert_eq!(tencent_target("de"), "de");
}

#[test]
fn case_mapping_is_ascii_only() {
    assert_eq!(to_ascii_upper("abc-XYZ_9"), "ABC-XYZ_9");
    assert_eq!(to_ascii_lower("ABC-xyz_9"), "abc-xyz_9");
    assert_eq!(to_ascii_upper("中文"), "中文");
}

#[test]
fn tone_hints_map_to_fixed_instructions() {
    assert_eq!(
        tone_instruction("Formal"),
        "Use a professional, formal, and polite tone suitable for business contexts."
    );
    assert_eq!(
        tone_instruction("Casual"),
        "Use a casual, natural, and conversational tone as used in daily life."
    );
    assert_eq!(
        tone_instruction("Academic"),
        "Use an academic, rigorous, and objective tone with appropriate terminology."
    );
    assert_eq!(
        tone_instruction("Creative"),
        "Use a creative, vivid, and expressive tone with literary devices if appropriate."
    );
    assert_eq!(tone_instruction("anything"), "Use a natural and fluent tone.");
    assert_eq!(tone_instruction(""), "Use a natural and fluent tone.");
}

#[test]
fn system_prompt_embeds_target_and_tone() {
    let p = build_system_prompt("中文", "Formal");
    assert!(p.contains("into 中文."));
    assert!(p.contains("Use a professional, formal, and polite tone"));
    assert!(p.starts_with("You are a professional translation engine."));
    assert!(p.ends_with("as much as possible."));
}

#[test]
fn fenced_text_is_stripped() {
    assert_eq!(strip_code_fences("```text\nHello\n```"), "Hello");
    assert_eq!(strip_code_fences("```\n\u{a0}x\n```"), "x");
    assert_eq!(strip_code_fences("```\nfoo bar\n```"), "foo bar");
    assert_eq!(strip_code_fences("```json\n{\"a\":1}\n```"), "{\"a\":1}");
    assert_eq!(strip_code_fences("  ```md\nx\n```  "), "x");
}

#[test]
fn unfenced_text_is_only_trimmed() {
    assert_eq!(strip_code_fences("Hello"), "Hello");
    assert_eq!(strip_code_fences("  Hello  "), "Hello");
    assert_eq!(strip_code_fences("a ``` b"), "a ``` b");
    assert_eq!(strip_code_fences(""), "");
}

#[test]
fn stripping_twice_equals_stripping_once() {
    for s in [
        "```text\nHello\n```",
        "Hello",
        "  padded  ",
        "```\nfoo\n```",
        "``````",
        "```",
    ] {
        let once = strip_code_fences(s);
        let twice = strip_code_fences(&once);
        assert_eq!(once, twice);
    }
}

#[test]
fn nested_fences_strip_to_the_inner_fence() {
    // The one stripping pass removes only the outer wrapping; the result
    // here is itself fenced, so a second pass would strip further.
    assert_eq!(strip_code_fences("``` ```x``` ```"), "```x```");
    assert_eq!(strip_code_fences("```x```"), "");
}

#[test]
fn degenerate_fences_empty_out() {
    assert_eq!(strip_code_fences("```"), "");
    assert_eq!(strip_code_fences("``````"), "");
    assert_eq!(strip_code_fences("```rust```"), "");
}

#[test]
fn blankness_ignores_whitespace() {
    assert!(is_blank(""));
    assert!(is_blank("  \t\r\n "));
    assert!(is_blank("\u{b}\u{c}\u{85}\u{a0}\u{1680}\u{2003}\u{2028}\u{2029}\u{202f}\u{205f}\u{3000}"));
    assert!(!is_blank(" x "));
    assert!(!is_blank("\u{200b}"));
}
