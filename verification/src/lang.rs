//! Target-language normalization, tone instructions and the system prompt
//! handed to the chat-completion engine.
use vstd::prelude::*;
use vstd::string::StringExecFns;
use crate::text::{trim_spec, trim, chars_of, string_of, str_eq};

verus! {

broadcast use vstd::string::group_string_axioms;

/// ASCII uppercase of one character; all others are unchanged.
pub open spec fn upper_char(c: char) -> char {
    if c == 'a' { 'A' } else if c == 'b' { 'B' } else if c == 'c' { 'C' }
    else if c == 'd' { 'D' } else if c == 'e' { 'E' } else if c == 'f' { 'F' }
    else if c == 'g' { 'G' } else if c == 'h' { 'H' } else if c == 'i' { 'I' }
    else if c == 'j' { 'J' } else if c == 'k' { 'K' } else if c == 'l' { 'L' }
    else if c == 'm' { 'M' } else if c == 'n' { 'N' } else if c == 'o' { 'O' }
    else if c == 'p' { 'P' } else if c == 'q' { 'Q' } else if c == 'r' { 'R' }
    else if c == 's' { 'S' } else if c == 't' { 'T' } else if c == 'u' { 'U' }
    else if c == 'v' { 'V' } else if c == 'w' { 'W' } else if c == 'x' { 'X' }
    else if c == 'y' { 'Y' } else if c == 'z' { 'Z' } else { c }
}

/// ASCII lowercase of one character; all others are unchanged.
pub open spec fn lower_char(c: char) -> char {
    if c == 'A' { 'a' } else if c == 'B' { 'b' } else if c == 'C' { 'c' }
    else if c == 'D' { 'd' } else if c == 'E' { 'e' } else if c == 'F' { 'f' }
    else if c == 'G' { 'g' } else if c == 'H' { 'h' } else if c == 'I' { 'i' }
    else if c == 'J' { 'j' } else if c == 'K' { 'k' } else if c == 'L' { 'l' }
    else if c == 'M' { 'm' } else if c == 'N' { 'n' } else if c == 'O' { 'o' }
    else if c == 'P' { 'p' } else if c == 'Q' { 'q' } else if c == 'R' { 'r' }
    else if c == 'S' { 's' } else if c == 'T' { 't' } else if c == 'U' { 'u' }
    else if c == 'V' { 'v' } else if c == 'W' { 'w' } else if c == 'X' { 'x' }
    else if c == 'Y' { 'y' } else if c == 'Z' { 'z' } else { c }
}

pub open spec fn upper_seq(s: Seq<char>) -> Seq<char> {
    s.map_values(|c: char| upper_char(c))
}

pub open spec fn lower_seq(s: Seq<char>) -> Seq<char> {
    s.map_values(|c: char| lower_char(c))
}

/// The aliases recognized for Chinese, compared after trimming and ASCII
/// uppercasing.
pub open spec fn is_chinese_alias(u: Seq<char>) -> bool {
    u == "ZH"@ || u == "ZH-CN"@ || u == "ZH_CN"@ || u == "ZH-HANS"@ || u == "CHINESE"@
}

/// The aliases recognized for English.
pub open spec fn is_english_alias(u: Seq<char>) -> bool {
    u == "EN"@ || u == "EN-US"@ || u == "EN_GB"@ || u == "EN-GB"@ || u == "ENGLISH"@
}

/// The aliases recognized for Japanese.
pub open spec fn is_japanese_alias(u: Seq<char>) -> bool {
    u == "JA"@ || u == "JP"@ || u == "JAPANESE"@
}

/// Normalization of a target-language token: a recognized alias becomes the
/// one canonical token of its language; anything else passes through
/// trimmed but otherwise unchanged.
pub open spec fn normalize_target_spec(s: Seq<char>) -> Seq<char> {
    let u = upper_seq(trim_spec(s));
    if is_chinese_alias(u) {
        "中文"@
    } else if is_english_alias(u) {
        "英文"@
    } else if is_japanese_alias(u) {
        "日文"@
    } else {
        trim_spec(s)
    }
}

fn upper_char_exec(c: char) -> (r: char)
    ensures
        r == upper_char(c),
{
    match c {
        'a' => 'A', 'b' => 'B', 'c' => 'C', 'd' => 'D', 'e' => 'E', 'f' => 'F',
        'g' => 'G', 'h' => 'H', 'i' => 'I', 'j' => 'J', 'k' => 'K', 'l' => 'L',
        'm' => 'M', 'n' => 'N', 'o' => 'O', 'p' => 'P', 'q' => 'Q', 'r' => 'R',
        's' => 'S', 't' => 'T', 'u' => 'U', 'v' => 'V', 'w' => 'W', 'x' => 'X',
        'y' => 'Y', 'z' => 'Z',
        _ => c,
    }
}

fn lower_char_exec(c: char) -> (r: char)
    ensures
        r == lower_char(c),
{
    match c {
        'A' => 'a', 'B' => 'b', 'C' => 'c', 'D' => 'd', 'E' => 'e', 'F' => 'f',
        'G' => 'g', 'H' => 'h', 'I' => 'i', 'J' => 'j', 'K' => 'k', 'L' => 'l',
        'M' => 'm', 'N' => 'n', 'O' => 'o', 'P' => 'p', 'Q' => 'q', 'R' => 'r',
        'S' => 's', 'T' => 't', 'U' => 'u', 'V' => 'v', 'W' => 'w', 'X' => 'x',
        'Y' => 'y', 'Z' => 'z',
        _ => c,
    }
}

/// ASCII uppercase of a whole string.
pub fn to_ascii_upper(s: &str) -> (r: String)
    ensures
        r@ == upper_seq(s@),
{
    let v = chars_of(s);
    let n = v.len();
    let mut out: Vec<char> = Vec::new();
    let mut i: usize = 0;
    while i < n
        invariant
            0 <= i <= n,
            n == v@.len(),
            v@ == s@,
            out@ == upper_seq(s@.take(i as int)),
        decreases n - i,
    {
        out.push(upper_char_exec(v[i]));
        proof {
            assert(out@ =~= upper_seq(s@.take(i + 1)));
        }
        i = i + 1;
    }
    proof {
        assert(s@.take(n as int) =~= s@);
    }
    string_of(&out)
}

/// ASCII lowercase of a whole string.
pub fn to_ascii_lower(s: &str) -> (r: String)
    ensures
        r@ == lower_seq(s@),
{
    let v = chars_of(s);
    let n = v.len();
    let mut out: Vec<char> = Vec::new();
    let mut i: usize = 0;
    while i < n
        invariant
            0 <= i <= n,
            n == v@.len(),
            v@ == s@,
            out@ == lower_seq(s@.take(i as int)),
        decreases n - i,
    {
        out.push(lower_char_exec(v[i]));
        proof {
            assert(out@ =~= lower_seq(s@.take(i + 1)));
        }
        i = i + 1;
    }
    proof {
        assert(s@.take(n as int) =~= s@);
    }
    string_of(&out)
}

/// Maps a target-language token onto the canonical token the prompt uses:
/// recognized Chinese, English and Japanese aliases collapse to a single
/// token per language, case-insensitively; anything else is only trimmed.
pub fn normalize_target_language(target_lang: &str) -> (r: String)
    ensures
        r@ == normalize_target_spec(target_lang@),
{
    let t = trim(target_lang);
    let up = to_ascii_upper(t.as_str());
    let u = up.as_str();
    if str_eq(u, "ZH") || str_eq(u, "ZH-CN") || str_eq(u, "ZH_CN") || str_eq(u, "ZH-HANS")
        || str_eq(u, "CHINESE") {
        String::from_str("中文")
    } else if str_eq(u, "EN") || str_eq(u, "EN-US") || str_eq(u, "EN_GB") || str_eq(u, "EN-GB")
        || str_eq(u, "ENGLISH") {
        String::from_str("英文")
    } else if str_eq(u, "JA") || str_eq(u, "JP") || str_eq(u, "JAPANESE") {
        String::from_str("日文")
    } else {
        t
    }
}

/// Every recognized Chinese alias normalizes to the one canonical token.
pub proof fn lemma_chinese_aliases_canonical(s: Seq<char>)
    requires
        is_chinese_alias(upper_seq(trim_spec(s))),
    ensures
        normalize_target_spec(s) == "中文"@,
{
}

/// Every recognized English alias normalizes to the one canonical token.
pub proof fn lemma_english_aliases_canonical(s: Seq<char>)
    requires
        is_english_alias(upper_seq(trim_spec(s))),
    ensures
        normalize_target_spec(s) == "英文"@,
{
    reveal_strlit("ZH");
    reveal_strlit("ZH-CN");
    reveal_strlit("ZH_CN");
    reveal_strlit("ZH-HANS");
    reveal_strlit("CHINESE");
    reveal_strlit("EN");
    reveal_strlit("EN-US");
    reveal_strlit("EN_GB");
    reveal_strlit("EN-GB");
    reveal_strlit("ENGLISH");
    assert(("ZH"@)[0] == 'Z' && ("ZH-CN"@)[0] == 'Z' && ("ZH_CN"@)[0] == 'Z'
        && ("ZH-HANS"@)[0] == 'Z' && ("CHINESE"@)[0] == 'C');
    assert(("EN"@)[0] == 'E' && ("EN-US"@)[0] == 'E' && ("EN_GB"@)[0] == 'E'
        && ("EN-GB"@)[0] == 'E' && ("ENGLISH"@)[0] == 'E');
}

/// Every recognized Japanese alias normalizes to the one canonical token.
pub proof fn lemma_japanese_aliases_canonical(s: Seq<char>)
    requires
        is_japanese_alias(upper_seq(trim_spec(s))),
    ensures
        normalize_target_spec(s) == "日文"@,
{
    reveal_strlit("ZH");
    reveal_strlit("ZH-CN");
    reveal_strlit("ZH_CN");
    reveal_strlit("ZH-HANS");
    reveal_strlit("CHINESE");
    reveal_strlit("EN");
    reveal_strlit("EN-US");
    reveal_strlit("EN_GB");
    reveal_strlit("EN-GB");
    reveal_strlit("ENGLISH");
    reveal_strlit("JA");
    reveal_strlit("JP");
    reveal_strlit("JAPANESE");
    assert(("ZH"@)[0] == 'Z' && ("ZH-CN"@)[0] == 'Z' && ("ZH_CN"@)[0] == 'Z'
        && ("ZH-HANS"@)[0] == 'Z' && ("CHINESE"@)[0] == 'C');
    assert(("EN"@)[0] == 'E' && ("EN-US"@)[0] == 'E' && ("EN_GB"@)[0] == 'E'
        && ("EN-GB"@)[0] == 'E' && ("ENGLISH"@)[0] == 'E');
    assert(("JA"@)[0] == 'J' && ("JP"@)[0] == 'J' && ("JAPANESE"@)[0] == 'J');
}

/// The target token sent to the cloud translation provider: a recognized
/// alias collapses, case-insensitively, to the provider's two-letter code;
/// anything else passes through unchanged.
pub open spec fn tencent_target_spec(s: Seq<char>) -> Seq<char> {
    let l = lower_seq(s);
    if l == "zh"@ || l == "zh-cn"@ {
        "zh"@
    } else if l == "en"@ || l == "en-us"@ {
        "en"@
    } else if l == "ja"@ || l == "jp"@ {
        "ja"@
    } else if l == "ko"@ || l == "kr"@ {
        "ko"@
    } else {
        s
    }
}

pub fn tencent_target(target_lang: &str) -> (r: String)
    ensures
        r@ == tencent_target_spec(target_lang@),
{
    let low = to_ascii_lower(target_lang);
    let l = low.as_str();
    if str_eq(l, "zh") || str_eq(l, "zh-cn") {
        String::from_str("zh")
    } else if str_eq(l, "en") || str_eq(l, "en-us") {
        String::from_str("en")
    } else if str_eq(l, "ja") || str_eq(l, "jp") {
        String::from_str("ja")
    } else if str_eq(l, "ko") || str_eq(l, "kr") {
        String::from_str("ko")
    } else {
        String::from_str(target_lang)
    }
}

/// The fixed instruction appended to the system prompt for each tone hint;
/// an unrecognized hint gets the default natural-tone instruction.
pub open spec fn tone_instruction_spec(tone: Seq<char>) -> Seq<char> {
    if tone == "Formal"@ {
        "Use a professional, formal, and polite tone suitable for business contexts."@
    } else if tone == "Casual"@ {
        "Use a casual, natural, and conversational tone as used in daily life."@
    } else if tone == "Academic"@ {
        "Use an academic, rigorous, and objective tone with appropriate terminology."@
    } else if tone == "Creative"@ {
        "Use a creative, vivid, and expressive tone with literary devices if appropriate."@
    } else {
        "Use a natural and fluent tone."@
    }
}

pub fn tone_instruction(tone: &str) -> (r: String)
    ensures
        r@ == tone_instruction_spec(tone@),
{
    if str_eq(tone, "Formal") {
        String::from_str(
            "Use a professional, formal, and polite tone suitable for business contexts.",
        )
    } else if str_eq(tone, "Casual") {
        String::from_str("Use a casual, natural, and conversational tone as used in daily life.")
    } else if str_eq(tone, "Academic") {
        String::from_str(
            "Use an academic, rigorous, and objective tone with appropriate terminology.",
        )
    } else if str_eq(tone, "Creative") {
        String::from_str(
            "Use a creative, vivid, and expressive tone with literary devices if appropriate.",
        )
    } else {
        String::from_str("Use a natural and fluent tone.")
    }
}

/// The system prompt: the translation instruction naming the canonical
/// target token, the tone instruction, then the fixed output requirements.
pub open spec fn system_prompt_spec(target: Seq<char>, tone: Seq<char>) -> Seq<char> {
    "You are a professional translation engine. Translate the provided text into "@ + target
        + ". "@ + tone_instruction_spec(tone)
        + " Requirements: Output ONLY the translated text without explanations, quotes, Markdown, numbering, or extra content. Preserve original line breaks and formatting as much as possible."@
}

/// Builds the system prompt for a normalized target token and a tone hint.
pub fn build_system_prompt(target: &str, tone: &str) -> (r: String)
    ensures
        r@ == system_prompt_spec(target@, tone@),
{
    let mut s = String::from_str(
        "You are a professional translation engine. Translate the provided text into ",
    );
    s.append(target);
    s.append(". ");
    let ti = tone_instruction(tone);
    s.append(ti.as_str());
    s.append(
        " Requirements: Output ONLY the translated text without explanations, quotes, Markdown, numbering, or extra content. Preserve original line breaks and formatting as much as possible.",
    );
    s
}

} // verus!
