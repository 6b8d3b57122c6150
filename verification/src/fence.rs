//! Stripping the triple-backtick code fence that chat-completion engines
//! sometimes wrap around otherwise-plain text.
use vstd::prelude::*;
use crate::text::{
    is_space, trim_spec, trim_start_spec, trim_end_spec, is_space_char, chars_of, string_of,
    scan_trim_start, scan_trim_end, lemma_trim_start_skip, lemma_trim_end_take,
    lemma_trim_idempotent,
};

verus! {

/// A character that may appear in the language tag after an opening fence.
pub open spec fn is_lang_char(c: char) -> bool {
    ('a' <= c && c <= 'z') || ('A' <= c && c <= 'Z') || ('0' <= c && c <= '9') || c == '-'
}

/// A newline or space character, skipped between the language tag and the
/// fenced content.
pub open spec fn is_nl_or_space(c: char) -> bool {
    c == '\n' || c == '\r' || c == ' '
}

/// Whether `s` begins with a triple-backtick fence.
pub open spec fn opens_with_fence(s: Seq<char>) -> bool {
    s.len() >= 3 && s[0] == '`' && s[1] == '`' && s[2] == '`'
}

/// Whether `s` ends with a triple-backtick fence.
pub open spec fn closes_with_fence(s: Seq<char>) -> bool {
    s.len() >= 3 && s[s.len() - 3] == '`' && s[s.len() - 2] == '`' && s[s.len() - 1] == '`'
}

/// Whether a (trimmed) sequence is wrapped in a fence.
pub open spec fn is_fenced(s: Seq<char>) -> bool {
    opens_with_fence(s) && closes_with_fence(s)
}

/// Removes every repetition of an opening triple backtick.
pub open spec fn drop_open_fences(s: Seq<char>) -> Seq<char>
    decreases s.len(),
{
    if opens_with_fence(s) {
        drop_open_fences(s.skip(3))
    } else {
        s
    }
}

/// Removes every repetition of a closing triple backtick.
pub open spec fn drop_close_fences(s: Seq<char>) -> Seq<char>
    decreases s.len(),
{
    if closes_with_fence(s) {
        drop_close_fences(s.take(s.len() - 3))
    } else {
        s
    }
}

/// Removes the leading language tag, if any.
pub open spec fn drop_lang_tag(s: Seq<char>) -> Seq<char>
    decreases s.len(),
{
    if s.len() > 0 && is_lang_char(s[0]) {
        drop_lang_tag(s.drop_first())
    } else {
        s
    }
}

/// Removes newlines and spaces after the language tag.
pub open spec fn drop_nl_or_space(s: Seq<char>) -> Seq<char>
    decreases s.len(),
{
    if s.len() > 0 && is_nl_or_space(s[0]) {
        drop_nl_or_space(s.drop_first())
    } else {
        s
    }
}

/// What stripping the code fence from `s` yields: the input is trimmed; if
/// the trimmed text both opens and closes with a triple backtick, the
/// opening fences, the language tag, the whitespace after it and the closing
/// fences are removed and the remainder is trimmed again; otherwise the
/// trimmed text is returned as it is.
pub open spec fn strip_fences_spec(s: Seq<char>) -> Seq<char> {
    let t = trim_spec(s);
    if is_fenced(t) {
        trim_spec(drop_close_fences(drop_nl_or_space(drop_lang_tag(drop_open_fences(t)))))
    } else {
        t
    }
}

/// Exec check for the language-tag character class.
fn is_lang_char_exec(c: char) -> (r: bool)
    ensures
        r == is_lang_char(c),
{
    ('a' <= c && c <= 'z') || ('A' <= c && c <= 'Z') || ('0' <= c && c <= '9') || c == '-'
}

/// Exec check for newline or space.
fn is_nl_or_space_exec(c: char) -> (r: bool)
    ensures
        r == is_nl_or_space(c),
{
    c == '\n' || c == '\r' || c == ' '
}

/// Removes a wrapping triple-backtick code fence, and the language tag after
/// the opening fence, from the trimmed text; text without such a wrapping is
/// only trimmed.
#[verifier::rlimit(30)]
pub fn strip_code_fences(text: &str) -> (r: String)
    ensures
        r@ == strip_fences_spec(text@),
{
    let v = chars_of(text);
    let tlo = scan_trim_start(&v);
    let thi = scan_trim_end(&v, tlo);
    let ghost t = text@.subrange(tlo as int, thi as int);
    proof {
        lemma_trim_start_skip(text@, tlo as int);
        let sk = text@.skip(tlo as int);
        if tlo < text@.len() {
            assert(trim_start_spec(sk) == sk);
        }
        lemma_trim_end_take(sk, thi - tlo);
        if thi > tlo {
            assert(sk.take(thi - tlo)[thi - tlo - 1] == text@[thi - 1]);
            assert(trim_end_spec(sk.take(thi - tlo)) == sk.take(thi - tlo));
        } else {
            assert(sk.take(0) =~= Seq::<char>::empty());
        }
        assert(sk.take(thi - tlo) =~= t);
        assert(trim_spec(text@) == t);
    }
    // The fence test: the trimmed text must both open and
    // close with a triple backtick.
    let fenced = thi - tlo >= 3 && v[tlo] == '`' && v[tlo + 1] == '`' && v[tlo + 2] == '`'
        && v[thi - 3] == '`' && v[thi - 2] == '`' && v[thi - 1] == '`';
    proof {
        assert(fenced == is_fenced(t));
    }
    if !fenced {
        let mut out: Vec<char> = Vec::new();
        let mut i: usize = tlo;
        while i < thi
            invariant
                tlo <= i <= thi <= v@.len(),
                v@ == text@,
                out@ == text@.subrange(tlo as int, i as int),
            decreases thi - i,
        {
            out.push(v[i]);
            proof {
                assert(out@ =~= text@.subrange(tlo as int, i + 1));
            }
            i = i + 1;
        }
        proof {
            assert(out@ == t);
        }
        return string_of(&out);
    }
    let mut lo: usize = tlo;
    let mut hi: usize = thi;
    // Remove the repeated opening fences.
    while hi - lo >= 3 && v[lo] == '`' && v[lo + 1] == '`' && v[lo + 2] == '`'
        invariant
            tlo <= lo <= hi <= thi <= v@.len(),
            v@ == text@,
            hi == thi,
            drop_open_fences(t) == drop_open_fences(text@.subrange(lo as int, hi as int)),
        decreases hi - lo,
    {
        proof {
            let w = text@.subrange(lo as int, hi as int);
            assert(opens_with_fence(w));
            assert(w.skip(3) =~= text@.subrange(lo + 3, hi as int));
        }
        lo = lo + 3;
    }
    proof {
        let w = text@.subrange(lo as int, hi as int);
        assert(!opens_with_fence(w));
        assert(drop_open_fences(t) == w);
    }
    let ghost after_open = drop_open_fences(t);
    // Remove the language tag.
    while lo < hi && is_lang_char_exec(v[lo])
        invariant
            tlo <= lo <= hi <= thi <= v@.len(),
            v@ == text@,
            hi == thi,
            drop_lang_tag(after_open) == drop_lang_tag(text@.subrange(lo as int, hi as int)),
        decreases hi - lo,
    {
        proof {
            let w = text@.subrange(lo as int, hi as int);
            assert(is_lang_char(w[0]));
            assert(w.drop_first() =~= text@.subrange(lo + 1, hi as int));
        }
        lo = lo + 1;
    }
    proof {
        let w = text@.subrange(lo as int, hi as int);
        assert(!(w.len() > 0 && is_lang_char(w[0])));
        assert(drop_lang_tag(after_open) == w);
    }
    let ghost after_lang = drop_lang_tag(after_open);
    // Remove newlines and spaces before the content.
    while lo < hi && is_nl_or_space_exec(v[lo])
        invariant
            tlo <= lo <= hi <= thi <= v@.len(),
            v@ == text@,
            hi == thi,
            drop_nl_or_space(after_lang) == drop_nl_or_space(text@.subrange(lo as int, hi as int)),
        decreases hi - lo,
    {
        proof {
            let w = text@.subrange(lo as int, hi as int);
            assert(is_nl_or_space(w[0]));
            assert(w.drop_first() =~= text@.subrange(lo + 1, hi as int));
        }
        lo = lo + 1;
    }
    proof {
        let w = text@.subrange(lo as int, hi as int);
        assert(!(w.len() > 0 && is_nl_or_space(w[0])));
        assert(drop_nl_or_space(after_lang) == w);
    }
    let ghost after_nl = drop_nl_or_space(after_lang);
    // Remove the repeated closing fences.
    while hi - lo >= 3 && v[hi - 3] == '`' && v[hi - 2] == '`' && v[hi - 1] == '`'
        invariant
            tlo <= lo <= hi <= thi <= v@.len(),
            v@ == text@,
            drop_close_fences(after_nl) == drop_close_fences(text@.subrange(lo as int, hi as int)),
        decreases hi - lo,
    {
        proof {
            let w = text@.subrange(lo as int, hi as int);
            assert(closes_with_fence(w));
            assert(w.take(w.len() - 3) =~= text@.subrange(lo as int, hi - 3));
        }
        hi = hi - 3;
    }
    proof {
        let w = text@.subrange(lo as int, hi as int);
        assert(!closes_with_fence(w));
        assert(drop_close_fences(after_nl) == w);
    }
    let ghost after_close = drop_close_fences(after_nl);
    // Final trim of the fenced content.
    while lo < hi && is_space_char(v[lo])
        invariant
            tlo <= lo <= hi <= thi <= v@.len(),
            v@ == text@,
            trim_start_spec(after_close) == trim_start_spec(text@.subrange(lo as int, hi as int)),
        decreases hi - lo,
    {
        proof {
            let w = text@.subrange(lo as int, hi as int);
            assert(is_space(w[0]));
            assert(w.drop_first() =~= text@.subrange(lo + 1, hi as int));
        }
        lo = lo + 1;
    }
    proof {
        let w = text@.subrange(lo as int, hi as int);
        assert(trim_start_spec(after_close) == w);
    }
    let ghost after_ts = trim_start_spec(after_close);
    while hi > lo && is_space_char(v[hi - 1])
        invariant
            tlo <= lo <= hi <= thi <= v@.len(),
            v@ == text@,
            trim_end_spec(after_ts) == trim_end_spec(text@.subrange(lo as int, hi as int)),
        decreases hi,
    {
        proof {
            let w = text@.subrange(lo as int, hi as int);
            assert(is_space(w[w.len() - 1]));
            assert(w.drop_last() =~= text@.subrange(lo as int, hi - 1));
        }
        hi = hi - 1;
    }
    proof {
        let w = text@.subrange(lo as int, hi as int);
        assert(trim_end_spec(after_ts) == w);
        assert(strip_fences_spec(text@) == w);
    }
    let mut out: Vec<char> = Vec::new();
    let mut i: usize = lo;
    while i < hi
        invariant
            lo <= i <= hi <= v@.len(),
            v@ == text@,
            out@ == text@.subrange(lo as int, i as int),
        decreases hi - i,
    {
        out.push(v[i]);
        proof {
            assert(out@ =~= text@.subrange(lo as int, i + 1));
        }
        i = i + 1;
    }
    string_of(&out)
}

/// The result of stripping is always trimmed.
pub proof fn lemma_strip_trimmed(s: Seq<char>)
    ensures
        trim_spec(strip_fences_spec(s)) == strip_fences_spec(s),
{
    lemma_trim_idempotent(s);
    let t = trim_spec(s);
    if is_fenced(t) {
        lemma_trim_idempotent(
            drop_close_fences(drop_nl_or_space(drop_lang_tag(drop_open_fences(t)))),
        );
    }
}

/// Stripping an already-unfenced value returns it unchanged: on input that
/// is trimmed and not wrapped in a triple-backtick fence, stripping is the
/// identity.
pub proof fn lemma_strip_unfenced_unchanged(s: Seq<char>)
    requires
        trim_spec(s) == s,
        !is_fenced(s),
    ensures
        strip_fences_spec(s) == s,
{
}

/// Stripping is idempotent on every input whose stripped form is not itself
/// wrapped in a fence: stripping a second time changes nothing.
pub proof fn lemma_strip_idempotent(s: Seq<char>)
    requires
        !is_fenced(strip_fences_spec(s)),
    ensures
        strip_fences_spec(strip_fences_spec(s)) == strip_fences_spec(s),
{
    lemma_strip_trimmed(s);
    lemma_strip_unfenced_unchanged(strip_fences_spec(s));
}

} // verus!
