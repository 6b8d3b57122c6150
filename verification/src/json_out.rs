//! Building the JSON request payloads. The payload string is produced
//! here, and the signer hashes that very string, so the signed bytes are
//! exactly the transmitted bytes.
use vstd::prelude::*;
use vstd::string::StringExecFns;
use crate::crypto::hex_digit;
use crate::text::{chars_of, string_of};

verus! {

/// The JSON escape of one character inside a string literal: quote and
/// backslash get a backslash, the named control characters their short
/// escapes, other control characters a `\u00XX` escape, and everything
/// else stands for itself.
pub open spec fn escape_char(c: char) -> Seq<char> {
    if c == '"' {
        seq!['\\', '"']
    } else if c == '\\' {
        seq!['\\', '\\']
    } else if c == '\n' {
        seq!['\\', 'n']
    } else if c == '\r' {
        seq!['\\', 'r']
    } else if c == '\t' {
        seq!['\\', 't']
    } else if c == '\u{0008}' {
        seq!['\\', 'b']
    } else if c == '\u{000c}' {
        seq!['\\', 'f']
    } else if (c as int) < 32 {
        seq!['\\', 'u', '0', '0', hex_digit(c as int / 16), hex_digit(c as int % 16)]
    } else {
        seq![c]
    }
}

/// The JSON escape of a whole string body.
pub open spec fn json_escaped(s: Seq<char>) -> Seq<char>
    decreases s.len(),
{
    if s.len() == 0 {
        Seq::<char>::empty()
    } else {
        escape_char(s[0]) + json_escaped(s.drop_first())
    }
}

pub proof fn lemma_json_escaped_push(t: Seq<char>, x: char)
    ensures
        json_escaped(t.push(x)) == json_escaped(t) + escape_char(x),
    decreases t.len(),
{
    if t.len() == 0 {
        assert(t.push(x).drop_first() =~= Seq::<char>::empty());
        assert(t.push(x)[0] == x);
        assert(json_escaped(Seq::<char>::empty()) == Seq::<char>::empty());
        assert(json_escaped(t.push(x)) == escape_char(x) + json_escaped(Seq::<char>::empty()));
        assert(json_escaped(t.push(x)) =~= json_escaped(t) + escape_char(x));
    } else {
        assert(t.push(x).drop_first() =~= t.drop_first().push(x));
        lemma_json_escaped_push(t.drop_first(), x);
        assert(json_escaped(t.push(x)) =~= json_escaped(t) + escape_char(x));
    }
}

fn hex_digit_exec(n: u32) -> (r: char)
    requires
        n < 16,
    ensures
        r == hex_digit(n as int),
{
    match n {
        0 => '0', 1 => '1', 2 => '2', 3 => '3', 4 => '4', 5 => '5', 6 => '6', 7 => '7',
        8 => '8', 9 => '9', 10 => 'a', 11 => 'b', 12 => 'c', 13 => 'd', 14 => 'e', _ => 'f',
    }
}

fn push_escape(out: &mut Vec<char>, c: char)
    ensures
        final(out)@ == old(out)@ + escape_char(c),
{
    if c == '"' {
        out.push('\\');
        out.push('"');
    } else if c == '\\' {
        out.push('\\');
        out.push('\\');
    } else if c == '\n' {
        out.push('\\');
        out.push('n');
    } else if c == '\r' {
        out.push('\\');
        out.push('r');
    } else if c == '\t' {
        out.push('\\');
        out.push('t');
    } else if c == '\u{0008}' {
        out.push('\\');
        out.push('b');
    } else if c == '\u{000c}' {
        out.push('\\');
        out.push('f');
    } else if (c as u32) < 32 {
        let code = c as u32;
        out.push('\\');
        out.push('u');
        out.push('0');
        out.push('0');
        out.push(hex_digit_exec(code / 16));
        out.push(hex_digit_exec(code % 16));
    } else {
        out.push(c);
    }
    proof {
        assert(out@ =~= old(out)@ + escape_char(c));
    }
}

/// The body of a JSON string literal holding exactly the characters of
/// `s`, with every character escaped as JSON requires.
pub fn escape_json(s: &str) -> (r: String)
    ensures
        r@ == json_escaped(s@),
{
    let v = chars_of(s);
    let n = v.len();
    let mut out: Vec<char> = Vec::new();
    let mut i: usize = 0;
    while i < n
        invariant
            0 <= i <= n,
            n == v@.len(),
            v@ == s@,
            out@ == json_escaped(s@.take(i as int)),
        decreases n - i,
    {
        push_escape(&mut out, v[i]);
        proof {
            assert(s@.take(i as int).push(s@[i as int]) =~= s@.take(i + 1));
            lemma_json_escaped_push(s@.take(i as int), s@[i as int]);
        }
        i = i + 1;
    }
    proof {
        assert(s@.take(n as int) =~= s@);
    }
    string_of(&out)
}

/// The chat-completion request payload: the fixed model, the two-message
/// prompt (system instruction, then the user's text), low temperature,
/// non-streaming, sampling off, plain-text response format.
pub open spec fn glm_payload_spec(system_prompt: Seq<char>, user_text: Seq<char>) -> Seq<char> {
    "{\"model\":\"glm-4.6\",\"messages\":[{\"role\":\"system\",\"content\":\""@ + json_escaped(
        system_prompt,
    ) + "\"},{\"role\":\"user\",\"content\":\""@ + json_escaped(user_text)
        + "\"}],\"temperature\":0.2,\"top_p\":0.9,\"stream\":false,\"do_sample\":false,\"response_format\":{\"type\":\"text\"}}"@
}

/// Builds the chat-completion request payload.
pub fn glm_payload(system_prompt: &str, user_text: &str) -> (r: String)
    ensures
        r@ == glm_payload_spec(system_prompt@, user_text@),
{
    let sp = escape_json(system_prompt);
    let ut = escape_json(user_text);
    let mut s = String::from_str(
        "{\"model\":\"glm-4.6\",\"messages\":[{\"role\":\"system\",\"content\":\"",
    );
    s.append(sp.as_str());
    s.append("\"},{\"role\":\"user\",\"content\":\"");
    s.append(ut.as_str());
    s.append(
        "\"}],\"temperature\":0.2,\"top_p\":0.9,\"stream\":false,\"do_sample\":false,\"response_format\":{\"type\":\"text\"}}",
    );
    s
}

/// The cloud-translation request payload: the source text, automatic
/// source-language detection, the target code, and the default project.
pub open spec fn tencent_payload_spec(text: Seq<char>, target: Seq<char>) -> Seq<char> {
    "{\"SourceText\":\""@ + json_escaped(text) + "\",\"Source\":\"auto\",\"Target\":\""@
        + json_escaped(target) + "\",\"ProjectId\":0}"@
}

/// Builds the cloud-translation request payload.
pub fn tencent_payload(text: &str, target: &str) -> (r: String)
    ensures
        r@ == tencent_payload_spec(text@, target@),
{
    let tx = escape_json(text);
    let tg = escape_json(target);
    let mut s = String::from_str("{\"SourceText\":\"");
    s.append(tx.as_str());
    s.append("\",\"Source\":\"auto\",\"Target\":\"");
    s.append(tg.as_str());
    s.append("\",\"ProjectId\":0}");
    s
}

} // verus!
