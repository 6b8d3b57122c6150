//! Parsing the provider responses. A small JSON scanner, defined first as
//! spec functions over character sequences and mirrored by executable
//! functions proved equal to them, extracts exactly the fields the
//! dispatcher reads. String escapes are decoded in full, surrogate pairs
//! included; a lone surrogate escape is rejected as unparsable. The
//! scanner is lenient where the dispatcher needs no more: it does not
//! validate the document past the fields it reads, accepts raw control
//! characters inside string literals, and takes any run of number
//! characters as a number.
use vstd::prelude::*;
use crate::text::{chars_of, string_of, chars_eq_str};
use crate::json_out::{escape_char, json_escaped};
use crate::crypto::hex_digit;

verus! {

/// JSON's own whitespace class: exactly space, tab, line feed and
/// carriage return. Narrower than the trimming class, as JSON requires.
pub open spec fn is_json_space(c: char) -> bool {
    c == ' ' || c == '\t' || c == '\n' || c == '\r'
}

fn is_json_space_exec(c: char) -> (r: bool)
    ensures
        r == is_json_space(c),
{
    c == ' ' || c == '\t' || c == '\n' || c == '\r'
}

/// The first index at or after `i` holding no whitespace (or the end).
pub open spec fn ws_end(s: Seq<char>, i: int) -> int
    decreases s.len() - i,
{
    if 0 <= i < s.len() && is_json_space(s[i]) {
        ws_end(s, i + 1)
    } else {
        i
    }
}

/// The character a short escape stands for; `None` for an unsupported
/// escape.
pub open spec fn unescape_char(c: char) -> Option<char> {
    if c == '"' {
        Some('"')
    } else if c == '\\' {
        Some('\\')
    } else if c == '/' {
        Some('/')
    } else if c == 'n' {
        Some('\n')
    } else if c == 't' {
        Some('\t')
    } else if c == 'r' {
        Some('\r')
    } else if c == 'b' {
        Some('\u{0008}')
    } else if c == 'f' {
        Some('\u{000c}')
    } else {
        None
    }
}

/// The value of a hex digit, or 16 for any other character.
pub open spec fn hex_val(c: char) -> u8 {
    if c == '0' { 0 } else if c == '1' { 1 } else if c == '2' { 2 } else if c == '3' { 3 }
    else if c == '4' { 4 } else if c == '5' { 5 } else if c == '6' { 6 } else if c == '7' { 7 }
    else if c == '8' { 8 } else if c == '9' { 9 }
    else if c == 'a' || c == 'A' { 10 } else if c == 'b' || c == 'B' { 11 }
    else if c == 'c' || c == 'C' { 12 } else if c == 'd' || c == 'D' { 13 }
    else if c == 'e' || c == 'E' { 14 } else if c == 'f' || c == 'F' { 15 }
    else { 16 }
}

/// Whether four hex digits stand at `i`.
pub open spec fn hex4_ok(s: Seq<char>, i: int) -> bool {
    hex_val(s[i]) < 16 && hex_val(s[i + 1]) < 16 && hex_val(s[i + 2]) < 16 && hex_val(
        s[i + 3],
    ) < 16
}

/// The value of the four hex digits standing at `i`.
pub open spec fn hex4_val(s: Seq<char>, i: int) -> int {
    0x1000 * (hex_val(s[i]) as int) + 0x100 * (hex_val(s[i + 1]) as int) + 16 * (hex_val(
        s[i + 2],
    ) as int) + (hex_val(s[i + 3]) as int)
}

/// Parses the remainder of a JSON string literal from just inside the
/// opening quote: the decoded content and the index after the closing
/// quote, or `None` if the literal is unterminated, holds a malformed
/// escape, or holds a lone surrogate escape. A high-surrogate `\uXXXX`
/// must be followed by a low-surrogate one; the pair decodes to the one
/// supplementary character.
pub open spec fn parse_string_body(s: Seq<char>, j: int) -> Option<(Seq<char>, int)>
    decreases s.len() - j,
{
    if j < 0 || j >= s.len() {
        None
    } else if s[j] == '"' {
        Some((Seq::<char>::empty(), j + 1))
    } else if s[j] == '\\' {
        if j + 1 < s.len() && s[j + 1] == 'u' {
            if j + 5 < s.len() && hex4_ok(s, j + 2) {
                let code = hex4_val(s, j + 2);
                if 0xD800 <= code && code < 0xDC00 {
                    if j + 11 < s.len() && s[j + 6] == '\\' && s[j + 7] == 'u' && hex4_ok(
                        s,
                        j + 8,
                    ) && 0xDC00 <= hex4_val(s, j + 8) && hex4_val(s, j + 8) < 0xE000 {
                        let cp = 0x10000 + (code - 0xD800) * 0x400 + (hex4_val(s, j + 8)
                            - 0xDC00);
                        match parse_string_body(s, j + 12) {
                            Some((rest, end)) => Some((seq![(cp as u32) as char] + rest, end)),
                            None => None,
                        }
                    } else {
                        None
                    }
                } else if 0xDC00 <= code && code < 0xE000 {
                    None
                } else {
                    match parse_string_body(s, j + 6) {
                        Some((rest, end)) => Some((seq![(code as u32) as char] + rest, end)),
                        None => None,
                    }
                }
            } else {
                None
            }
        } else if j + 1 < s.len() && unescape_char(s[j + 1]) is Some {
            match parse_string_body(s, j + 2) {
                Some((rest, end)) => Some((seq![unescape_char(s[j + 1])->0] + rest, end)),
                None => None,
            }
        } else {
            None
        }
    } else {
        match parse_string_body(s, j + 1) {
            Some((rest, end)) => Some((seq![s[j]] + rest, end)),
            None => None,
        }
    }
}

/// Parses a whole JSON string literal standing at `i`.
pub open spec fn parse_string_at(s: Seq<char>, i: int) -> Option<(Seq<char>, int)> {
    if 0 <= i < s.len() && s[i] == '"' {
        parse_string_body(s, i + 1)
    } else {
        None
    }
}

pub open spec fn is_digit(c: char) -> bool {
    '0' <= c && c <= '9'
}

/// A character that may appear inside a JSON number.
pub open spec fn is_num_char(c: char) -> bool {
    is_digit(c) || c == '-' || c == '+' || c == '.' || c == 'e' || c == 'E'
}

/// The first index at or after `i` holding no number character.
pub open spec fn num_end(s: Seq<char>, i: int) -> int
    decreases s.len() - i,
{
    if 0 <= i < s.len() && is_num_char(s[i]) {
        num_end(s, i + 1)
    } else {
        i
    }
}

/// The index after the JSON value standing at `i` (no leading
/// whitespace), or `None` if no value stands there.
pub open spec fn skip_value(s: Seq<char>, i: int) -> Option<int>
    decreases s.len() - i, 1int,
{
    if i < 0 || i >= s.len() {
        None
    } else if s[i] == '{' {
        object_body(s, i + 1)
    } else if s[i] == '[' {
        array_body(s, i + 1)
    } else if s[i] == '"' {
        match parse_string_body(s, i + 1) {
            Some((content, end)) => Some(end),
            None => None,
        }
    } else if s[i] == 't' {
        if i + 4 <= s.len() && s[i + 1] == 'r' && s[i + 2] == 'u' && s[i + 3] == 'e' {
            Some(i + 4)
        } else {
            None
        }
    } else if s[i] == 'f' {
        if i + 5 <= s.len() && s[i + 1] == 'a' && s[i + 2] == 'l' && s[i + 3] == 's' && s[i + 4]
            == 'e' {
            Some(i + 5)
        } else {
            None
        }
    } else if s[i] == 'n' {
        if i + 4 <= s.len() && s[i + 1] == 'u' && s[i + 2] == 'l' && s[i + 3] == 'l' {
            Some(i + 4)
        } else {
            None
        }
    } else if s[i] == '-' || is_digit(s[i]) {
        Some(num_end(s, i + 1))
    } else {
        None
    }
}

/// Whitespace, then a JSON value: the index after the value.
pub open spec fn elem_end(s: Seq<char>, i: int) -> Option<int>
    decreases s.len() - i, 3int,
{
    if i < 0 || i >= s.len() {
        None
    } else if is_json_space(s[i]) {
        elem_end(s, i + 1)
    } else {
        skip_value(s, i)
    }
}

/// Inside an array, after `[` or `,`: whitespace, then `]` or a first or
/// further element.
pub open spec fn array_body(s: Seq<char>, i: int) -> Option<int>
    decreases s.len() - i, 5int,
{
    if i < 0 || i >= s.len() {
        None
    } else if is_json_space(s[i]) {
        array_body(s, i + 1)
    } else if s[i] == ']' {
        Some(i + 1)
    } else {
        match skip_value(s, i) {
            Some(vend) => if i < vend && vend <= s.len() {
                after_elem(s, vend)
            } else {
                None
            },
            None => None,
        }
    }
}

/// Inside an array, after an element: whitespace, then `,` and the next
/// element, or the closing `]`.
pub open spec fn after_elem(s: Seq<char>, i: int) -> Option<int>
    decreases s.len() - i, 5int,
{
    if i < 0 || i >= s.len() {
        None
    } else if is_json_space(s[i]) {
        after_elem(s, i + 1)
    } else if s[i] == ',' {
        match elem_end(s, i + 1) {
            Some(vend) => if i + 1 < vend && vend <= s.len() {
                after_elem(s, vend)
            } else {
                None
            },
            None => None,
        }
    } else if s[i] == ']' {
        Some(i + 1)
    } else {
        None
    }
}

/// Inside an object, after `{` or `,`: whitespace, then `}` or a member
/// key.
pub open spec fn object_body(s: Seq<char>, i: int) -> Option<int>
    decreases s.len() - i, 5int,
{
    if i < 0 || i >= s.len() {
        None
    } else if is_json_space(s[i]) {
        object_body(s, i + 1)
    } else if s[i] == '}' {
        Some(i + 1)
    } else if s[i] == '"' {
        match parse_string_body(s, i + 1) {
            Some((key, kend)) => if i + 1 < kend && kend <= s.len() {
                after_obj_key(s, kend)
            } else {
                None
            },
            None => None,
        }
    } else {
        None
    }
}

/// Inside an object, after a member key: whitespace, the colon, and the
/// member value.
pub open spec fn after_obj_key(s: Seq<char>, i: int) -> Option<int>
    decreases s.len() - i, 5int,
{
    if i < 0 || i >= s.len() {
        None
    } else if is_json_space(s[i]) {
        after_obj_key(s, i + 1)
    } else if s[i] == ':' {
        match elem_end(s, i + 1) {
            Some(vend) => if i + 1 < vend && vend <= s.len() {
                after_obj_value(s, vend)
            } else {
                None
            },
            None => None,
        }
    } else {
        None
    }
}

/// Inside an object, after a member value: whitespace, then `,` and the
/// next member, or the closing `}`.
pub open spec fn after_obj_value(s: Seq<char>, i: int) -> Option<int>
    decreases s.len() - i, 5int,
{
    if i < 0 || i >= s.len() {
        None
    } else if is_json_space(s[i]) {
        after_obj_value(s, i + 1)
    } else if s[i] == ',' {
        object_body(s, i + 1)
    } else if s[i] == '}' {
        Some(i + 1)
    } else {
        None
    }
}

/// Inside an object body, looks for the first member whose decoded key is
/// `key`: the index where that member's value starts, after any
/// whitespace. `None` when the object is malformed or holds no such
/// member.
pub open spec fn find_member(s: Seq<char>, i: int, key: Seq<char>) -> Option<int>
    decreases s.len() - i, 5int,
{
    if i < 0 || i >= s.len() {
        None
    } else if is_json_space(s[i]) {
        find_member(s, i + 1, key)
    } else if s[i] == '}' {
        None
    } else if s[i] == '"' {
        match parse_string_body(s, i + 1) {
            Some((k, kend)) => if i + 1 < kend && kend <= s.len() {
                member_colon(s, kend, key, k == key)
            } else {
                None
            },
            None => None,
        }
    } else {
        None
    }
}

/// After a member key while searching: whitespace, the colon, then either
/// the sought value's start or a skip over this member.
pub open spec fn member_colon(s: Seq<char>, i: int, key: Seq<char>, matched: bool) -> Option<int>
    decreases s.len() - i, 5int,
{
    if i < 0 || i >= s.len() {
        None
    } else if is_json_space(s[i]) {
        member_colon(s, i + 1, key, matched)
    } else if s[i] == ':' {
        if matched {
            Some(ws_end(s, i + 1))
        } else {
            match elem_end(s, i + 1) {
                Some(vend) => if i + 1 < vend && vend <= s.len() {
                    member_next(s, vend, key)
                } else {
                    None
                },
                None => None,
            }
        }
    } else {
        None
    }
}

/// After a skipped member while searching: whitespace, then `,` and the
/// next member; `}` means the key is absent.
pub open spec fn member_next(s: Seq<char>, i: int, key: Seq<char>) -> Option<int>
    decreases s.len() - i, 5int,
{
    if i < 0 || i >= s.len() {
        None
    } else if is_json_space(s[i]) {
        member_next(s, i + 1, key)
    } else if s[i] == ',' {
        find_member(s, i + 1, key)
    } else if s[i] == '}' {
        None
    } else {
        None
    }
}

proof fn lemma_char_nonneg(c: char)
    ensures
        0 <= c as int,
{
}

proof fn lemma_hex_digit_round(x: int)
    requires
        0 <= x < 16,
    ensures
        hex_val(hex_digit(x)) == x,
{
}

/// Escaping, then decoding, is the identity: a JSON string literal whose
/// body is the escape of `s`, closed by a quote, parses back to exactly
/// `s`, ending right after that quote.
pub proof fn lemma_escaped_string_parses_back(u: Seq<char>, j: int, s: Seq<char>)
    requires
        0 <= j,
        j + json_escaped(s).len() + 1 <= u.len(),
        u.subrange(j, j + json_escaped(s).len() as int) == json_escaped(s),
        u[j + json_escaped(s).len() as int] == '"',
    ensures
        parse_string_body(u, j) == Some((s, j + json_escaped(s).len() + 1)),
    decreases s.len(),
{
    if s.len() == 0 {
        assert(json_escaped(s).len() == 0);
        assert(s =~= Seq::<char>::empty());
    } else {
        let c = s[0];
        let e = escape_char(c);
        let rest = s.drop_first();
        assert(json_escaped(s) == e + json_escaped(rest));
        let el = e.len() as int;
        let rl = json_escaped(rest).len() as int;
        let w = u.subrange(j, j + el + rl);
        assert(w == e + json_escaped(rest));
        assert forall|k: int| 0 <= k < el implies u[j + k] == e[k] by {
            assert(w[k] == u[j + k]);
            assert((e + json_escaped(rest))[k] == e[k]);
        }
        assert forall|k: int| 0 <= k < rl implies u[j + el + k] == json_escaped(rest)[k] by {
            assert(w[el + k] == u[j + el + k]);
            assert((e + json_escaped(rest))[el + k] == json_escaped(rest)[k]);
        }
        assert(u.subrange(j + el, j + el + rl) =~= json_escaped(rest));
        assert(u[j + el + rl] == '"');
        lemma_escaped_string_parses_back(u, j + el, rest);
        assert(seq![c] + rest =~= s);
        if c == '"' || c == '\\' || c == '\n' || c == '\r' || c == '\t' || c == '\u{0008}'
            || c == '\u{000c}' {
            assert(el == 2);
            assert(u[j] == e[0] && u[j + 1] == e[1]);
            assert(u[j] == '\\');
            assert(unescape_char(e[1]) == Some(c));
        } else if (c as int) < 32 {
            assert(el == 6);
            assert(u[j] == e[0] && u[j + 1] == e[1] && u[j + 2] == e[2] && u[j + 3] == e[3]
                && u[j + 4] == e[4] && u[j + 5] == e[5]);
            assert(u[j] == '\\' && u[j + 1] == 'u' && u[j + 2] == '0' && u[j + 3] == '0');
            assert(u[j + 4] == hex_digit(c as int / 16) && u[j + 5] == hex_digit(c as int % 16));
            lemma_char_nonneg(c);
            lemma_hex_digit_round(c as int / 16);
            lemma_hex_digit_round(c as int % 16);
            assert(hex_val('0') == 0);
            assert(hex4_ok(u, j + 2));
            assert(hex4_val(u, j + 2) == c as int);
            vstd::utf8::char_u32_cast(c, c as u32);
            assert((hex4_val(u, j + 2) as u32) == c as u32);
            assert(((hex4_val(u, j + 2) as u32) as char) == c);
        } else {
            assert(el == 1);
            assert(u[j] == e[0]);
            assert(u[j] == c);
            assert(u[j] != '"' && u[j] != '\\');
        }
    }
}

/// The round trip at the level of a whole string literal: a quoted,
/// escaped string followed by anything parses back to the same
/// characters.
pub proof fn lemma_quoted_escape_round_trip(s: Seq<char>, tail: Seq<char>)
    ensures
        parse_string_at(seq!['"'] + json_escaped(s) + seq!['"'] + tail, 0) == Some(
            (s, json_escaped(s).len() as int + 2),
        ),
{
    let u = seq!['"'] + json_escaped(s) + seq!['"'] + tail;
    let el = json_escaped(s).len() as int;
    assert(u[0] == '"');
    assert(u.subrange(1, 1 + el) =~= json_escaped(s));
    assert(u[1 + el] == '"');
    lemma_escaped_string_parses_back(u, 1, s);
}

/// Whether the executable scanner's result agrees with the spec scanner's.
pub open spec fn opt_end_matches(r: Option<usize>, o: Option<int>) -> bool {
    match r {
        Some(e) => o == Some(e as int),
        None => o is None,
    }
}

/// Prepends already-decoded characters to a string-body parse.
pub open spec fn prepend_body(p: Seq<char>, o: Option<(Seq<char>, int)>) -> Option<
    (Seq<char>, int),
> {
    match o {
        Some((c, e)) => Some((p + c, e)),
        None => None,
    }
}

fn ws_end_exec(v: &Vec<char>, i: usize) -> (r: usize)
    requires
        i <= v@.len(),
    ensures
        r as int == ws_end(v@, i as int),
        i <= r <= v@.len(),
{
    let mut r = i;
    while r < v.len() && is_json_space_exec(v[r])
        invariant
            i <= r <= v@.len(),
            ws_end(v@, i as int) == ws_end(v@, r as int),
        decreases v@.len() - r,
    {
        r = r + 1;
    }
    r
}

/// Relies on std's `char::from_u32`: `Some` exactly for a valid scalar
/// value (not a surrogate, at most 0x10FFFF), and the returned character
/// carries exactly the given value.
pub assume_specification[ char::from_u32 ](i: u32) -> (r: Option<char>)
    ensures
        r is Some <==> (i < 0xD800 || (0xE000 <= i && i <= 0x10FFFF)),
        r matches Some(c) ==> c as u32 == i,
;

fn hex_val_exec(c: char) -> (r: u8)
    ensures
        r == hex_val(c),
{
    match c {
        '0' => 0, '1' => 1, '2' => 2, '3' => 3, '4' => 4, '5' => 5, '6' => 6, '7' => 7,
        '8' => 8, '9' => 9, 'a' | 'A' => 10, 'b' | 'B' => 11, 'c' | 'C' => 12, 'd' | 'D' => 13,
        'e' | 'E' => 14, 'f' | 'F' => 15,
        _ => 16,
    }
}

fn unescape_exec(c: char) -> (r: Option<char>)
    ensures
        r == unescape_char(c),
{
    if c == '"' {
        Some('"')
    } else if c == '\\' {
        Some('\\')
    } else if c == '/' {
        Some('/')
    } else if c == 'n' {
        Some('\n')
    } else if c == 't' {
        Some('\t')
    } else if c == 'r' {
        Some('\r')
    } else if c == 'b' {
        Some('\u{0008}')
    } else if c == 'f' {
        Some('\u{000c}')
    } else {
        None
    }
}

fn parse_string_body_exec(v: &Vec<char>, j0: usize) -> (r: Option<(Vec<char>, usize)>)
    requires
        j0 <= v@.len(),
    ensures
        (match r {
            Some((c, e)) => parse_string_body(v@, j0 as int) == Some((c@, e as int)) && j0 < e
                <= v@.len(),
            None => parse_string_body(v@, j0 as int) is None,
        }),
{
    let mut acc: Vec<char> = Vec::new();
    let mut j = j0;
    loop
        invariant
            j0 <= j <= v@.len(),
            parse_string_body(v@, j0 as int) == prepend_body(
                acc@,
                parse_string_body(v@, j as int),
            ),
        decreases v@.len() - j,
    {
        if j >= v.len() {
            return None;
        }
        let c = v[j];
        if c == '"' {
            proof {
                assert(acc@ + Seq::<char>::empty() =~= acc@);
            }
            return Some((acc, j + 1));
        }
        if c == '\\' {
            if j + 1 < v.len() && v[j + 1] == 'u' {
                if v.len() - j >= 6 && hex_val_exec(v[j + 2]) < 16 && hex_val_exec(v[j + 3]) < 16
                    && hex_val_exec(v[j + 4]) < 16 && hex_val_exec(v[j + 5]) < 16 {
                    let code: u32 = 0x1000 * (hex_val_exec(v[j + 2]) as u32) + 0x100
                        * (hex_val_exec(v[j + 3]) as u32) + 16 * (hex_val_exec(v[j + 4]) as u32)
                        + (hex_val_exec(v[j + 5]) as u32);
                    proof {
                        assert(code as int == hex4_val(v@, j as int + 2));
                    }
                    if 0xD800 <= code && code < 0xDC00 {
                        if v.len() - j >= 12 && v[j + 6] == '\\' && v[j + 7] == 'u'
                            && hex_val_exec(v[j + 8]) < 16 && hex_val_exec(v[j + 9]) < 16
                            && hex_val_exec(v[j + 10]) < 16 && hex_val_exec(v[j + 11]) < 16 {
                            let lo: u32 = 0x1000 * (hex_val_exec(v[j + 8]) as u32) + 0x100
                                * (hex_val_exec(v[j + 9]) as u32) + 16 * (hex_val_exec(
                                v[j + 10],
                            ) as u32) + (hex_val_exec(v[j + 11]) as u32);
                            proof {
                                assert(lo as int == hex4_val(v@, j as int + 8));
                            }
                            if 0xDC00 <= lo && lo < 0xE000 {
                                let cp: u32 = 0x10000 + (code - 0xD800) * 0x400 + (lo - 0xDC00);
                                let d = match char::from_u32(cp) {
                                    Some(d) => d,
                                    None => {
                                        proof {
                                            assert(false);
                                        }
                                        ' '
                                    },
                                };
                                proof {
                                    vstd::utf8::char_u32_cast(d, cp);
                                }
                                let ghost acc_old = acc@;
                                acc.push(d);
                                proof {
                                    let inner = parse_string_body(v@, j + 12);
                                    match inner {
                                        Some((rest, end)) => {
                                            assert(acc_old + (seq![d] + rest) =~= acc@ + rest);
                                        },
                                        None => {},
                                    }
                                }
                                j = j + 12;
                            } else {
                                return None;
                            }
                        } else {
                            return None;
                        }
                    } else if 0xDC00 <= code && code < 0xE000 {
                        return None;
                    } else {
                        let d = match char::from_u32(code) {
                            Some(d) => d,
                            None => {
                                proof {
                                    assert(false);
                                }
                                ' '
                            },
                        };
                        proof {
                            vstd::utf8::char_u32_cast(d, code);
                        }
                        let ghost acc_old = acc@;
                        acc.push(d);
                        proof {
                            let inner = parse_string_body(v@, j + 6);
                            match inner {
                                Some((rest, end)) => {
                                    assert(acc_old + (seq![d] + rest) =~= acc@ + rest);
                                },
                                None => {},
                            }
                        }
                        j = j + 6;
                    }
                } else {
                    return None;
                }
            } else if j + 1 < v.len() {
                match unescape_exec(v[j + 1]) {
                    Some(d) => {
                        let ghost acc_old = acc@;
                        acc.push(d);
                        proof {
                            let inner = parse_string_body(v@, j + 2);
                            match inner {
                                Some((rest, end)) => {
                                    assert(acc_old + (seq![d] + rest) =~= acc@ + rest);
                                },
                                None => {},
                            }
                        }
                        j = j + 2;
                    },
                    None => {
                        return None;
                    },
                }
            } else {
                return None;
            }
        } else {
            let ghost acc_old = acc@;
            acc.push(c);
            proof {
                let inner = parse_string_body(v@, j + 1);
                match inner {
                    Some((rest, end)) => {
                        assert(acc_old + (seq![c] + rest) =~= acc@ + rest);
                    },
                    None => {},
                }
            }
            j = j + 1;
        }
    }
}

fn num_end_exec(v: &Vec<char>, i: usize) -> (r: usize)
    requires
        i <= v@.len(),
    ensures
        r as int == num_end(v@, i as int),
        i <= r <= v@.len(),
{
    let mut r = i;
    while r < v.len() && is_num_char_exec(v[r])
        invariant
            i <= r <= v@.len(),
            num_end(v@, i as int) == num_end(v@, r as int),
        decreases v@.len() - r,
    {
        r = r + 1;
    }
    r
}

fn is_digit_exec(c: char) -> (r: bool)
    ensures
        r == is_digit(c),
{
    '0' <= c && c <= '9'
}

fn is_num_char_exec(c: char) -> (r: bool)
    ensures
        r == is_num_char(c),
{
    is_digit_exec(c) || c == '-' || c == '+' || c == '.' || c == 'e' || c == 'E'
}

fn skip_value_exec(v: &Vec<char>, i: usize) -> (r: Option<usize>)
    ensures
        opt_end_matches(r, skip_value(v@, i as int)),
    decreases v@.len() - i, 1int,
{
    if i >= v.len() {
        return None;
    }
    let c = v[i];
    if c == '{' {
        object_body_exec(v, i + 1)
    } else if c == '[' {
        array_body_exec(v, i + 1)
    } else if c == '"' {
        match parse_string_body_exec(v, i + 1) {
            Some((_content, end)) => Some(end),
            None => None,
        }
    } else if c == 't' {
        if v.len() - i >= 4 && v[i + 1] == 'r' && v[i + 2] == 'u' && v[i + 3] == 'e' {
            Some(i + 4)
        } else {
            None
        }
    } else if c == 'f' {
        if v.len() - i >= 5 && v[i + 1] == 'a' && v[i + 2] == 'l' && v[i + 3] == 's' && v[i + 4]
            == 'e' {
            Some(i + 5)
        } else {
            None
        }
    } else if c == 'n' {
        if v.len() - i >= 4 && v[i + 1] == 'u' && v[i + 2] == 'l' && v[i + 3] == 'l' {
            Some(i + 4)
        } else {
            None
        }
    } else if c == '-' || is_digit_exec(c) {
        Some(num_end_exec(v, i + 1))
    } else {
        None
    }
}

fn elem_end_exec(v: &Vec<char>, i: usize) -> (r: Option<usize>)
    ensures
        opt_end_matches(r, elem_end(v@, i as int)),
    decreases v@.len() - i, 3int,
{
    if i >= v.len() {
        return None;
    }
    if is_json_space_exec(v[i]) {
        elem_end_exec(v, i + 1)
    } else {
        skip_value_exec(v, i)
    }
}

fn array_body_exec(v: &Vec<char>, i: usize) -> (r: Option<usize>)
    ensures
        opt_end_matches(r, array_body(v@, i as int)),
    decreases v@.len() - i, 5int,
{
    if i >= v.len() {
        return None;
    }
    let c = v[i];
    if is_json_space_exec(c) {
        array_body_exec(v, i + 1)
    } else if c == ']' {
        Some(i + 1)
    } else {
        match skip_value_exec(v, i) {
            Some(vend) => if i < vend && vend <= v.len() {
                after_elem_exec(v, vend)
            } else {
                None
            },
            None => None,
        }
    }
}

fn after_elem_exec(v: &Vec<char>, i: usize) -> (r: Option<usize>)
    ensures
        opt_end_matches(r, after_elem(v@, i as int)),
    decreases v@.len() - i, 5int,
{
    if i >= v.len() {
        return None;
    }
    let c = v[i];
    if is_json_space_exec(c) {
        after_elem_exec(v, i + 1)
    } else if c == ',' {
        match elem_end_exec(v, i + 1) {
            Some(vend) => if i + 1 < vend && vend <= v.len() {
                after_elem_exec(v, vend)
            } else {
                None
            },
            None => None,
        }
    } else if c == ']' {
        Some(i + 1)
    } else {
        None
    }
}

fn object_body_exec(v: &Vec<char>, i: usize) -> (r: Option<usize>)
    ensures
        opt_end_matches(r, object_body(v@, i as int)),
    decreases v@.len() - i, 5int,
{
    if i >= v.len() {
        return None;
    }
    let c = v[i];
    if is_json_space_exec(c) {
        object_body_exec(v, i + 1)
    } else if c == '}' {
        Some(i + 1)
    } else if c == '"' {
        match parse_string_body_exec(v, i + 1) {
            Some((_key, kend)) => if i + 1 < kend && kend <= v.len() {
                after_obj_key_exec(v, kend)
            } else {
                None
            },
            None => None,
        }
    } else {
        None
    }
}

fn after_obj_key_exec(v: &Vec<char>, i: usize) -> (r: Option<usize>)
    ensures
        opt_end_matches(r, after_obj_key(v@, i as int)),
    decreases v@.len() - i, 5int,
{
    if i >= v.len() {
        return None;
    }
    let c = v[i];
    if is_json_space_exec(c) {
        after_obj_key_exec(v, i + 1)
    } else if c == ':' {
        match elem_end_exec(v, i + 1) {
            Some(vend) => if i + 1 < vend && vend <= v.len() {
                after_obj_value_exec(v, vend)
            } else {
                None
            },
            None => None,
        }
    } else {
        None
    }
}

fn after_obj_value_exec(v: &Vec<char>, i: usize) -> (r: Option<usize>)
    ensures
        opt_end_matches(r, after_obj_value(v@, i as int)),
    decreases v@.len() - i, 5int,
{
    if i >= v.len() {
        return None;
    }
    let c = v[i];
    if is_json_space_exec(c) {
        after_obj_value_exec(v, i + 1)
    } else if c == ',' {
        object_body_exec(v, i + 1)
    } else if c == '}' {
        Some(i + 1)
    } else {
        None
    }
}

fn find_member_exec(v: &Vec<char>, i: usize, key: &str) -> (r: Option<usize>)
    ensures
        opt_end_matches(r, find_member(v@, i as int, key@)),
    decreases v@.len() - i, 5int,
{
    if i >= v.len() {
        return None;
    }
    let c = v[i];
    if is_json_space_exec(c) {
        find_member_exec(v, i + 1, key)
    } else if c == '}' {
        None
    } else if c == '"' {
        match parse_string_body_exec(v, i + 1) {
            Some((k, kend)) => if i + 1 < kend && kend <= v.len() {
                let matched = chars_eq_str(&k, key);
                member_colon_exec(v, kend, key, matched)
            } else {
                None
            },
            None => None,
        }
    } else {
        None
    }
}

fn member_colon_exec(v: &Vec<char>, i: usize, key: &str, matched: bool) -> (r: Option<usize>)
    ensures
        opt_end_matches(r, member_colon(v@, i as int, key@, matched)),
    decreases v@.len() - i, 5int,
{
    if i >= v.len() {
        return None;
    }
    let c = v[i];
    if is_json_space_exec(c) {
        member_colon_exec(v, i + 1, key, matched)
    } else if c == ':' {
        if matched {
            Some(ws_end_exec(v, i + 1))
        } else {
            match elem_end_exec(v, i + 1) {
                Some(vend) => if i + 1 < vend && vend <= v.len() {
                    member_next_exec(v, vend, key)
                } else {
                    None
                },
                None => None,
            }
        }
    } else {
        None
    }
}

fn member_next_exec(v: &Vec<char>, i: usize, key: &str) -> (r: Option<usize>)
    ensures
        opt_end_matches(r, member_next(v@, i as int, key@)),
    decreases v@.len() - i, 5int,
{
    if i >= v.len() {
        return None;
    }
    let c = v[i];
    if is_json_space_exec(c) {
        member_next_exec(v, i + 1, key)
    } else if c == ',' {
        find_member_exec(v, i + 1, key)
    } else {
        None
    }
}

/// What a chat-completion response body holds: nothing parsable, an empty
/// choice list, or the first choice's message content.
pub enum GlmBody {
    Unparsable,
    NoChoices,
    Content(Seq<char>),
}

/// The content a chat-completion response carries: the body must be an
/// object whose `choices` member is an array; an empty array is reported
/// as such; otherwise the first element must be an object carrying the
/// string `content` inside its `message` object.
pub open spec fn glm_body_spec(s: Seq<char>) -> GlmBody {
    let i = ws_end(s, 0);
    if !(i < s.len() && s[i] == '{') {
        GlmBody::Unparsable
    } else {
        match find_member(s, i + 1, "choices"@) {
            None => GlmBody::Unparsable,
            Some(vpos) => if !(vpos < s.len() && s[vpos] == '[') {
                GlmBody::Unparsable
            } else {
                let j = ws_end(s, vpos + 1);
                if j < s.len() && s[j] == ']' {
                    GlmBody::NoChoices
                } else if j < s.len() && s[j] == '{' {
                    match find_member(s, j + 1, "message"@) {
                        None => GlmBody::Unparsable,
                        Some(mpos) => if !(mpos < s.len() && s[mpos] == '{') {
                            GlmBody::Unparsable
                        } else {
                            match find_member(s, mpos + 1, "content"@) {
                                None => GlmBody::Unparsable,
                                Some(cpos) => match parse_string_at(s, cpos) {
                                    Some((content, end)) => GlmBody::Content(content),
                                    None => GlmBody::Unparsable,
                                },
                            }
                        },
                    }
                } else {
                    GlmBody::Unparsable
                }
            },
        }
    }
}

/// The executable counterpart of a chat-completion body parse.
pub enum GlmExtract {
    Unparsable,
    NoChoices,
    Content(String),
}

/// Parses a chat-completion response body.
pub fn glm_extract(body: &str) -> (r: GlmExtract)
    ensures
        (match r {
            GlmExtract::Unparsable => glm_body_spec(body@) is Unparsable,
            GlmExtract::NoChoices => glm_body_spec(body@) is NoChoices,
            GlmExtract::Content(c) => glm_body_spec(body@) == GlmBody::Content(c@),
        }),
{
    let v = chars_of(body);
    let i = ws_end_exec(&v, 0);
    if !(i < v.len() && v[i] == '{') {
        return GlmExtract::Unparsable;
    }
    match find_member_exec(&v, i + 1, "choices") {
        None => GlmExtract::Unparsable,
        Some(vpos) => {
            if !(vpos < v.len() && v[vpos] == '[') {
                return GlmExtract::Unparsable;
            }
            let j = ws_end_exec(&v, vpos + 1);
            if j < v.len() && v[j] == ']' {
                GlmExtract::NoChoices
            } else if j < v.len() && v[j] == '{' {
                match find_member_exec(&v, j + 1, "message") {
                    None => GlmExtract::Unparsable,
                    Some(mpos) => {
                        if !(mpos < v.len() && v[mpos] == '{') {
                            return GlmExtract::Unparsable;
                        }
                        match find_member_exec(&v, mpos + 1, "content") {
                            None => GlmExtract::Unparsable,
                            Some(cpos) => {
                                if cpos < v.len() && v[cpos] == '"' {
                                    match parse_string_body_exec(&v, cpos + 1) {
                                        Some((content, _end)) => GlmExtract::Content(
                                            string_of(&content),
                                        ),
                                        None => GlmExtract::Unparsable,
                                    }
                                } else {
                                    GlmExtract::Unparsable
                                }
                            },
                        }
                    },
                }
            } else {
                GlmExtract::Unparsable
            }
        },
    }
}

/// Whether the `null` literal stands at `i`.
pub open spec fn is_null_at(s: Seq<char>, i: int) -> bool {
    0 <= i && i + 4 <= s.len() && s[i] == 'n' && s[i + 1] == 'u' && s[i + 2] == 'l' && s[i + 3]
        == 'l'
}

/// What a cloud-translation response body holds: nothing parsable, a
/// provider-reported failure (code and message), or the translated text.
pub enum TencentBody {
    Unparsable,
    Failure(Seq<char>, Seq<char>),
    Translated(Seq<char>),
}

/// The content of a cloud-translation response: inside the `Response`
/// object, a populated `Error` object (its `Code` and `Message` strings)
/// wins over any `TargetText`; an absent or null `Error` requires the
/// string `TargetText`.
pub open spec fn tencent_body_spec(s: Seq<char>) -> TencentBody {
    let i = ws_end(s, 0);
    if !(i < s.len() && s[i] == '{') {
        TencentBody::Unparsable
    } else {
        match find_member(s, i + 1, "Response"@) {
            None => TencentBody::Unparsable,
            Some(rpos) => if !(rpos < s.len() && s[rpos] == '{') {
                TencentBody::Unparsable
            } else {
                match find_member(s, rpos + 1, "Error"@) {
                    Some(epos) => if is_null_at(s, epos) {
                        tencent_target_text(s, rpos)
                    } else if epos < s.len() && s[epos] == '{' {
                        match find_member(s, epos + 1, "Code"@) {
                            None => TencentBody::Unparsable,
                            Some(cpos) => match parse_string_at(s, cpos) {
                                None => TencentBody::Unparsable,
                                Some((code, _)) => match find_member(s, epos + 1, "Message"@) {
                                    None => TencentBody::Unparsable,
                                    Some(mpos) => match parse_string_at(s, mpos) {
                                        None => TencentBody::Unparsable,
                                        Some((msg, _)) => TencentBody::Failure(code, msg),
                                    },
                                },
                            },
                        }
                    } else {
                        TencentBody::Unparsable
                    },
                    None => tencent_target_text(s, rpos),
                }
            },
        }
    }
}

/// The `TargetText` member of the `Response` object standing at `rpos`.
pub open spec fn tencent_target_text(s: Seq<char>, rpos: int) -> TencentBody {
    match find_member(s, rpos + 1, "TargetText"@) {
        None => TencentBody::Unparsable,
        Some(tpos) => match parse_string_at(s, tpos) {
            None => TencentBody::Unparsable,
            Some((t, _)) => TencentBody::Translated(t),
        },
    }
}

/// The executable counterpart of a cloud-translation body parse.
pub enum TencentExtract {
    Unparsable,
    Failure(String, String),
    Translated(String),
}

fn tencent_target_text_exec(v: &Vec<char>, rpos: usize) -> (r: TencentExtract)
    requires
        rpos < v@.len(),
    ensures
        (match r {
            TencentExtract::Unparsable => tencent_target_text(v@, rpos as int)
                is Unparsable,
            TencentExtract::Failure(code, msg) => tencent_target_text(v@, rpos as int)
                == TencentBody::Failure(code@, msg@),
            TencentExtract::Translated(t) => tencent_target_text(v@, rpos as int)
                == TencentBody::Translated(t@),
        }),
{
    let n = v.len();
    proof {
        assert(rpos < n);
    }
    match find_member_exec(v, rpos + 1, "TargetText") {
        None => TencentExtract::Unparsable,
        Some(tpos) => {
            if tpos < v.len() && v[tpos] == '"' {
                match parse_string_body_exec(v, tpos + 1) {
                    Some((t, _end)) => TencentExtract::Translated(string_of(&t)),
                    None => TencentExtract::Unparsable,
                }
            } else {
                TencentExtract::Unparsable
            }
        },
    }
}

/// Parses a cloud-translation response body.
pub fn tencent_extract(body: &str) -> (r: TencentExtract)
    ensures
        (match r {
            TencentExtract::Unparsable => tencent_body_spec(body@) is Unparsable,
            TencentExtract::Failure(code, msg) => tencent_body_spec(body@)
                == TencentBody::Failure(code@, msg@),
            TencentExtract::Translated(t) => tencent_body_spec(body@) == TencentBody::Translated(
                t@,
            ),
        }),
{
    let v = chars_of(body);
    let i = ws_end_exec(&v, 0);
    if !(i < v.len() && v[i] == '{') {
        return TencentExtract::Unparsable;
    }
    match find_member_exec(&v, i + 1, "Response") {
        None => TencentExtract::Unparsable,
        Some(rpos) => {
            if !(rpos < v.len() && v[rpos] == '{') {
                return TencentExtract::Unparsable;
            }
            match find_member_exec(&v, rpos + 1, "Error") {
                Some(epos) => {
                    let null_here = epos < v.len() && v.len() - epos >= 4 && v[epos] == 'n'
                        && v[epos + 1] == 'u' && v[epos + 2] == 'l' && v[epos + 3] == 'l';
                    if null_here {
                        tencent_target_text_exec(&v, rpos)
                    } else if epos < v.len() && v[epos] == '{' {
                        match find_member_exec(&v, epos + 1, "Code") {
                            None => TencentExtract::Unparsable,
                            Some(cpos) => {
                                if !(cpos < v.len() && v[cpos] == '"') {
                                    return TencentExtract::Unparsable;
                                }
                                match parse_string_body_exec(&v, cpos + 1) {
                                    None => TencentExtract::Unparsable,
                                    Some((code, _cend)) => {
                                        match find_member_exec(&v, epos + 1, "Message") {
                                            None => TencentExtract::Unparsable,
                                            Some(mpos) => {
                                                if !(mpos < v.len() && v[mpos] == '"') {
                                                    return TencentExtract::Unparsable;
                                                }
                                                match parse_string_body_exec(&v, mpos + 1) {
                                                    None => TencentExtract::Unparsable,
                                                    Some((msg, _mend)) => TencentExtract::Failure(
                                                        string_of(&code),
                                                        string_of(&msg),
                                                    ),
                                                }
                                            },
                                        }
                                    },
                                }
                            },
                        }
                    } else {
                        TencentExtract::Unparsable
                    }
                },
                None => tencent_target_text_exec(&v, rpos),
            }
        },
    }
}

} // verus!
