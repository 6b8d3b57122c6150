//! Decimal formatting of integers, used for timestamps and status codes.
use vstd::prelude::*;
use vstd::string::StringExecFns;
use crate::text::string_of;

verus! {

/// The decimal digit character for a value below 10.
pub open spec fn dec_digit(n: int) -> char {
    if n == 0 { '0' } else if n == 1 { '1' } else if n == 2 { '2' } else if n == 3 { '3' }
    else if n == 4 { '4' } else if n == 5 { '5' } else if n == 6 { '6' } else if n == 7 { '7' }
    else if n == 8 { '8' } else { '9' }
}

/// The decimal digits of a non-negative integer, most significant first,
/// without leading zeros (zero itself is the single digit `0`).
pub open spec fn dec_digits(n: int) -> Seq<char>
    decreases n,
{
    if n < 10 {
        seq![dec_digit(n)]
    } else {
        dec_digits(n / 10) + seq![dec_digit(n % 10)]
    }
}

/// The decimal rendering of an integer, with a leading minus sign when it
/// is negative.
pub open spec fn dec_of_int(i: int) -> Seq<char> {
    if i < 0 {
        seq!['-'] + dec_digits(-i)
    } else {
        dec_digits(i)
    }
}

fn dec_digit_exec(n: u64) -> (r: char)
    requires
        n < 10,
    ensures
        r == dec_digit(n as int),
{
    match n {
        0 => '0', 1 => '1', 2 => '2', 3 => '3', 4 => '4',
        5 => '5', 6 => '6', 7 => '7', 8 => '8', _ => '9',
    }
}

/// The decimal rendering of an unsigned 64-bit integer.
pub fn u64_to_string(n: u64) -> (r: String)
    ensures
        r@ == dec_digits(n as int),
{
    let mut rev: Vec<char> = Vec::new();
    let mut m: u64 = n;
    if m < 10 {
        rev.push(dec_digit_exec(m));
        proof {
            assert(rev@.reverse() =~= dec_digits(n as int));
        }
    } else {
        while m >= 10
            invariant
                dec_digits(n as int) == dec_digits(m as int) + rev@.reverse(),
            decreases m,
        {
            let d = m % 10;
            let ghost oldrev = rev@;
            rev.push(dec_digit_exec(d));
            proof {
                assert(rev@.reverse() =~= seq![dec_digit(d as int)] + oldrev.reverse());
                assert(dec_digits(m as int) == dec_digits(m as int / 10) + seq![
                    dec_digit(m as int % 10),
                ]);
                assert(dec_digits(m as int) + oldrev.reverse() =~= dec_digits(m as int / 10)
                    + rev@.reverse());
            }
            m = m / 10;
        }
        let ghost oldrev = rev@;
        rev.push(dec_digit_exec(m));
        proof {
            assert(rev@.reverse() =~= seq![dec_digit(m as int)] + oldrev.reverse());
            assert(dec_digits(m as int) == seq![dec_digit(m as int)]);
            assert(dec_digits(n as int) =~= rev@.reverse());
        }
    }
    let mut out: Vec<char> = Vec::new();
    let mut i: usize = rev.len();
    while i > 0
        invariant
            0 <= i <= rev@.len(),
            out@ == rev@.reverse().take(rev@.len() - i),
        decreases i,
    {
        i = i - 1;
        out.push(rev[i]);
        proof {
            assert(out@ =~= rev@.reverse().take(rev@.len() - i));
        }
    }
    proof {
        assert(rev@.reverse().take(rev@.len() as int) =~= rev@.reverse());
    }
    string_of(&out)
}

/// The decimal rendering of a signed 64-bit integer.
pub fn i64_to_string(n: i64) -> (r: String)
    ensures
        r@ == dec_of_int(n as int),
{
    if n >= 0 {
        u64_to_string(n as u64)
    } else {
        let mag: u64 = if n < -9223372036854775807i64 {
            9223372036854775808u64
        } else {
            (0 - n) as u64
        };
        proof {
            assert(mag as int == -(n as int));
        }
        let mut s = String::from_str("-");
        let d = u64_to_string(mag);
        s.append(d.as_str());
        proof {
            reveal_strlit("-");
            assert(s@ =~= dec_of_int(n as int));
        }
        s
    }
}

} // verus!
