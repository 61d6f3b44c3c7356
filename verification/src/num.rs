//! Decimal rendering of 64-bit integers and parsing of decimal tokens.
//!
//! The auth scheme reads a user id straight out of the token string, and
//! the JSON wire shape and error messages render ids back out, so both
//! directions carry exact contracts: `dec_str_of_i64` is the one
//! specification of what a rendered integer looks like, and
//! `is_i64_token` / `i64_token_val` say exactly which strings parse and
//! to what value.

use vstd::prelude::*;

verus! {

/// The character for a single decimal digit value.
pub open spec fn digit_char(d: int) -> char {
    if d == 0 {
        '0'
    } else if d == 1 {
        '1'
    } else if d == 2 {
        '2'
    } else if d == 3 {
        '3'
    } else if d == 4 {
        '4'
    } else if d == 5 {
        '5'
    } else if d == 6 {
        '6'
    } else if d == 7 {
        '7'
    } else if d == 8 {
        '8'
    } else {
        '9'
    }
}

/// Decimal digits of a non-negative integer, most significant first,
/// with no leading zeros (a single '0' for zero).
pub open spec fn dec_digits(n: nat) -> Seq<char>
    decreases n,
{
    if n < 10 {
        seq![digit_char(n as int)]
    } else {
        dec_digits(n / 10).push(digit_char((n % 10) as int))
    }
}

/// Decimal rendering of a signed integer: a leading '-' for negatives.
pub open spec fn dec_str_of_i64(n: int) -> Seq<char> {
    if n < 0 {
        seq!['-'] + dec_digits((-n) as nat)
    } else {
        dec_digits(n as nat)
    }
}

/// Whether a character is a decimal digit.
pub open spec fn is_dec_digit(c: char) -> bool {
    '0' <= c && c <= '9'
}

/// Whether every character of the sequence is a decimal digit.
pub open spec fn all_dec_digits(s: Seq<char>) -> bool {
    forall|i: int| 0 <= i < s.len() ==> is_dec_digit(#[trigger] s[i])
}

/// The numeric value of a digit character.
pub open spec fn digit_val(c: char) -> int {
    c as int - '0' as int
}

/// The value of a digit sequence read in base ten.
pub open spec fn digits_val(s: Seq<char>) -> int
    decreases s.len(),
{
    if s.len() == 0 {
        0
    } else {
        digits_val(s.drop_last()) * 10 + digit_val(s.last())
    }
}

/// The digit part of an integer token: what follows an optional sign.
pub open spec fn i64_token_body(s: Seq<char>) -> Seq<char> {
    if s.len() > 0 && (s[0] == '-' || s[0] == '+') {
        s.skip(1)
    } else {
        s
    }
}

/// Whether an integer token is negative.
pub open spec fn i64_token_negative(s: Seq<char>) -> bool {
    s.len() > 0 && s[0] == '-'
}

/// The strings `str::parse::<i64>` accepts: an optional sign, then one
/// or more decimal digits, with the value in the range of `i64`.
pub open spec fn is_i64_token(s: Seq<char>) -> bool {
    let body = i64_token_body(s);
    &&& body.len() > 0
    &&& all_dec_digits(body)
    &&& (if i64_token_negative(s) {
        digits_val(body) <= 0x8000_0000_0000_0000
    } else {
        digits_val(body) <= 0x7fff_ffff_ffff_ffff
    })
}

/// The value of a valid integer token.
pub open spec fn i64_token_val(s: Seq<char>) -> int {
    if i64_token_negative(s) {
        -digits_val(i64_token_body(s))
    } else {
        digits_val(i64_token_body(s))
    }
}

/// A digit sequence has a non-negative value.
pub proof fn lemma_digits_val_nonneg(s: Seq<char>)
    requires
        all_dec_digits(s),
    ensures
        digits_val(s) >= 0,
    decreases s.len(),
{
    if s.len() > 0 {
        assert(all_dec_digits(s.drop_last()));
        lemma_digits_val_nonneg(s.drop_last());
    }
}

/// Reading more digits never lowers the value: a prefix of a digit
/// sequence is worth at most the whole.
pub proof fn lemma_digits_val_prefix_le(s: Seq<char>, k: int)
    requires
        all_dec_digits(s),
        0 <= k <= s.len(),
    ensures
        digits_val(s.take(k)) <= digits_val(s),
    decreases s.len() - k,
{
    if k == s.len() {
        assert(s.take(k) =~= s);
    } else {
        assert(s.take(k + 1).drop_last() =~= s.take(k));
        assert(all_dec_digits(s.take(k)));
        lemma_digits_val_nonneg(s.take(k));
        assert(digits_val(s.take(k + 1)) == digits_val(s.take(k)) * 10 + digit_val(s.take(k + 1).last()));
        assert(digit_val(s.take(k + 1).last()) >= 0);
        lemma_digits_val_prefix_le(s, k + 1);
    }
}

/// The digit character of a digit value, executably.
fn digit_char_exec(d: u64) -> (r: char)
    requires
        d < 10,
    ensures
        r == digit_char(d as int),
{
    if d == 0 {
        '0'
    } else if d == 1 {
        '1'
    } else if d == 2 {
        '2'
    } else if d == 3 {
        '3'
    } else if d == 4 {
        '4'
    } else if d == 5 {
        '5'
    } else if d == 6 {
        '6'
    } else if d == 7 {
        '7'
    } else if d == 8 {
        '8'
    } else {
        '9'
    }
}

/// Append the decimal digits of `n` to `out`.
fn push_dec_digits(n: u64, out: &mut Vec<char>)
    ensures
        final(out)@ == old(out)@ + dec_digits(n as nat),
    decreases n,
{
    if n < 10 {
        out.push(digit_char_exec(n));
        assert(out@ =~= old(out)@ + dec_digits(n as nat));
    } else {
        push_dec_digits(n / 10, out);
        out.push(digit_char_exec(n % 10));
        assert(out@ =~= old(out)@ + dec_digits(n as nat));
    }
}

/// The decimal rendering of a signed integer, as characters.
pub fn fmt_i64(n: i64) -> (r: Vec<char>)
    ensures
        r@ == dec_str_of_i64(n as int),
{
    let mut out: Vec<char> = Vec::new();
    if n >= 0 {
        push_dec_digits(n as u64, &mut out);
    } else {
        out.push('-');
        let m: u64 = ((-(n + 1)) as u64) + 1;
        assert(m as nat == (-(n as int)) as nat);
        push_dec_digits(m, &mut out);
        assert(out@ =~= seq!['-'] + dec_digits((-(n as int)) as nat));
    }
    out
}

/// Builds the string of exactly the given characters. Relies on
/// `core::iter::Iterator::collect` into `String`.
#[verifier::external_body]
pub(crate) fn chars_to_string(v: &Vec<char>) -> (r: String)
    ensures
        r@ == v@,
{
    v.iter().collect()
}

/// The decimal rendering of a signed integer, as a `String` — what
/// `i64::to_string` produces.
pub fn i64_to_string(n: i64) -> (r: String)
    ensures
        r@ == dec_str_of_i64(n as int),
{
    let chars = fmt_i64(n);
    chars_to_string(&chars)
}

/// Parse a decimal token as `str::parse::<i64>` would: `Some` exactly on
/// the strings `is_i64_token` admits, yielding their value.
pub fn parse_i64(s: &str) -> (r: Option<i64>)
    ensures
        match r {
            Some(v) => is_i64_token(s@) && v as int == i64_token_val(s@),
            None => !is_i64_token(s@),
        },
{
    let len = s.unicode_len();
    let mut neg = false;
    let mut start: usize = 0;
    if len > 0 {
        let c0 = s.get_char(0);
        if c0 == '-' {
            neg = true;
            start = 1;
        } else if c0 == '+' {
            start = 1;
        }
    }
    let ghost body = i64_token_body(s@);
    assert(body =~= s@.skip(start as int));
    if start >= len {
        assert(body.len() == 0);
        return None;
    }
    let lim: u128 = 0x8000_0000_0000_0000;
    let mut acc: u128 = 0;
    let mut i = start;
    while i < len
        invariant
            start <= i <= len,
            len == s@.len(),
            start + body.len() == len,
            body == s@.skip(start as int),
            body == i64_token_body(s@),
            neg == i64_token_negative(s@),
            lim == 0x8000_0000_0000_0000,
            acc <= lim,
            all_dec_digits(body.take(i - start)),
            acc as int == digits_val(body.take(i - start)),
        decreases len - i,
    {
        let c = s.get_char(i);
        assert(body[i - start] == s@[i as int]);
        if !('0' <= c && c <= '9') {
            assert(!all_dec_digits(body)) by {
                assert(!is_dec_digit(body[i - start]));
            }
            return None;
        }
        let d: u128 = (c as u32 - '0' as u32) as u128;
        assert(d as int == digit_val(c));
        let val = acc * 10 + d;
        assert(body.take(i + 1 - start).drop_last() =~= body.take(i - start));
        assert(body.take(i + 1 - start).last() == c);
        assert(val as int == digits_val(body.take(i + 1 - start)));
        if val > lim {
            // Any completion of these digits is worth at least this much,
            // so the token is out of range whichever sign it carries.
            assert(!is_i64_token(s@)) by {
                if is_i64_token(s@) {
                    lemma_digits_val_prefix_le(body, i + 1 - start);
                }
            }
            return None;
        }
        assert(all_dec_digits(body.take(i + 1 - start)));
        acc = val;
        i = i + 1;
    }
    assert(body.take(i - start) =~= body);
    if neg {
        if acc == lim {
            assert(is_i64_token(s@));
            Some(i64::MIN)
        } else {
            assert(is_i64_token(s@));
            Some(-(acc as i64))
        }
    } else {
        if acc >= lim {
            assert(!is_i64_token(s@));
            None
        } else {
            assert(is_i64_token(s@));
            Some(acc as i64)
        }
    }
}

} // verus!
