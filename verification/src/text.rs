//! Verified text building blocks.
//!
//! The exposition format and the structured log line are built character by
//! character into a `Vec<char>`, against specification functions that pin the
//! exact text.  Quantities that the service measures in fractional seconds or
//! fractional units are carried as fixed-point integers counting millionths
//! (micro-units); [`fixed_str`] says how such a value prints.

use vstd::prelude::*;

verus! {

/// The fixed-point scale: one unit is this many micro-units.
pub const MICROS_PER_UNIT: u64 = 1000000;

/// The decimal digit character for `d` (meaningful for `d < 10`).
pub open spec fn dec_digit(d: nat) -> char {
    if d == 0 {
        '0'
    } else if d == 1 {
        '1'
    } else if d == 2 {
        '2'
    } else if d == 3 {
        '3'
    } else if d == 4 {
        '4'
    } else if d == 5 {
        '5'
    } else if d == 6 {
        '6'
    } else if d == 7 {
        '7'
    } else if d == 8 {
        '8'
    } else {
        '9'
    }
}

/// The usual decimal rendering of `n`, without sign or leading zeros.
pub open spec fn dec_str(n: nat) -> Seq<char>
    decreases n,
{
    if n < 10 {
        seq![dec_digit(n)]
    } else {
        dec_str(n / 10).push(dec_digit(n % 10))
    }
}

/// The six decimal digits of a fraction of a unit, most significant first
/// (meaningful for `fr < 1000000`).
pub open spec fn frac6(fr: nat) -> Seq<char> {
    seq![
        dec_digit(fr / 100000 % 10),
        dec_digit(fr / 10000 % 10),
        dec_digit(fr / 1000 % 10),
        dec_digit(fr / 100 % 10),
        dec_digit(fr / 10 % 10),
        dec_digit(fr % 10),
    ]
}

/// `s` with every trailing `'0'` removed.
pub open spec fn strip0(s: Seq<char>) -> Seq<char>
    decreases s.len(),
{
    if s.len() > 0 && s.last() == '0' {
        strip0(s.drop_last())
    } else {
        s
    }
}

/// How a fixed-point count of micro-units prints: the integer part, and the
/// fractional digits with trailing zeros removed when the fraction is not zero.
pub open spec fn fixed_str(micros: nat) -> Seq<char> {
    if micros % 1000000 == 0 {
        dec_str(micros / 1000000)
    } else {
        dec_str(micros / 1000000) + seq!['.'] + strip0(frac6(micros % 1000000))
    }
}

/// How a signed integer prints.
pub open spec fn signed_dec_str(v: int) -> Seq<char> {
    if v < 0 {
        seq!['-'] + dec_str((-v) as nat)
    } else {
        dec_str(v as nat)
    }
}

/// How a signed fixed-point count of micro-units prints.
pub open spec fn signed_fixed_str(v: int) -> Seq<char> {
    if v < 0 {
        seq!['-'] + fixed_str((-v) as nat)
    } else {
        fixed_str(v as nat)
    }
}

/// The decimal digit character for `d`, executably.
fn dec_digit_char(d: u64) -> (c: char)
    requires
        d < 10,
    ensures
        c == dec_digit(d as nat),
{
    if d == 0 {
        '0'
    } else if d == 1 {
        '1'
    } else if d == 2 {
        '2'
    } else if d == 3 {
        '3'
    } else if d == 4 {
        '4'
    } else if d == 5 {
        '5'
    } else if d == 6 {
        '6'
    } else if d == 7 {
        '7'
    } else if d == 8 {
        '8'
    } else {
        '9'
    }
}

/// Append the decimal rendering of `n`.
pub fn push_dec(out: &mut Vec<char>, n: u64)
    ensures
        final(out)@ == old(out)@ + dec_str(n as nat),
    decreases n,
{
    if n < 10 {
        out.push(dec_digit_char(n));
        assert(final(out)@ =~= old(out)@ + dec_str(n as nat));
    } else {
        push_dec(out, n / 10);
        out.push(dec_digit_char(n % 10));
        assert(final(out)@ =~= old(out)@ + dec_str(n as nat));
    }
}

/// Append the fixed-point rendering of a count of micro-units.
pub fn push_fixed(out: &mut Vec<char>, micros: u64)
    ensures
        final(out)@ == old(out)@ + fixed_str(micros as nat),
{
    let ip: u64 = micros / 1000000;
    let fr: u64 = micros % 1000000;
    push_dec(out, ip);
    if fr != 0 {
        out.push('.');
        let mut tmp: Vec<char> = Vec::new();
        tmp.push(dec_digit_char(fr / 100000 % 10));
        tmp.push(dec_digit_char(fr / 10000 % 10));
        tmp.push(dec_digit_char(fr / 1000 % 10));
        tmp.push(dec_digit_char(fr / 100 % 10));
        tmp.push(dec_digit_char(fr / 10 % 10));
        tmp.push(dec_digit_char(fr % 10));
        assert(tmp@ =~= frac6(fr as nat));
        while tmp.len() > 0 && tmp[tmp.len() - 1] == '0'
            invariant
                strip0(tmp@) == strip0(frac6(fr as nat)),
            decreases tmp.len(),
        {
            let ghost prev: Seq<char> = tmp@;
            assert(prev.last() == '0');
            tmp.pop();
            assert(tmp@ =~= prev.drop_last());
        }
        assert(strip0(tmp@) == tmp@);
        out.append(&mut tmp);
        assert(final(out)@ =~= old(out)@ + fixed_str(micros as nat));
    }
}

/// Append the decimal rendering of a signed integer.
pub fn push_signed_dec(out: &mut Vec<char>, v: i64)
    ensures
        final(out)@ == old(out)@ + signed_dec_str(v as int),
{
    if v >= 0 {
        push_dec(out, v as u64);
    } else {
        out.push('-');
        let m: u64 = if v == i64::MIN {
            9223372036854775808u64
        } else {
            (-v) as u64
        };
        push_dec(out, m);
        assert(final(out)@ =~= old(out)@ + signed_dec_str(v as int));
    }
}

/// Append the fixed-point rendering of a signed count of micro-units.
pub fn push_signed_fixed(out: &mut Vec<char>, v: i64)
    ensures
        final(out)@ == old(out)@ + signed_fixed_str(v as int),
{
    if v >= 0 {
        push_fixed(out, v as u64);
    } else {
        out.push('-');
        let m: u64 = if v == i64::MIN {
            9223372036854775808u64
        } else {
            (-v) as u64
        };
        push_fixed(out, m);
        assert(final(out)@ =~= old(out)@ + signed_fixed_str(v as int));
    }
}

/// Append every character of `s`.
pub fn push_str_chars(out: &mut Vec<char>, s: &str)
    ensures
        final(out)@ == old(out)@ + s@,
{
    let n: usize = s.unicode_len();
    let mut i: usize = 0;
    while i < n
        invariant
            i <= n,
            n == s@.len(),
            out@ == old(out)@ + s@.subrange(0, i as int),
        decreases n - i,
    {
        out.push(s.get_char(i));
        i = i + 1;
        assert(out@ =~= old(out)@ + s@.subrange(0, i as int));
    }
    assert(s@.subrange(0, n as int) =~= s@);
}

/// Relies on `String`'s `FromIterator<char>`: collecting an iterator of
/// characters yields the string holding exactly those characters, in order.
#[verifier::external_body]
pub(crate) fn chars_to_string(v: Vec<char>) -> (r: String)
    ensures
        r@ == v@,
{
    v.into_iter().collect()
}

/// Relies on `str`'s `PartialEq`: two string slices compare equal exactly
/// when their character sequences are equal.
#[verifier::external_body]
pub(crate) fn str_eq(a: &str, b: &str) -> (r: bool)
    ensures
        r == (a@ == b@),
{
    a == b
}

} // verus!
