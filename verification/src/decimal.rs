//! Decimal notation of integers.

use vstd::prelude::*;
use crate::strings::push_char;

verus! {

/// The character for a decimal digit, `'0'` to `'9'`.
pub open spec fn digit_char(d: nat) -> char
    recommends
        d < 10,
{
    seq!['0', '1', '2', '3', '4', '5', '6', '7', '8', '9'][d as int]
}

/// The decimal notation of a natural number, without leading zeros.
pub open spec fn decimal(n: nat) -> Seq<char>
    decreases n,
{
    if n < 10 {
        seq![digit_char(n)]
    } else {
        decimal(n / 10).push(digit_char(n % 10))
    }
}

/// The decimal notation of an integer: that of its magnitude, behind a minus
/// sign where the integer is negative.
pub open spec fn integer_text(i: int) -> Seq<char> {
    if i < 0 {
        seq!['-'] + decimal((-i) as nat)
    } else {
        decimal(i as nat)
    }
}

fn digit(d: u8) -> (c: char)
    requires
        d < 10,
    ensures
        c == digit_char(d as nat),
{
    (48u8 + d) as char
}

/// Writes `n` in decimal notation at the end of `out`.
fn push_decimal(out: &mut String, n: u128)
    ensures
        final(out)@ == old(out)@ + decimal(n as nat),
{
    let mut low: Vec<char> = Vec::new();
    let mut m: u128 = n;
    while m >= 10
        invariant
            decimal(n as nat) == decimal(m as nat) + low@.reverse(),
        decreases m,
    {
        let d: char = digit((m % 10) as u8);
        proof {
            assert(low@.push(d).reverse() =~= seq![d] + low@.reverse());
            assert(decimal(m as nat) == decimal((m / 10) as nat).push(d));
            assert(decimal((m / 10) as nat).push(d) + low@.reverse() =~= decimal((m / 10) as nat)
                + low@.push(d).reverse());
        }
        low.push(d);
        m = m / 10;
    }
    push_char(out, digit(m as u8));
    let mut i: usize = low.len();
    while i > 0
        invariant
            i <= low.len(),
            out@ == old(out)@ + decimal(m as nat) + low@.reverse().take(low.len() - i),
        decreases i,
    {
        i = i - 1;
        push_char(out, low[i]);
        proof {
            let high = low@.reverse();
            assert(high.take(low.len() - i) =~= high.take(low.len() - i - 1).push(low@[i as int]));
        }
    }
    proof {
        assert(low@.reverse().take(low.len() as int) =~= low@.reverse());
        assert(old(out)@ + decimal(m as nat) + low@.reverse() =~= old(out)@ + (decimal(m as nat)
            + low@.reverse()));
    }
}

/// The decimal notation of an unsigned integer.
pub fn unsigned_to_string(n: u128) -> (s: String)
    ensures
        s@ == integer_text(n as int),
{
    let mut s = String::new();
    push_decimal(&mut s, n);
    s
}

/// The decimal notation of a signed integer.
pub fn signed_to_string(i: i128) -> (s: String)
    ensures
        s@ == integer_text(i as int),
{
    let mut s = String::new();
    if i < 0 {
        push_char(&mut s, '-');
        let magnitude: u128 = (-(i + 1)) as u128 + 1;
        push_decimal(&mut s, magnitude);
        assert(s@ =~= seq!['-'] + decimal((-i) as nat));
    } else {
        push_decimal(&mut s, i as u128);
    }
    s
}

} // verus!
