//! Numbers as text: the decimal form of the counter for its label.

use vstd::prelude::*;

verus! {

/// The character of a decimal digit.
pub open spec fn digit(d: int) -> char
    recommends
        0 <= d < 10,
{
    "0123456789"@[d]
}

/// The decimal digits of a natural number, most significant first, with no
/// leading zero.
pub open spec fn decimal(n: nat) -> Seq<char>
    decreases n,
{
    if n < 10 {
        seq![digit(n as int)]
    } else {
        decimal(n / 10).push(digit((n % 10) as int))
    }
}

/// The decimal form of an integer: a minus sign before the digits of a
/// negative one.
pub open spec fn signed_decimal(n: int) -> Seq<char> {
    if n < 0 {
        seq!['-'] + decimal((-n) as nat)
    } else {
        decimal(n as nat)
    }
}

/// Appends the decimal digits of `n` to `out`.
fn push_decimal(out: &mut String, n: u32)
    ensures
        final(out)@ == old(out)@ + decimal(n as nat),
    decreases n,
{
    if n >= 10 {
        push_decimal(out, n / 10);
    }
    let d = (n % 10) as usize;
    proof {
        reveal_strlit("0123456789");
    }
    let digits = "0123456789";
    let one = digits.substring_ascii(d, d + 1);
    out.append(one);
}

/// Appends the decimal form of `n` to `out`.
pub fn push_signed(out: &mut String, n: i32)
    ensures
        final(out)@ == old(out)@ + signed_decimal(n as int),
{
    if n < 0 {
        proof {
            reveal_strlit("-");
        }
        out.append("-");
        let magnitude: i64 = -(n as i64);
        push_decimal(out, magnitude as u32);
    } else {
        push_decimal(out, n as u32);
    }
}

/// The number that a run of decimal digits stands for.
pub open spec fn value_of(digits: Seq<char>) -> int
    decreases digits.len(),
{
    if digits.len() == 0 {
        0
    } else {
        value_of(digits.drop_last()) * 10 + (digits.last() as int - '0' as int)
    }
}

/// The digits of a number are at least one, begin with no minus sign, and
/// stand for the number.
pub proof fn lemma_decimal_reads_back(n: nat)
    ensures
        decimal(n).len() >= 1,
        decimal(n)[0] != '-',
        value_of(decimal(n)) == n,
    decreases n,
{
    reveal_strlit("0123456789");
    reveal_with_fuel(value_of, 2);
    if n >= 10 {
        lemma_decimal_reads_back(n / 10);
        assert(decimal(n).drop_last() =~= decimal(n / 10));
    } else {
        assert(decimal(n).drop_last() =~= Seq::<char>::empty());
    }
}

/// The decimal form tells the number: two integers with one decimal form are
/// one integer.
pub proof fn lemma_signed_decimal_tells_the_number(a: int, b: int)
    requires
        signed_decimal(a) == signed_decimal(b),
    ensures
        a == b,
{
    let (x, y) = (signed_decimal(a), signed_decimal(b));
    if a < 0 {
        lemma_decimal_reads_back((-a) as nat);
    } else {
        lemma_decimal_reads_back(a as nat);
    }
    if b < 0 {
        lemma_decimal_reads_back((-b) as nat);
    } else {
        lemma_decimal_reads_back(b as nat);
    }
    assert(x[0] == y[0]);
    if a < 0 {
        assert(x.subrange(1, x.len() as int) =~= decimal((-a) as nat));
        assert(y.subrange(1, y.len() as int) =~= decimal((-b) as nat));
    }
}

} // verus!
