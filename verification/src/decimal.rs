//! Decimal text of integers, as the error messages print them.
use vstd::prelude::*;
use vstd::string::*;

verus! {

/// The character of a decimal digit.
pub open spec fn digit_char(d: nat) -> char
    recommends
        d < 10,
{
    (48 + d) as char
}

/// The decimal digits of `n`, most significant first, with no leading zero.
pub open spec fn decimal(n: nat) -> Seq<char>
    decreases n,
{
    if n < 10 {
        seq![digit_char(n)]
    } else {
        decimal(n / 10).push(digit_char(n % 10))
    }
}

/// The decimal text of `i`: a minus sign before the digits of its magnitude when it is negative.
pub open spec fn signed_decimal(i: int) -> Seq<char> {
    if i < 0 {
        seq!['-'] + decimal((-i) as nat)
    } else {
        decimal(i as nat)
    }
}

/// The number that a string of decimal digits reads as.
pub open spec fn decimal_value(s: Seq<char>) -> int
    decreases s.len(),
{
    if s.len() == 0 {
        0
    } else {
        decimal_value(s.drop_last()) * 10 + (s.last() as int - 48)
    }
}

proof fn lemma_digit_char(d: nat)
    requires
        d < 10,
    ensures
        digit_char(d) as int == 48 + d,
{
}

/// The digits of `n` read back as `n`, and they start with a digit.
proof fn lemma_decimal_value(n: nat)
    ensures
        decimal(n).len() > 0,
        48 <= decimal(n)[0] as int <= 57,
        decimal_value(decimal(n)) == n,
    decreases n,
{
    if n < 10 {
        lemma_digit_char(n);
        assert(decimal(n).drop_last() =~= Seq::<char>::empty());
        assert(decimal_value(decimal(n)) == decimal_value(Seq::<char>::empty()) * 10 + (n as int));
    } else {
        lemma_decimal_value(n / 10);
        lemma_digit_char(n % 10);
        assert(decimal(n).drop_last() =~= decimal(n / 10));
        assert(decimal(n).last() == digit_char(n % 10));
        assert(decimal_value(decimal(n)) == decimal_value(decimal(n / 10)) * 10 + (n % 10));
        assert((n / 10) * 10 + n % 10 == n);
    }
}

/// Law: the decimal text of an integer determines it; distinct integers print differently.
pub proof fn lemma_signed_decimal_injective(a: int, b: int)
    requires
        signed_decimal(a) == signed_decimal(b),
    ensures
        a == b,
{
    let ma: nat = if a < 0 { (-a) as nat } else { a as nat };
    let mb: nat = if b < 0 { (-b) as nat } else { b as nat };
    lemma_decimal_value(ma);
    lemma_decimal_value(mb);
    if a < 0 && b < 0 {
        assert(signed_decimal(a).drop_first() =~= decimal(ma));
        assert(signed_decimal(b).drop_first() =~= decimal(mb));
    } else if a < 0 {
        assert(signed_decimal(a)[0] == '-');
        assert(signed_decimal(b)[0] == decimal(mb)[0]);
    } else if b < 0 {
        assert(signed_decimal(b)[0] == '-');
        assert(signed_decimal(a)[0] == decimal(ma)[0]);
    }
}

fn digit_str(d: u64) -> (s: &'static str)
    requires
        d < 10,
    ensures
        s@ == seq![digit_char(d as nat)],
{
    match d {
        0 => { proof { reveal_strlit("0"); } "0" },
        1 => { proof { reveal_strlit("1"); } "1" },
        2 => { proof { reveal_strlit("2"); } "2" },
        3 => { proof { reveal_strlit("3"); } "3" },
        4 => { proof { reveal_strlit("4"); } "4" },
        5 => { proof { reveal_strlit("5"); } "5" },
        6 => { proof { reveal_strlit("6"); } "6" },
        7 => { proof { reveal_strlit("7"); } "7" },
        8 => { proof { reveal_strlit("8"); } "8" },
        _ => { proof { reveal_strlit("9"); } "9" },
    }
}

/// Appends the decimal digits of `n` to `s`.
pub fn push_decimal(s: &mut String, n: u64)
    ensures
        final(s)@ == old(s)@ + decimal(n as nat),
    decreases n,
{
    if n >= 10 {
        push_decimal(s, n / 10);
        s.append(digit_str(n % 10));
        assert(decimal(n as nat) =~= decimal((n / 10) as nat) + seq![digit_char((n % 10) as nat)]);
    } else {
        s.append(digit_str(n));
    }
}

/// Appends the decimal text of `i` to `s`.
pub fn push_signed_decimal(s: &mut String, i: i32)
    ensures
        final(s)@ == old(s)@ + signed_decimal(i as int),
{
    if i < 0 {
        proof {
            reveal_strlit("-");
        }
        s.append("-");
        let wide: i64 = i as i64;
        let magnitude: u64 = (0 - wide) as u64;
        push_decimal(s, magnitude);
        assert(old(s)@ + signed_decimal(i as int) =~= old(s)@ + seq!['-'] + decimal(magnitude as nat));
    } else {
        push_decimal(s, i as u64);
    }
}

} // verus!
