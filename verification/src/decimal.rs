//! Decimal numerals of natural numbers, as they appear in tensor names and in
//! the entries that describe external data.

use vstd::prelude::*;
use vstd::string::StringExecFns;

verus! {

/// The character that stands for the digit `d`.
pub open spec fn digit_char(d: nat) -> char {
    (d + 48) as char
}

/// The digit that the character `c` stands for.
pub open spec fn digit_value(c: char) -> nat {
    ((c as int) - 48) as nat
}

/// Whether `c` is one of the characters `0` to `9`.
pub open spec fn is_digit(c: char) -> bool {
    48 <= c as int <= 57
}

/// The decimal numeral of `n`, without leading zeros.
pub open spec fn decimal(n: nat) -> Seq<char>
    decreases n,
{
    if n < 10 {
        seq![digit_char(n)]
    } else {
        decimal(n / 10).push(digit_char(n % 10))
    }
}

/// The number that a sequence of digits stands for.
pub open spec fn decimal_value(s: Seq<char>) -> nat
    decreases s.len(),
{
    if s.len() == 0 {
        0
    } else {
        10 * decimal_value(s.drop_last()) + digit_value(s.last())
    }
}

/// A numeral is never empty and holds nothing but digits.
pub proof fn lemma_decimal_digits(n: nat)
    ensures
        decimal(n).len() > 0,
        forall|i: int| 0 <= i < decimal(n).len() ==> is_digit(#[trigger] decimal(n)[i]),
    decreases n,
{
    if n >= 10 {
        lemma_decimal_digits(n / 10);
    }
}

/// Reading a numeral gives back the number it was written for.
pub proof fn lemma_decimal_round_trip(n: nat)
    ensures
        decimal_value(decimal(n)) == n,
    decreases n,
{
    if n < 10 {
        assert(decimal(n).drop_last() =~= Seq::empty());
        assert(decimal_value(Seq::empty()) == 0);
        assert(decimal(n).last() == digit_char(n));
    } else {
        lemma_decimal_round_trip(n / 10);
        assert(decimal(n).drop_last() =~= decimal(n / 10));
        assert(decimal(n).last() == digit_char(n % 10));
    }
}

/// Different numbers have different numerals.
pub proof fn lemma_decimal_injective(a: nat, b: nat)
    requires
        decimal(a) == decimal(b),
    ensures
        a == b,
{
    lemma_decimal_round_trip(a);
    lemma_decimal_round_trip(b);
}

/// Whether `s` is the way to write `n`: nothing but the characters `0` to `9`,
/// no leading zero in front of other digits, and read digit by digit it gives
/// `n`.
pub open spec fn is_numeral_of(s: Seq<char>, n: nat) -> bool {
    &&& s.len() > 0
    &&& forall|i: int| 0 <= i < s.len() ==> '0' as int <= (#[trigger] s[i]) as int <= '9' as int
    &&& s.len() > 1 ==> s[0] != '0'
    &&& decimal_value(s) == n
}

/// Every number is written by its numeral.
pub proof fn law_numeral(n: nat)
    ensures
        is_numeral_of(decimal(n), n),
    decreases n,
{
    lemma_decimal_round_trip(n);
    if n >= 10 {
        law_numeral(n / 10);
        assert(decimal(n).drop_last() =~= decimal(n / 10));
        assert(decimal(n)[0] == decimal(n / 10)[0]);
        if decimal(n / 10).len() == 1 {
            assert(n / 10 < 10) by {
                if n / 10 >= 10 {
                    law_numeral(n / 100);
                    assert((n / 10) / 10 == n / 100);
                }
            }
            assert(decimal(n / 10)[0] == digit_char(n / 10));
        }
        assert forall|i: int| 0 <= i < decimal(n).len() implies '0' as int <= (
        #[trigger] decimal(n)[i]) as int <= '9' as int by {
            if i < decimal(n / 10).len() {
                assert(decimal(n)[i] == decimal(n / 10)[i]);
            }
        }
    }
}

/// There is only one way to write a number.
pub proof fn law_numeral_unique(s: Seq<char>, n: nat)
    requires
        is_numeral_of(s, n),
    ensures
        s == decimal(n),
    decreases s.len(),
{
    let t = s.drop_last();
    let d = digit_value(s.last());
    assert('0' as int <= s[s.len() - 1] as int <= '9' as int);
    assert(digit_char(d) == s.last());
    if s.len() == 1 {
        assert(decimal_value(t) == 0);
        assert(s =~= decimal(n));
    } else {
        assert forall|i: int| 0 <= i < t.len() implies '0' as int <= (#[trigger] t[i]) as int
            <= '9' as int by {
            assert(t[i] == s[i]);
        }
        assert(t[0] == s[0]);
        law_numeral_unique(t, decimal_value(t));
        if decimal_value(t) == 0 {
            assert(decimal(0)[0] == digit_char(0));
        }
        assert(n / 10 == decimal_value(t));
        assert(n % 10 == d);
        assert(s =~= t.push(s.last()));
    }
}

/// The one-character string of the digit `d`.
fn digit_str(d: u64) -> (s: &'static str)
    requires
        d < 10,
    ensures
        s@ == seq![digit_char(d as nat)],
{
    let s = if d == 0 {
        "0"
    } else if d == 1 {
        "1"
    } else if d == 2 {
        "2"
    } else if d == 3 {
        "3"
    } else if d == 4 {
        "4"
    } else if d == 5 {
        "5"
    } else if d == 6 {
        "6"
    } else if d == 7 {
        "7"
    } else if d == 8 {
        "8"
    } else {
        "9"
    };
    proof {
        reveal_strlit("0");
        reveal_strlit("1");
        reveal_strlit("2");
        reveal_strlit("3");
        reveal_strlit("4");
        reveal_strlit("5");
        reveal_strlit("6");
        reveal_strlit("7");
        reveal_strlit("8");
        reveal_strlit("9");
        assert(s@ =~= seq![digit_char(d as nat)]);
    }
    s
}

/// Appends the decimal numeral of `n` to `out`.
pub fn append_decimal(out: &mut String, n: u64)
    ensures
        final(out)@ == old(out)@ + decimal(n as nat),
        final(out)@.take(old(out)@.len() as int) == old(out)@,
        is_numeral_of(final(out)@.skip(old(out)@.len() as int), n as nat),
    decreases n,
{
    if n >= 10 {
        append_decimal(out, n / 10);
    }
    out.append(digit_str(n % 10));
    proof {
        assert(out@ =~= old(out)@ + decimal(n as nat));
        law_numeral(n as nat);
        assert(out@.take(old(out)@.len() as int) =~= old(out)@);
        assert(out@.skip(old(out)@.len() as int) =~= decimal(n as nat));
    }
}

/// The decimal numeral of `n`.
pub fn decimal_string(n: u64) -> (s: String)
    ensures
        s@ == decimal(n as nat),
        is_numeral_of(s@, n as nat),
{
    let mut s = String::new();
    append_decimal(&mut s, n);
    proof {
        assert(s@ =~= decimal(n as nat));
        law_numeral(n as nat);
    }
    s
}

} // verus!
