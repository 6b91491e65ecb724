//! Decimal text of integers, as `to_string` writes them.
use vstd::prelude::*;

verus! {

/// The character of a decimal digit.
pub open spec fn digit_char(d: nat) -> char {
    if d == 0 {
        '0'
    } else if d == 1 {
        '1'
    } else if d == 2 {
        '2'
    } else if d == 3 {
        '3'
    } else if d == 4 {
        '4'
    } else if d == 5 {
        '5'
    } else if d == 6 {
        '6'
    } else if d == 7 {
        '7'
    } else if d == 8 {
        '8'
    } else {
        '9'
    }
}

/// The decimal digits of `n`, most significant first, without leading zeros.
pub open spec fn decimal_nat(n: nat) -> Seq<char>
    decreases n,
{
    if n < 10 {
        seq![digit_char(n)]
    } else {
        decimal_nat(n / 10).push(digit_char(n % 10))
    }
}

/// The decimal text of `i`: a minus sign before the digits of a negative number.
pub open spec fn decimal_int(i: int) -> Seq<char> {
    if i < 0 {
        seq!['-'] + decimal_nat((-i) as nat)
    } else {
        decimal_nat(i as nat)
    }
}

/// Whether `c` is one of the ten decimal digits.
pub open spec fn is_digit(c: char) -> bool {
    '0' <= c && c <= '9'
}

/// The number that a decimal digit stands for.
pub open spec fn digit_value(c: char) -> int {
    c as int - '0' as int
}

/// The number that a string of decimal digits reads as, most significant first.
pub open spec fn decimal_value(s: Seq<char>) -> int
    decreases s.len(),
{
    if s.len() == 0 {
        0
    } else {
        decimal_value(s.drop_last()) * 10 + digit_value(s.last())
    }
}

/// The number that a decimal text with an optional leading minus sign reads as.
pub open spec fn signed_decimal_value(s: Seq<char>) -> int {
    if s.len() > 0 && s[0] == '-' {
        -decimal_value(s.drop_first())
    } else {
        decimal_value(s)
    }
}

/// Whether `s` is a canonical decimal numeral: digits only, at least one, and
/// no leading zero unless it is the numeral `0` itself.
pub open spec fn is_canonical_numeral(s: Seq<char>) -> bool {
    &&& s.len() > 0
    &&& forall|k: int| 0 <= k < s.len() ==> is_digit(#[trigger] s[k])
    &&& s.len() > 1 ==> s[0] != '0'
}

/// The decimal text of `n` is a canonical numeral that reads back as `n`.
pub proof fn lemma_decimal_nat_reads_back(n: nat)
    ensures
        is_canonical_numeral(decimal_nat(n)),
        decimal_value(decimal_nat(n)) == n,
    decreases n,
{
    let d = digit_char(n % 10);
    assert(is_digit(d) && digit_value(d) == n % 10);
    if n >= 10 {
        lemma_decimal_nat_reads_back(n / 10);
        let s = decimal_nat(n);
        let prefix = decimal_nat(n / 10);
        assert(s == prefix.push(d));
        assert(s.drop_last() =~= prefix);
        assert(s.last() == d);
        assert(n == (n / 10) * 10 + n % 10);
        assert(decimal_value(s) == decimal_value(prefix) * 10 + digit_value(d));
        assert(s[0] == prefix[0]);
        assert forall|k: int| 0 <= k < s.len() implies is_digit(#[trigger] s[k]) by {
            if k < prefix.len() {
                assert(s[k] == prefix[k]);
            }
        }
        if prefix.len() == 1 {
            assert(prefix[0] != '0') by {
                if prefix[0] == '0' {
                    assert(decimal_value(prefix) == decimal_value(prefix.drop_last()) * 10 + digit_value(prefix[0]));
                    assert(prefix.drop_last().len() == 0);
                }
            }
        }
    } else {
        let s = decimal_nat(n);
        assert(s == seq![d]);
        assert(s.drop_last() =~= Seq::<char>::empty());
        assert(decimal_value(s) == decimal_value(s.drop_last()) * 10 + digit_value(s.last()));
        assert(n % 10 == n);
    }
}

/// The decimal text of any integer reads back as that integer: the digits of
/// its magnitude, canonical, with a minus sign exactly when it is negative.
pub proof fn lemma_decimal_int_reads_back(i: int)
    ensures
        signed_decimal_value(decimal_int(i)) == i,
        i < 0 ==> decimal_int(i)[0] == '-' && is_canonical_numeral(decimal_int(i).drop_first()),
        i >= 0 ==> is_canonical_numeral(decimal_int(i)),
{
    if i < 0 {
        lemma_decimal_nat_reads_back((-i) as nat);
        assert(decimal_int(i).drop_first() =~= decimal_nat((-i) as nat));
    } else {
        lemma_decimal_nat_reads_back(i as nat);
        let s = decimal_nat(i as nat);
        assert(is_digit(s[0]));
    }
}

fn digit_str(d: u64) -> (s: &'static str)
    requires
        d < 10,
    ensures
        s@ == seq![digit_char(d as nat)],
{
    proof {
        reveal_strlit("0");
        reveal_strlit("1");
        reveal_strlit("2");
        reveal_strlit("3");
        reveal_strlit("4");
        reveal_strlit("5");
        reveal_strlit("6");
        reveal_strlit("7");
        reveal_strlit("8");
        reveal_strlit("9");
    }
    if d == 0 {
        "0"
    } else if d == 1 {
        "1"
    } else if d == 2 {
        "2"
    } else if d == 3 {
        "3"
    } else if d == 4 {
        "4"
    } else if d == 5 {
        "5"
    } else if d == 6 {
        "6"
    } else if d == 7 {
        "7"
    } else if d == 8 {
        "8"
    } else {
        "9"
    }
}

fn append_decimal(n: u64, out: &mut String)
    ensures
        final(out)@ == old(out)@ + decimal_nat(n as nat),
    decreases n,
{
    if n >= 10 {
        append_decimal(n / 10, out);
    }
    out.append(digit_str(n % 10));
    proof {
        assert(old(out)@ + decimal_nat(n as nat) =~= final(out)@) by {
            if n >= 10 {
                assert(decimal_nat(n as nat) == decimal_nat((n / 10) as nat).push(digit_char((n % 10) as nat)));
            }
        }
    }
}

/// The decimal text of an unsigned integer.
pub fn u64_to_decimal(n: u64) -> (text: String)
    ensures
        text@ == decimal_nat(n as nat),
        is_canonical_numeral(text@),
        decimal_value(text@) == n,
{
    proof {
        lemma_decimal_nat_reads_back(n as nat);
    }
    let mut text = String::new();
    append_decimal(n, &mut text);
    proof {
        assert(text@ =~= decimal_nat(n as nat));
    }
    text
}

/// The decimal text of a signed integer.
pub fn i64_to_decimal(n: i64) -> (text: String)
    ensures
        text@ == decimal_int(n as int),
        signed_decimal_value(text@) == n,
        n < 0 ==> text@[0] == '-' && is_canonical_numeral(text@.drop_first()),
        n >= 0 ==> is_canonical_numeral(text@),
{
    proof {
        lemma_decimal_int_reads_back(n as int);
    }
    let mut text = String::new();
    if n < 0 {
        proof {
            reveal_strlit("-");
        }
        text.append("-");
        let magnitude: u64 = (-(n as i128)) as u64;
        append_decimal(magnitude, &mut text);
    } else {
        append_decimal(n as u64, &mut text);
    }
    proof {
        assert(text@ =~= decimal_int(n as int));
    }
    text
}

} // verus!
