//! Decimal rendering of counters for on-screen messages.
use vstd::prelude::*;

verus! {

/// The decimal digit `d` (0 to 9) as text.
pub open spec fn digit_text(d: nat) -> Seq<char> {
    if d == 0 {
        "0"@
    } else if d == 1 {
        "1"@
    } else if d == 2 {
        "2"@
    } else if d == 3 {
        "3"@
    } else if d == 4 {
        "4"@
    } else if d == 5 {
        "5"@
    } else if d == 6 {
        "6"@
    } else if d == 7 {
        "7"@
    } else if d == 8 {
        "8"@
    } else {
        "9"@
    }
}

/// `n` written in decimal, most significant digit first, without leading zeros.
pub open spec fn decimal(n: nat) -> Seq<char>
    decreases n,
{
    if n < 10 {
        digit_text(n)
    } else {
        decimal(n / 10) + digit_text(n % 10)
    }
}

fn digit_str(d: u32) -> (text: &'static str)
    requires
        d < 10,
    ensures
        text@ == digit_text(d as nat),
{
    match d {
        0 => "0",
        1 => "1",
        2 => "2",
        3 => "3",
        4 => "4",
        5 => "5",
        6 => "6",
        7 => "7",
        8 => "8",
        _ => "9",
    }
}

/// Appends `n` in decimal to `text`.
pub fn push_decimal(text: &mut String, n: u32)
    ensures
        final(text)@ == old(text)@ + decimal(n as nat),
    decreases n,
{
    if n >= 10 {
        push_decimal(text, n / 10);
    }
    text.append(digit_str(n % 10));
    assert(n < 10 ==> n % 10 == n);
}

/// Whether `c` is one of the decimal digits `0` to `9`.
pub open spec fn is_digit(c: char) -> bool {
    '0' <= c && c <= '9'
}

/// The number a string of decimal digits denotes, most significant digit first.
pub open spec fn digits_value(text: Seq<char>) -> int
    decreases text.len(),
{
    if text.len() == 0 {
        0
    } else {
        digits_value(text.drop_last()) * 10 + (text.last() as int - '0' as int)
    }
}

proof fn digit_text_is_one_digit(d: nat)
    requires
        d < 10,
    ensures
        digit_text(d).len() == 1,
        digit_text(d)[0] as int == '0' as int + d,
{
    reveal_strlit("0");
    reveal_strlit("1");
    reveal_strlit("2");
    reveal_strlit("3");
    reveal_strlit("4");
    reveal_strlit("5");
    reveal_strlit("6");
    reveal_strlit("7");
    reveal_strlit("8");
    reveal_strlit("9");
}

/// The decimal text of `n` is made of digits only, has no leading zero (but for zero itself),
/// and reads back as `n`.
pub proof fn decimal_reads_back(n: nat)
    ensures
        decimal(n).len() >= 1,
        forall|i: int| 0 <= i < decimal(n).len() ==> is_digit(#[trigger] decimal(n)[i]),
        n != 0 ==> decimal(n)[0] != '0',
        digits_value(decimal(n)) == n,
    decreases n,
{
    if n < 10 {
        digit_text_is_one_digit(n);
        assert(decimal(n).drop_last().len() == 0);
        assert(digits_value(decimal(n).drop_last()) == 0);
        assert(decimal(n).last() == decimal(n)[0]);
    } else {
        let q = n / 10;
        let r = n % 10;
        decimal_reads_back(q);
        digit_text_is_one_digit(r);
        let s = decimal(n);
        assert(s == decimal(q) + digit_text(r));
        assert(s.drop_last() =~= decimal(q));
        assert(s.last() == digit_text(r)[0]);
        assert(q * 10 + r == n) by (nonlinear_arith)
            requires
                q == n / 10,
                r == n % 10,
        ;
        assert(digits_value(s) == digits_value(decimal(q)) * 10 + (s.last() as int - '0' as int));
        assert(q != 0);
        assert(s[0] == decimal(q)[0]);
        assert forall|i: int| 0 <= i < s.len() implies is_digit(#[trigger] s[i]) by {
            if i < decimal(q).len() {
                assert(s[i] == decimal(q)[i]);
            } else {
                assert(s[i] == digit_text(r)[0]);
            }
        }
    }
}

} // verus!
