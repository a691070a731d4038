//! Decimal numbers in text: reading them and writing them.

use vstd::prelude::*;
use vstd::string::*;

use crate::text::characters;

verus! {

pub open spec fn is_digit(c: char) -> bool {
    '0' <= c <= '9'
}

pub open spec fn all_digits(s: Seq<char>) -> bool {
    forall|i: int| 0 <= i < s.len() ==> is_digit(#[trigger] s[i])
}

/// The number that a run of decimal digits stands for.
pub open spec fn digits_value(s: Seq<char>) -> nat
    decreases s.len(),
{
    if s.len() == 0 {
        0
    } else {
        (digits_value(s.drop_last()) * 10 + (s.last() as int - '0' as int)) as nat
    }
}

/// A number in text: an optional `+`, then one or more decimal digits and nothing else, with a
/// value of at most `max`.
pub open spec fn number_in(s: Seq<char>, max: nat) -> Option<nat> {
    let body = if s.len() > 0 && s[0] == '+' {
        s.skip(1)
    } else {
        s
    };
    if body.len() > 0 && all_digits(body) && digits_value(body) <= max {
        Some(digits_value(body))
    } else {
        None
    }
}

/// The digits further on never make a number smaller.
proof fn lemma_prefix_value(s: Seq<char>, n: int)
    requires
        all_digits(s),
        0 <= n <= s.len(),
    ensures
        digits_value(s.take(n)) <= digits_value(s),
    decreases s.len(),
{
    if n == s.len() {
        assert(s.take(n) =~= s);
    } else {
        assert forall|i: int| 0 <= i < s.drop_last().len() implies is_digit(
            #[trigger] s.drop_last()[i],
        ) by {
            assert(s.drop_last()[i] == s[i]);
        }
        lemma_prefix_value(s.drop_last(), n);
        assert(s.drop_last().take(n) =~= s.take(n));
        assert(is_digit(s[s.len() - 1]));
    }
}

/// Reads a number of at most `max`.
pub fn parse_number(s: &str, max: u64) -> (r: Option<u64>)
    ensures
        match r {
            Some(n) => number_in(s@, max as nat) == Some(n as nat),
            None => number_in(s@, max as nat) is None,
        },
{
    let text = characters(s);
    let len: usize = text.len();
    let start: usize = if len > 0 && text[0] == '+' {
        1
    } else {
        0
    };
    let ghost body = s@.skip(start as int);
    proof {
        if start == 0 {
            assert(body =~= s@);
        }
    }
    if start == len {
        return None;
    }
    let mut value: u64 = 0;
    let mut at: usize = start;
    proof {
        assert(body.take(0) =~= Seq::<char>::empty());
    }
    while at < len
        invariant
            start <= at <= len,
            len == s@.len(),
            text@ == s@,
            body == s@.skip(start as int),
            body == if s@.len() > 0 && s@[0] == '+' {
                s@.skip(1)
            } else {
                s@
            },
            forall|i: int| 0 <= i < at - start ==> is_digit(#[trigger] body[i]),
            value == digits_value(body.take(at - start)),
            value <= max,
        decreases len - at,
    {
        let c = text[at];
        let ghost k = at - start;
        proof {
            assert(body[k] == c);
            assert(body.take(k + 1).drop_last() =~= body.take(k));
            assert(body.take(k + 1).last() == c);
        }
        if c < '0' || c > '9' {
            assert(!is_digit(body[k]));
            return None;
        }
        let digit: u64 = (c as u32 - '0' as u32) as u64;
        if value > max / 10 || digit > max - value * 10 {
            proof {
                assert(digits_value(body.take(k + 1)) > max);
                if all_digits(body) {
                    lemma_prefix_value(body, k + 1);
                }
            }
            return None;
        }
        value = value * 10 + digit;
        at = at + 1;
    }
    proof {
        assert(body.take(at - start) =~= body);
    }
    Some(value)
}

/// The character of a decimal digit.
pub open spec fn digit_char(d: nat) -> char {
    ('0' as int + d) as char
}

/// A number as text: its decimal digits, without leading zeros.
pub open spec fn decimal(n: nat) -> Seq<char>
    decreases n,
{
    if n < 10 {
        seq![digit_char(n)]
    } else {
        decimal(n / 10).push(digit_char(n % 10))
    }
}

/// A signed number as text.
pub open spec fn signed_decimal(n: int) -> Seq<char> {
    if n < 0 {
        seq!['-'] + decimal((-n) as nat)
    } else {
        decimal(n as nat)
    }
}

/// The decimal digits of a number stand for that number.
pub proof fn lemma_decimal_value(n: nat)
    ensures
        decimal(n).len() > 0,
        all_digits(decimal(n)),
        digits_value(decimal(n)) == n,
    decreases n,
{
    if n < 10 {
        let s = decimal(n);
        assert(s.drop_last() =~= Seq::<char>::empty());
        assert(digits_value(s.drop_last()) == 0);
    } else {
        lemma_decimal_value(n / 10);
        assert(decimal(n).drop_last() =~= decimal(n / 10));
        assert forall|i: int| 0 <= i < decimal(n).len() implies is_digit(
            #[trigger] decimal(n)[i],
        ) by {
            if i < decimal(n / 10).len() {
                assert(decimal(n)[i] == decimal(n / 10)[i]);
            }
        }
    }
}

/// Reading undoes writing: the decimal digits of `n` are read as `n`, up to the largest
/// number accepted.
pub proof fn law_written_number_is_read_back(n: nat, max: nat)
    requires
        n <= max,
    ensures
        number_in(decimal(n), max) == Some(n),
{
    lemma_decimal_value(n);
    assert(is_digit(decimal(n)[0]));
}

fn digit_text(d: u64) -> (r: &'static str)
    requires
        d < 10,
    ensures
        r@ == seq![digit_char(d as nat)],
{
    proof {
        reveal_strlit("0");
        reveal_strlit("1");
        reveal_strlit("2");
        reveal_strlit("3");
        reveal_strlit("4");
        reveal_strlit("5");
        reveal_strlit("6");
        reveal_strlit("7");
        reveal_strlit("8");
        reveal_strlit("9");
    }
    if d == 0 {
        "0"
    } else if d == 1 {
        "1"
    } else if d == 2 {
        "2"
    } else if d == 3 {
        "3"
    } else if d == 4 {
        "4"
    } else if d == 5 {
        "5"
    } else if d == 6 {
        "6"
    } else if d == 7 {
        "7"
    } else if d == 8 {
        "8"
    } else {
        "9"
    }
}

/// The decimal digits of a number.
pub fn number_text(n: u64) -> (r: String)
    ensures
        r@ == decimal(n as nat),
    decreases n,
{
    if n < 10 {
        digit_text(n).to_owned()
    } else {
        let mut out = number_text(n / 10);
        let ghost front = out@;
        out.append(digit_text(n % 10));
        assert(out@ =~= front.push(digit_char((n % 10) as nat)));
        out
    }
}

/// The decimal digits of a signed number, with `-` in front where it is negative.
pub fn signed_number_text(n: i64) -> (r: String)
    ensures
        r@ == signed_decimal(n as int),
{
    if n < 0 {
        proof {
            reveal_strlit("-");
        }
        let magnitude: u64 = (-(n as i128)) as u64;
        let mut out = "-".to_owned();
        let digits = number_text(magnitude);
        out.append(digits.as_str());
        assert(out@ =~= signed_decimal(n as int));
        out
    } else {
        number_text(n as u64)
    }
}

/// A digit behind a number counts ten times the number and itself.
pub proof fn law_each_digit_counts_tenfold(s: Seq<char>, c: char)
    requires
        '0' <= c <= '9',
    ensures
        digits_value(Seq::empty()) == 0,
        digits_value(s.push(c)) == 10 * digits_value(s) + (c as int - '0' as int),
{
    assert(s.push(c).drop_last() =~= s);
}

/// One or more digits are read as the number that they stand for, up to the largest number
/// accepted and with or without a plus in front; leading zeros change nothing.
pub proof fn law_digits_are_read(s: Seq<char>, max: nat)
    requires
        s.len() > 0,
        forall|i: int| 0 <= i < s.len() ==> '0' <= (#[trigger] s[i]) <= '9',
    ensures
        digits_value(s) <= max ==> number_in(s, max) == Some(digits_value(s)),
        digits_value(s) > max ==> number_in(s, max) is None,
        number_in(seq!['+'] + s, max) == number_in(s, max),
        number_in(seq!['0'] + s, max) == number_in(s, max),
{
    let plus = seq!['+'] + s;
    assert(plus.skip(1) =~= s);
    let zero = seq!['0'] + s;
    assert('0' <= s[0] <= '9');
    assert forall|i: int| 0 <= i < zero.len() implies is_digit(#[trigger] zero[i]) by {
        if i > 0 {
            assert(zero[i] == s[i - 1]);
        }
    }
    lemma_leading_zero(s);
}

proof fn lemma_leading_zero(s: Seq<char>)
    ensures
        digits_value(seq!['0'] + s) == digits_value(s),
    decreases s.len(),
{
    let zero = seq!['0'] + s;
    if s.len() == 0 {
        assert(zero.drop_last() =~= Seq::<char>::empty());
        assert(digits_value(zero.drop_last()) == 0);
    } else {
        lemma_leading_zero(s.drop_last());
        assert(zero.drop_last() =~= seq!['0'] + s.drop_last());
    }
}

/// Nothing else is a number: not the empty text, not a plus alone, and no text with a character
/// that is no digit, but for a plus in front.
pub proof fn law_only_digits_are_read(s: Seq<char>, i: int, max: nat)
    ensures
        number_in(Seq::empty(), max) is None,
        number_in(seq!['+'], max) is None,
        0 <= i < s.len() && !('0' <= s[i] <= '9') && !(i == 0 && s[i] == '+') ==> number_in(
            s,
            max,
        ) is None,
        number_in(s, max) is Some ==> number_in(s, max)->0 <= max,
{
    let body = if s.len() > 0 && s[0] == '+' {
        s.skip(1)
    } else {
        s
    };
    if 0 <= i < s.len() && !('0' <= s[i] <= '9') && !(i == 0 && s[i] == '+') {
        let k = if s[0] == '+' {
            i - 1
        } else {
            i
        };
        assert(body[k] == s[i]);
        assert(!is_digit(body[k]));
    }
}

/// A number is written in digits that stand for it, without a zero in front but for 0 itself.
pub proof fn law_a_number_is_written_in_its_digits(n: nat)
    ensures
        decimal(n).len() > 0,
        forall|i: int| 0 <= i < decimal(n).len() ==> '0' <= (#[trigger] decimal(n)[i]) <= '9',
        digits_value(decimal(n)) == n,
        n > 0 ==> decimal(n)[0] != '0',
    decreases n,
{
    lemma_decimal_value(n);
    assert forall|i: int| 0 <= i < decimal(n).len() implies '0' <= (#[trigger] decimal(n)[i])
        <= '9' by {
        assert(is_digit(decimal(n)[i]));
    }
    if n >= 10 {
        law_a_number_is_written_in_its_digits(n / 10);
        assert(decimal(n)[0] == decimal(n / 10)[0]);
    }
}

/// A negative number is written as a minus and its magnitude, another one as it is.
pub proof fn law_a_minus_stands_before_a_negative_number(n: int)
    ensures
        n >= 0 ==> signed_decimal(n) == decimal(n as nat),
        n < 0 ==> signed_decimal(n)[0] == '-' && signed_decimal(n).skip(1) == decimal((-n) as nat),
{
    if n < 0 {
        assert(signed_decimal(n).skip(1) =~= decimal((-n) as nat));
    }
}

/// Different numbers are written differently.
pub proof fn law_different_numbers_are_written_differently(m: int, n: int)
    requires
        m != n,
    ensures
        m >= 0 && n >= 0 ==> decimal(m as nat) != decimal(n as nat),
        signed_decimal(m) != signed_decimal(n),
{
    lemma_decimal_value((if m < 0 {
        -m
    } else {
        m
    }) as nat);
    lemma_decimal_value((if n < 0 {
        -n
    } else {
        n
    }) as nat);
    law_a_minus_stands_before_a_negative_number(m);
    law_a_minus_stands_before_a_negative_number(n);
    if m >= 0 {
        assert(is_digit(decimal(m as nat)[0]));
    }
    if n >= 0 {
        assert(is_digit(decimal(n as nat)[0]));
    }
}

} // verus!
