//! Decimal text of an integer: ASCII digits, most significant first, with a
//! leading `-` below zero and nothing else.

use vstd::prelude::*;
use vstd::string::StringExecFns;

verus! {

/// The character that stands for the digit `d`.
pub open spec fn digit(d: int) -> char
    recommends
        0 <= d < 10,
{
    (48 + d) as char
}

/// The digits of `n`, most significant first. Zero is the one digit `0`; no
/// other number starts with it.
pub open spec fn digits(n: nat) -> Seq<char>
    decreases n,
{
    if n < 10 {
        seq![digit(n as int)]
    } else {
        digits(n / 10).push(digit((n % 10) as int))
    }
}

/// The decimal text of `n`.
pub open spec fn decimal(n: int) -> Seq<char> {
    if n < 0 {
        seq!['-'] + digits((-n) as nat)
    } else {
        digits(n as nat)
    }
}

fn digit_text(d: u32) -> (text: &'static str)
    requires
        d < 10,
    ensures
        text@ == seq![digit(d as int)],
{
    proof {
        reveal_strlit("0");
        reveal_strlit("1");
        reveal_strlit("2");
        reveal_strlit("3");
        reveal_strlit("4");
        reveal_strlit("5");
        reveal_strlit("6");
        reveal_strlit("7");
        reveal_strlit("8");
        reveal_strlit("9");
    }
    let text = match d {
        0 => "0",
        1 => "1",
        2 => "2",
        3 => "3",
        4 => "4",
        5 => "5",
        6 => "6",
        7 => "7",
        8 => "8",
        _ => "9",
    };
    assert(text@ =~= seq![digit(d as int)]);
    text
}

fn append_digits(out: &mut String, n: u32)
    ensures
        final(out)@ == old(out)@ + digits(n as nat),
    decreases n,
{
    if n >= 10 {
        append_digits(out, n / 10);
    }
    out.append(digit_text(n % 10));
    assert(out@ =~= old(out)@ + digits(n as nat));
}

/// Writes `n` in decimal.
pub fn decimal_string(n: i32) -> (text: String)
    ensures
        text@ == decimal(n as int),
{
    let mut text = String::new();
    let wide: i64 = n as i64;
    if wide < 0 {
        proof {
            reveal_strlit("-");
        }
        text.append("-");
        append_digits(&mut text, (-wide) as u32);
    } else {
        append_digits(&mut text, wide as u32);
    }
    assert(text@ =~= decimal(n as int));
    text
}

/// Whether `c` is one of the ten digits.
pub open spec fn is_digit(c: char) -> bool {
    '0' <= c <= '9'
}

/// The number that a text of digits stands for; zero for the empty text.
pub open spec fn number(text: Seq<char>) -> nat
    decreases text.len(),
{
    if text.len() == 0 {
        0
    } else {
        (number(text.drop_last()) * 10 + (text.last() as int - 48)) as nat
    }
}

/// The digits of a number are digits and nothing else, at least one of them,
/// with no zero in front of another digit, and they read back as the number.
pub proof fn lemma_digits_read_back(n: nat)
    ensures
        digits(n).len() >= 1,
        digits(n).len() == 1 <==> n < 10,
        forall|i: int| 0 <= i < digits(n).len() ==> is_digit(#[trigger] digits(n)[i]),
        digits(n).len() > 1 ==> digits(n)[0] != '0',
        number(digits(n)) == n,
    decreases n,
{
    let text = digits(n);
    if n < 10 {
        assert(number(text.drop_last()) == 0);
        assert(text.last() as int - 48 == n);
    } else {
        let front = digits(n / 10);
        lemma_digits_read_back(n / 10);
        assert(text.drop_last() =~= front);
        assert(text[0] == front[0]);
        assert(text.last() as int - 48 == n % 10);
        assert(number(text) == number(front) * 10 + n % 10);
    }
}

/// Two numbers with the same decimal text are the same number.
pub proof fn lemma_decimal_is_one_to_one(a: int, b: int)
    requires
        decimal(a) == decimal(b),
    ensures
        a == b,
{
    let text = decimal(a);
    if a < 0 {
        lemma_digits_read_back((-a) as nat);
    } else {
        lemma_digits_read_back(a as nat);
    }
    if b < 0 {
        lemma_digits_read_back((-b) as nat);
    } else {
        lemma_digits_read_back(b as nat);
    }
    assert(a < 0 <==> text[0] == '-');
    assert(b < 0 <==> text[0] == '-');
    if a < 0 {
        assert(text.subrange(1, text.len() as int) =~= digits((-a) as nat));
        assert(text.subrange(1, text.len() as int) =~= digits((-b) as nat));
    }
}

} // verus!
