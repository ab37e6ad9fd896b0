//! Decimal text of field ids.

use vstd::prelude::*;
use vstd::string::StringExecFns;

verus! {

/// The character of a decimal digit.
pub open spec fn digit(d: nat) -> char {
    (('0' as int) + d) as char
}

/// The decimal digits of `n`, without leading zeros.
pub open spec fn digits(n: nat) -> Seq<char>
    decreases n,
{
    if n < 10 {
        seq![digit(n)]
    } else {
        digits(n / 10).push(digit(n % 10))
    }
}

/// The decimal text of `n`: its digits, behind a minus sign where `n` is negative.
pub open spec fn decimal(n: int) -> Seq<char> {
    if n < 0 {
        seq!['-'] + digits((-n) as nat)
    } else {
        digits(n as nat)
    }
}

/// The number that a row of decimal digits stands for.
pub open spec fn digits_value(s: Seq<char>) -> int
    decreases s.len(),
{
    if s.len() == 0 {
        0
    } else {
        10 * digits_value(s.drop_last()) + (s.last() as int - '0' as int)
    }
}

/// The number that a decimal text stands for.
pub open spec fn decimal_value(s: Seq<char>) -> int {
    if s.len() > 0 && s[0] == '-' {
        -digits_value(s.drop_first())
    } else {
        digits_value(s)
    }
}

proof fn lemma_digits(n: nat)
    ensures
        digits(n).len() > 0,
        digits_value(digits(n)) == n,
        forall|i: int| 0 <= i < digits(n).len() ==> '0' <= #[trigger] digits(n)[i] <= '9',
        digits(n)[0] == '0' ==> n == 0,
    decreases n,
{
    if n < 10 {
        assert(digits(n).drop_last() =~= Seq::<char>::empty());
        assert(digits_value(Seq::<char>::empty()) == 0);
    } else {
        lemma_digits(n / 10);
        assert(digits(n).drop_last() =~= digits(n / 10));
    }
}

/// Reading a decimal text back gives the number that it was made from.
pub proof fn law_decimal_reads_back(n: int)
    ensures
        decimal_value(decimal(n)) == n,
{
    if n < 0 {
        lemma_digits((-n) as nat);
        assert(decimal(n).drop_first() =~= digits((-n) as nat));
    } else {
        lemma_digits(n as nat);
        assert('0' <= digits(n as nat)[0]);
    }
}

/// Different numbers have different decimal texts.
pub proof fn law_decimal_injective(m: int, n: int)
    requires
        decimal(m) == decimal(n),
    ensures
        m == n,
{
    law_decimal_reads_back(m);
    law_decimal_reads_back(n);
}

/// A decimal text is a minus sign exactly if the number is negative, then a row of decimal digits
/// that is not empty, does not begin with a zero unless the number is zero, and has the magnitude
/// of the number as its value.
pub proof fn law_decimal_is_canonical(n: int)
    ensures
        decimal(n).len() > 0,
        decimal(n)[0] == '-' <==> n < 0,
        n >= 0 ==> {
            &&& forall|i: int|
                0 <= i < decimal(n).len() ==> '0' <= #[trigger] decimal(n)[i] <= '9'
            &&& decimal(n)[0] == '0' ==> n == 0
            &&& digits_value(decimal(n)) == n
        },
        n == 0 ==> decimal(n).len() == 1,
        n < 0 ==> {
            &&& decimal(n).len() > 1
            &&& forall|i: int|
                1 <= i < decimal(n).len() ==> '0' <= #[trigger] decimal(n)[i] <= '9'
            &&& decimal(n)[1] != '0'
            &&& digits_value(decimal(n).drop_first()) == -n
        },
{
    if n < 0 {
        let row = digits((-n) as nat);
        lemma_digits((-n) as nat);
        assert(decimal(n).drop_first() =~= row);
        assert forall|i: int| 1 <= i < decimal(n).len() implies '0' <= #[trigger] decimal(n)[i]
            <= '9' by {
            assert(decimal(n)[i] == row[i - 1]);
        }
    } else {
        lemma_digits(n as nat);
        assert('0' <= digits(n as nat)[0]);
    }
}

/// The value of a row of digits is a base-ten value: a digit that is appended counts for itself,
/// and the digits before it count for ten times as much as without it.
pub proof fn law_digits_value_is_base_ten(row: Seq<char>)
    ensures
        digits_value(Seq::<char>::empty()) == 0,
        digits_value(row.push('0')) == 10 * digits_value(row),
        digits_value(row.push('1')) == 10 * digits_value(row) + 1,
        digits_value(row.push('2')) == 10 * digits_value(row) + 2,
        digits_value(row.push('3')) == 10 * digits_value(row) + 3,
        digits_value(row.push('4')) == 10 * digits_value(row) + 4,
        digits_value(row.push('5')) == 10 * digits_value(row) + 5,
        digits_value(row.push('6')) == 10 * digits_value(row) + 6,
        digits_value(row.push('7')) == 10 * digits_value(row) + 7,
        digits_value(row.push('8')) == 10 * digits_value(row) + 8,
        digits_value(row.push('9')) == 10 * digits_value(row) + 9,
{
    assert forall|c: char| #[trigger] digits_value(row.push(c)) == 10 * digits_value(row) + (
    c as int - '0' as int) by {
        assert(row.push(c).drop_last() =~= row);
    }
}

/// How the decimal texts of numbers relate: the text of a number of two digits or more is that of
/// its tenth part, with the text of its last digit behind it; the text of a negative number is
/// that of its magnitude behind a minus sign.
pub proof fn law_decimal_digit_by_digit(n: int)
    ensures
        decimal(0) == seq!['0'],
        decimal(1) == seq!['1'],
        decimal(2) == seq!['2'],
        decimal(3) == seq!['3'],
        decimal(4) == seq!['4'],
        decimal(5) == seq!['5'],
        decimal(6) == seq!['6'],
        decimal(7) == seq!['7'],
        decimal(8) == seq!['8'],
        decimal(9) == seq!['9'],
        n >= 10 ==> decimal(n) == decimal(n / 10) + decimal(n % 10),
        n < 0 ==> decimal(n) == seq!['-'] + decimal(-n),
{
    if n >= 10 {
        assert(digits((n % 10) as nat) == seq![digit((n % 10) as nat)]);
        assert(decimal(n) =~= decimal(n / 10) + decimal(n % 10));
    }
}

fn digit_text(d: u32) -> (text: &'static str)
    requires
        d < 10,
    ensures
        text@ == seq![digit(d as nat)],
{
    proof {
        reveal_strlit("0");
        reveal_strlit("1");
        reveal_strlit("2");
        reveal_strlit("3");
        reveal_strlit("4");
        reveal_strlit("5");
        reveal_strlit("6");
        reveal_strlit("7");
        reveal_strlit("8");
        reveal_strlit("9");
    }
    let text: &'static str = match d {
        0 => "0",
        1 => "1",
        2 => "2",
        3 => "3",
        4 => "4",
        5 => "5",
        6 => "6",
        7 => "7",
        8 => "8",
        _ => "9",
    };
    proof {
        assert(text@ =~= seq![digit(d as nat)]);
    }
    text
}

fn digits_text(n: u32) -> (text: String)
    ensures
        text@ == digits(n as nat),
    decreases n,
{
    if n < 10 {
        digit_text(n).to_string()
    } else {
        let mut text = digits_text(n / 10);
        text.append(digit_text(n % 10));
        proof {
            assert(text@ =~= digits(n as nat));
        }
        text
    }
}

/// The decimal text of `n`.
pub fn decimal_text(n: i32) -> (text: String)
    ensures
        text@ == decimal(n as int),
        text@.len() > 0,
        text@[0] == '-' <==> n < 0,
        forall|i: int|
            0 <= i < text@.len() && (i > 0 || n >= 0) ==> '0' <= #[trigger] text@[i] <= '9',
{
    proof {
        law_decimal_is_canonical(n as int);
    }
    if n < 0 {
        let magnitude: u32 = (-(n as i64)) as u32;
        let mut text = "-".to_string();
        proof {
            reveal_strlit("-");
            assert(text@ =~= seq!['-']);
        }
        let digits_of = digits_text(magnitude);
        text.append(digits_of.as_str());
        text
    } else {
        digits_text(n as u32)
    }
}

} // verus!
