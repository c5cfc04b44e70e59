//! Numbers in decimal digits.

use vstd::prelude::*;

verus! {

/// The text of one digit.
pub open spec fn digit_text(digit: int) -> Seq<char> {
    if digit == 0 {
        "0"@
    } else if digit == 1 {
        "1"@
    } else if digit == 2 {
        "2"@
    } else if digit == 3 {
        "3"@
    } else if digit == 4 {
        "4"@
    } else if digit == 5 {
        "5"@
    } else if digit == 6 {
        "6"@
    } else if digit == 7 {
        "7"@
    } else if digit == 8 {
        "8"@
    } else {
        "9"@
    }
}

/// The decimal digits of a number, without leading zeros.
pub open spec fn decimal_text(number: nat) -> Seq<char>
    decreases number,
{
    if number < 10 {
        digit_text(number as int)
    } else {
        decimal_text(number / 10) + digit_text((number % 10) as int)
    }
}

fn digit_str(digit: usize) -> (text: &'static str)
    requires
        digit < 10,
    ensures
        text@ == digit_text(digit as int),
{
    match digit {
        0 => "0",
        1 => "1",
        2 => "2",
        3 => "3",
        4 => "4",
        5 => "5",
        6 => "6",
        7 => "7",
        8 => "8",
        _ => "9",
    }
}

/// The decimal digits of a number, without leading zeros.
pub(crate) fn decimal(number: usize) -> (text: String)
    ensures
        text@ == decimal_text(number as nat),
    decreases number,
{
    if number < 10 {
        digit_str(number).to_owned()
    } else {
        decimal(number / 10).concat(digit_str(number % 10))
    }
}

proof fn lemma_digit_text(a: int, b: int)
    requires
        0 <= a < 10,
        0 <= b < 10,
    ensures
        digit_text(a).len() == 1,
        digit_text(a) == digit_text(b) ==> a == b,
{
    reveal_strlit("0");
    reveal_strlit("1");
    reveal_strlit("2");
    reveal_strlit("3");
    reveal_strlit("4");
    reveal_strlit("5");
    reveal_strlit("6");
    reveal_strlit("7");
    reveal_strlit("8");
    reveal_strlit("9");
    if digit_text(a) == digit_text(b) {
        assert(digit_text(a)[0] == digit_text(b)[0]);
    }
}

/// Different numbers have different digits.
pub(crate) proof fn lemma_decimal_text_injective(a: nat, b: nat)
    requires
        decimal_text(a) == decimal_text(b),
    ensures
        a == b,
    decreases a,
{
    let low_a = (a % 10) as int;
    let low_b = (b % 10) as int;
    lemma_digit_text(low_a, low_b);
    lemma_digit_text(low_b, low_a);
    lemma_decimal_text_long(a);
    lemma_decimal_text_long(b);
    if a >= 10 {
        let high_a = decimal_text(a / 10);
        let high_b = decimal_text(b / 10);
        assert(b >= 10);
        assert(high_a =~= decimal_text(a).drop_last());
        assert(high_b =~= decimal_text(b).drop_last());
        assert(digit_text(low_a) =~= seq![decimal_text(a).last()]);
        assert(digit_text(low_b) =~= seq![decimal_text(b).last()]);
        lemma_decimal_text_injective(a / 10, b / 10);
    }
}

proof fn lemma_decimal_text_long(a: nat)
    ensures
        decimal_text(a).len() >= 1,
        (a < 10) == (decimal_text(a).len() == 1),
    decreases a,
{
    lemma_digit_text((a % 10) as int, 0);
    if a >= 10 {
        lemma_decimal_text_long(a / 10);
    }
}

/// The number that a text of digits stands for.
pub open spec fn number_of(text: Seq<char>) -> int
    decreases text.len(),
{
    if text.len() == 0 {
        0
    } else {
        10 * number_of(text.drop_last()) + (text.last() as int - '0' as int)
    }
}

/// The digits of a number stand for it: read back as digits they give it again,
/// each of them is a digit, and only the digits of zero begin with zero.
pub proof fn law_digits_give_the_number_back(number: nat)
    ensures
        number_of(decimal_text(number)) == number,
        decimal_text(number).len() > 0,
        forall|i: int|
            0 <= i < decimal_text(number).len() ==> '0' <= (#[trigger] decimal_text(number)[i])
                <= '9',
        number > 0 ==> decimal_text(number)[0] != '0',
    decreases number,
{
    let low = (number % 10) as int;
    lemma_digit_char(low);
    if number < 10 {
        let text = decimal_text(number);
        assert(text.drop_last() =~= Seq::<char>::empty());
        assert(number_of(text.drop_last()) == 0);
    } else {
        law_digits_give_the_number_back(number / 10);
        let text = decimal_text(number);
        assert(text.drop_last() =~= decimal_text(number / 10));
        assert(text.last() == digit_text(low)[0]);
    }
}

proof fn lemma_digit_char(digit: int)
    requires
        0 <= digit < 10,
    ensures
        digit_text(digit).len() == 1,
        digit_text(digit)[0] as int == '0' as int + digit,
        '0' <= digit_text(digit)[0] <= '9',
        digit > 0 ==> digit_text(digit)[0] != '0',
{
    reveal_strlit("0");
    reveal_strlit("1");
    reveal_strlit("2");
    reveal_strlit("3");
    reveal_strlit("4");
    reveal_strlit("5");
    reveal_strlit("6");
    reveal_strlit("7");
    reveal_strlit("8");
    reveal_strlit("9");
}

} // verus!
