//! Decimal text of integers, for messages that quote an error code.

use vstd::prelude::*;

verus! {

/// The character of one decimal digit.
pub open spec fn digit_char(digit: int) -> char {
    if digit == 0 {
        '0'
    } else if digit == 1 {
        '1'
    } else if digit == 2 {
        '2'
    } else if digit == 3 {
        '3'
    } else if digit == 4 {
        '4'
    } else if digit == 5 {
        '5'
    } else if digit == 6 {
        '6'
    } else if digit == 7 {
        '7'
    } else if digit == 8 {
        '8'
    } else {
        '9'
    }
}

/// The decimal digits of a natural number, most significant first, without
/// leading zeros.
pub open spec fn digits(n: nat) -> Seq<char>
    decreases n,
{
    if n < 10 {
        seq![digit_char(n as int)]
    } else {
        digits(n / 10).push(digit_char((n % 10) as int))
    }
}

/// The decimal text of an integer: its digits, after a minus sign where it
/// is negative.
pub open spec fn decimal(value: int) -> Seq<char> {
    if value < 0 {
        seq!['-'] + digits((-value) as nat)
    } else {
        digits(value as nat)
    }
}

/// The digits of `n`, or nothing for zero: what stands before the digits
/// that were already split off.
spec fn leading(n: nat) -> Seq<char> {
    if n == 0 {
        Seq::empty()
    } else {
        digits(n)
    }
}

/// The characters of digits that were collected least significant first.
spec fn spelled(reversed: Seq<u32>) -> Seq<char> {
    Seq::new(reversed.len(), |k: int| digit_char(reversed[reversed.len() - 1 - k] as int))
}

/// Splitting off the last digit of a number leaves the digits before it.
proof fn lemma_split_last_digit(n: nat)
    requires
        n > 0,
    ensures
        leading(n) == leading(n / 10).push(digit_char((n % 10) as int)),
{
    if n < 10 {
        assert(n / 10 == 0);
        assert(n % 10 == n);
        assert(leading(n) =~= Seq::<char>::empty().push(digit_char(n as int)));
    }
}

/// One more collected digit stands in front of those collected before.
proof fn lemma_spelled_push(reversed: Seq<u32>, digit: u32)
    ensures
        spelled(reversed.push(digit)) == seq![digit_char(digit as int)] + spelled(reversed),
{
    assert(spelled(reversed.push(digit)) =~= seq![digit_char(digit as int)] + spelled(reversed));
}

/// The text of one decimal digit.
fn digit_text(digit: u32) -> (text: &'static str)
    requires
        digit < 10,
    ensures
        text@ == seq![digit_char(digit as int)],
{
    proof {
        reveal_strlit("0");
        reveal_strlit("1");
        reveal_strlit("2");
        reveal_strlit("3");
        reveal_strlit("4");
        reveal_strlit("5");
        reveal_strlit("6");
        reveal_strlit("7");
        reveal_strlit("8");
        reveal_strlit("9");
    }
    let text = if digit == 0 {
        "0"
    } else if digit == 1 {
        "1"
    } else if digit == 2 {
        "2"
    } else if digit == 3 {
        "3"
    } else if digit == 4 {
        "4"
    } else if digit == 5 {
        "5"
    } else if digit == 6 {
        "6"
    } else if digit == 7 {
        "7"
    } else if digit == 8 {
        "8"
    } else {
        "9"
    };
    assert(text@ =~= seq![digit_char(digit as int)]);
    text
}

/// Writes an integer in decimal.
pub fn decimal_text(value: i32) -> (text: String)
    ensures
        text@ == decimal(value as int),
{
    let negative = value < 0;
    let magnitude: u32 = if negative {
        (-(value as i64)) as u32
    } else {
        value as u32
    };
    let mut reversed: Vec<u32> = Vec::new();
    let mut rest: u32 = magnitude;
    proof {
        if magnitude < 10 {
            assert(magnitude / 10 == 0 && magnitude % 10 == magnitude);
        } else {
            lemma_split_last_digit(magnitude as nat);
        }
        lemma_spelled_push(reversed@, magnitude % 10);
        assert(spelled(reversed@) =~= Seq::<char>::empty());
        assert(digits(magnitude as nat) =~= leading((magnitude / 10) as nat) + spelled(
            reversed@.push(magnitude % 10),
        ));
    }
    reversed.push(rest % 10);
    rest = rest / 10;
    while rest > 0
        invariant
            forall|k: int| 0 <= k < reversed@.len() ==> reversed@[k] < 10,
            digits(magnitude as nat) == leading(rest as nat) + spelled(reversed@),
        decreases rest,
    {
        proof {
            lemma_split_last_digit(rest as nat);
            lemma_spelled_push(reversed@, rest % 10);
            assert(leading(rest as nat) + spelled(reversed@) =~= leading((rest / 10) as nat)
                + spelled(reversed@.push(rest % 10)));
        }
        reversed.push(rest % 10);
        rest = rest / 10;
    }
    let mut text = if negative {
        String::from_str("-")
    } else {
        String::new()
    };
    let ghost sign = text@;
    proof {
        reveal_strlit("-");
        assert(negative ==> sign =~= seq!['-']);
        assert(digits(magnitude as nat) =~= spelled(reversed@));
    }
    let mut i: usize = reversed.len();
    while i > 0
        invariant
            i <= reversed@.len(),
            forall|k: int| 0 <= k < reversed@.len() ==> reversed@[k] < 10,
            text@ == sign + spelled(reversed@).subrange(0, reversed@.len() - i),
        decreases i,
    {
        i = i - 1;
        text.append(digit_text(reversed[i]));
        assert(text@ =~= sign + spelled(reversed@).subrange(0, reversed@.len() - i));
    }
    assert(text@ =~= sign + spelled(reversed@));
    text
}

} // verus!
