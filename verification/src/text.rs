//! Small verified helpers on strings: comparison, decimal numbers and the
//! tokens that the wizard recognises.

use vstd::prelude::*;
use vstd::std_specs::iter::IteratorSpec;

verus! {

/// The character that stands for the digit `d`; `'9'` for anything above 8.
pub open spec fn digit_char(d: int) -> char {
    if d <= 0 {
        '0'
    } else if d == 1 {
        '1'
    } else if d == 2 {
        '2'
    } else if d == 3 {
        '3'
    } else if d == 4 {
        '4'
    } else if d == 5 {
        '5'
    } else if d == 6 {
        '6'
    } else if d == 7 {
        '7'
    } else if d == 8 {
        '8'
    } else {
        '9'
    }
}

/// The decimal digits of `n`, most significant first, without leading zeros.
pub open spec fn decimal(n: nat) -> Seq<char>
    decreases n,
{
    if n < 10 {
        seq![digit_char(n as int)]
    } else {
        decimal(n / 10).push(digit_char((n % 10) as int))
    }
}

fn digit_str(d: u64) -> (s: &'static str)
    requires
        d < 10,
    ensures
        s@ == seq![digit_char(d as int)],
{
    proof {
        reveal_strlit("0");
        reveal_strlit("1");
        reveal_strlit("2");
        reveal_strlit("3");
        reveal_strlit("4");
        reveal_strlit("5");
        reveal_strlit("6");
        reveal_strlit("7");
        reveal_strlit("8");
        reveal_strlit("9");
    }
    let s = if d == 0 {
        "0"
    } else if d == 1 {
        "1"
    } else if d == 2 {
        "2"
    } else if d == 3 {
        "3"
    } else if d == 4 {
        "4"
    } else if d == 5 {
        "5"
    } else if d == 6 {
        "6"
    } else if d == 7 {
        "7"
    } else if d == 8 {
        "8"
    } else {
        "9"
    };
    assert(s@ =~= seq![digit_char(d as int)]);
    s
}

/// Appends the decimal digits of `n` to `out`.
pub fn push_decimal(out: &mut String, n: u64)
    ensures
        final(out)@ == old(out)@ + decimal(n as nat),
    decreases n,
{
    if n >= 10 {
        push_decimal(out, n / 10);
    }
    out.append(digit_str(n % 10));
    assert(out@ =~= old(out)@ + decimal(n as nat));
}

/// The decimal digits of `n` as a string.
pub fn decimal_string(n: u64) -> (text: String)
    ensures
        text@ == decimal(n as nat),
{
    let mut text = String::new();
    push_decimal(&mut text, n);
    assert(text@ =~= decimal(n as nat));
    text
}

/// Whether `c` is a decimal digit.
pub open spec fn is_digit(c: char) -> bool {
    c == '0' || c == '1' || c == '2' || c == '3' || c == '4' || c == '5' || c == '6' || c == '7'
        || c == '8' || c == '9'
}

/// The number that the digit `c` stands for; 0 for any other character.
pub open spec fn digit_value(c: char) -> nat {
    if c == '1' {
        1
    } else if c == '2' {
        2
    } else if c == '3' {
        3
    } else if c == '4' {
        4
    } else if c == '5' {
        5
    } else if c == '6' {
        6
    } else if c == '7' {
        7
    } else if c == '8' {
        8
    } else if c == '9' {
        9
    } else {
        0
    }
}

/// Whether `text` is made of decimal digits alone.
pub open spec fn all_digits(text: Seq<char>) -> bool {
    forall|i: int| 0 <= i < text.len() ==> is_digit(#[trigger] text[i])
}

/// The number that the digits of `text` write, the first digit counting
/// most; 0 for the empty text.
pub open spec fn number_value(text: Seq<char>) -> nat
    decreases text.len(),
{
    if text.len() == 0 {
        0
    } else {
        10 * number_value(text.drop_last()) + digit_value(text.last())
    }
}

/// `text` without a plus sign in front.
pub open spec fn unsigned_part(text: Seq<char>) -> Seq<char> {
    if text.len() > 0 && text[0] == '+' {
        text.subrange(1, text.len() as int)
    } else {
        text
    }
}

/// The number that `text` writes: decimal digits, at least one, with or
/// without a plus sign in front, for a number that fits in 64 bits. `None`
/// for any other text.
pub open spec fn parsed_u64(text: Seq<char>) -> Option<u64> {
    let digits = unsigned_part(text);
    if digits.len() > 0 && all_digits(digits) && number_value(digits) <= u64::MAX {
        Some(number_value(digits) as u64)
    } else {
        None
    }
}

/// A longer number is no smaller than the number that it starts with.
pub proof fn lemma_number_value_grows(text: Seq<char>, count: int)
    requires
        0 <= count <= text.len(),
    ensures
        number_value(text.subrange(0, count)) <= number_value(text),
    decreases text.len() - count,
{
    if count < text.len() {
        lemma_number_value_grows(text.drop_last(), count);
        assert(text.drop_last().subrange(0, count) =~= text.subrange(0, count));
    } else {
        assert(text.subrange(0, count) =~= text);
    }
}

/// The digits of a number are digits, and they write that number.
pub proof fn lemma_decimal_reads_back(n: nat)
    ensures
        all_digits(decimal(n)),
        decimal(n).len() >= 1,
        number_value(decimal(n)) == n,
        decimal(n)[0] != '+',
    decreases n,
{
    if n < 10 {
        let text = decimal(n);
        assert(text.drop_last() =~= Seq::<char>::empty());
        assert(number_value(text.drop_last()) == 0);
    } else {
        lemma_decimal_reads_back(n / 10);
        let text = decimal(n);
        assert(text.drop_last() =~= decimal(n / 10));
    }
}

/// A number is read back from its digits.
pub proof fn lemma_parse_decimal(n: u64)
    ensures
        parsed_u64(decimal(n as nat)) == Some(n),
{
    lemma_decimal_reads_back(n as nat);
}

fn digit_of(c: char) -> (digit: Option<u64>)
    ensures
        is_digit(c) ==> digit == Some(digit_value(c) as u64),
        !is_digit(c) ==> digit is None,
        digit matches Some(d) ==> d <= 9,
{
    if c == '0' {
        Some(0)
    } else if c == '1' {
        Some(1)
    } else if c == '2' {
        Some(2)
    } else if c == '3' {
        Some(3)
    } else if c == '4' {
        Some(4)
    } else if c == '5' {
        Some(5)
    } else if c == '6' {
        Some(6)
    } else if c == '7' {
        Some(7)
    } else if c == '8' {
        Some(8)
    } else if c == '9' {
        Some(9)
    } else {
        None
    }
}

/// Reads a number: decimal digits, at least one, with or without a plus
/// sign in front. `None` for any other text and for a number that does not
/// fit in 64 bits.
pub fn parse_u64(text: &str) -> (number: Option<u64>)
    ensures
        number == parsed_u64(text@),
{
    let ghost digits = unsigned_part(text@);
    let ghost skipped: int = text@.len() - digits.len();
    let mut value: u64 = 0;
    let mut first = true;
    let mut seen = false;
    let mut valid = true;
    for c in it: text.chars()
        invariant
            it.seq() == text@,
            digits == unsigned_part(text@),
            skipped == text@.len() - digits.len(),
            0 <= skipped <= 1,
            first == (it.index() == 0),
            seen == (it.index() > skipped),
            it.index() < skipped ==> valid && value == 0,
            valid && it.index() >= skipped ==> all_digits(
                digits.subrange(0, it.index() - skipped),
            ) && value == number_value(digits.subrange(0, it.index() - skipped)),
            !valid ==> !all_digits(digits) || number_value(digits) > u64::MAX,
    {
        let ghost at: int = it.index() as int;
        if first && c == '+' {
            assert(skipped == 1);
        } else {
            assert(at >= skipped);
            let ghost count: int = at - skipped;
            assert(digits[count] == c);
            if valid {
                let ghost before = digits.subrange(0, count);
                let ghost now = digits.subrange(0, count + 1);
                assert(now.drop_last() =~= before);
                assert(now.last() == c);
                match digit_of(c) {
                    None => {
                        valid = false;
                    },
                    Some(digit) => {
                        assert(all_digits(now)) by {
                            assert forall|i: int| 0 <= i < now.len() implies is_digit(
                                #[trigger] now[i],
                            ) by {
                                if i < count {
                                    assert(now[i] == before[i]);
                                }
                            }
                        }
                        if value > (u64::MAX - digit) / 10 {
                            proof {
                                lemma_number_value_grows(digits, count + 1);
                            }
                            valid = false;
                        } else {
                            value = value * 10 + digit;
                        }
                    },
                }
            }
            seen = true;
        }
        first = false;
    }
    assert(digits.subrange(0, digits.len() as int) =~= digits);
    if valid && seen {
        Some(value)
    } else {
        None
    }
}

/// Whether two strings hold the same characters.
pub fn str_eq(a: &str, b: &str) -> (same: bool)
    ensures
        same == (a@ == b@),
{
    broadcast use vstd::string::group_string_axioms;

    let mut other = b.chars();
    for c in it: a.chars()
        invariant
            it.seq() == a@,
            other.obeys_prophetic_iter_laws(),
            it.index() <= b@.len(),
            other.remaining() == b@.subrange(it.index() as int, b@.len() as int),
            forall|j: int| 0 <= j < it.index() ==> a@[j] == b@[j],
    {
        match other.next() {
            Some(d) => {
                assert(d == b@[it.index() as int]);
                if c != d {
                    return false;
                }
                assert(other.remaining() =~= b@.subrange(it.index() + 1, b@.len() as int));
            },
            None => {
                return false;
            },
        }
    }
    match other.next() {
        Some(_) => false,
        None => {
            assert(a@ =~= b@);
            true
        },
    }
}

/// Whether `c` is the letter `lower` in either case.
pub open spec fn is_letter(c: char, lower: char, upper: char) -> bool {
    c == lower || c == upper
}

/// Whether `text` reads `none`, in any mix of upper and lower case.
pub open spec fn is_none_word(text: Seq<char>) -> bool {
    &&& text.len() == 4
    &&& is_letter(text[0], 'n', 'N')
    &&& is_letter(text[1], 'o', 'O')
    &&& is_letter(text[2], 'n', 'N')
    &&& is_letter(text[3], 'e', 'E')
}

/// Tests for the word `none`, ignoring case.
pub fn is_none(text: &str) -> (found: bool)
    ensures
        found == is_none_word(text@),
{
    if text.unicode_len() != 4 {
        return false;
    }
    let c0 = text.get_char(0);
    let c1 = text.get_char(1);
    let c2 = text.get_char(2);
    let c3 = text.get_char(3);
    (c0 == 'n' || c0 == 'N') && (c1 == 'o' || c1 == 'O') && (c2 == 'n' || c2 == 'N') && (c3 == 'e'
        || c3 == 'E')
}

} // verus!
