//! Texts: names regardless of case, decimal numbers and hexadecimal bytes.

use crate::error::NumberError;
use vstd::prelude::*;
use vstd::string::{StrSliceExecFns, StringExecFns};

verus! {

/// `c`, with a capital ASCII letter replaced by the small one.
pub open spec fn ascii_lower(c: char) -> char {
    if 'A' <= c && c <= 'Z' {
        (c as u32 + 32) as char
    } else {
        c
    }
}

/// Whether two texts are the same but for the case of ASCII letters.
pub open spec fn same_but_case(a: Seq<char>, b: Seq<char>) -> bool {
    &&& a.len() == b.len()
    &&& forall|i: int| 0 <= i < a.len() ==> ascii_lower(#[trigger] a[i]) == ascii_lower(b[i])
}

/// The character for a digit in base ten or sixteen.
pub open spec fn digit(d: int) -> char {
    if d < 10 {
        (48 + d) as char
    } else {
        (55 + d) as char
    }
}

/// `n` in base ten, without leading zeros.
pub open spec fn decimal(n: nat) -> Seq<char>
    decreases n,
{
    if n < 10 {
        seq![digit(n as int)]
    } else {
        decimal(n / 10).push(digit((n % 10) as int))
    }
}

/// The number that the decimal digits `text` stand for.
pub open spec fn decimal_value(text: Seq<char>) -> nat
    decreases text.len(),
{
    if text.len() == 0 {
        0
    } else {
        (decimal_value(text.drop_last()) * 10 + (text.last() as int - 48)) as nat
    }
}

/// Whether every character is a decimal digit.
pub open spec fn all_digits(text: Seq<char>) -> bool {
    forall|i: int| 0 <= i < text.len() ==> '0' <= #[trigger] text[i] && text[i] <= '9'
}

/// `text` without the plus sign that a number may start with.
pub open spec fn without_plus(text: Seq<char>) -> Seq<char> {
    if text.len() > 0 && text[0] == '+' {
        text.skip(1)
    } else {
        text
    }
}

/// Whether a character that is not a digit comes before the digits in front of
/// it have become too large for a byte. So does the end of a text without digits.
pub open spec fn stops_at_non_digit(digits: Seq<char>) -> bool {
    digits.len() == 0 || exists|i: int|
        0 <= i < digits.len() && !('0' <= #[trigger] digits[i] && digits[i] <= '9') && all_digits(
            digits.take(i),
        ) && decimal_value(digits.take(i)) <= 255
}

/// The byte that `text` stands for in base ten, with or without a plus sign, or
/// what is wrong with it. Of two faults the one further in front counts.
pub open spec fn byte_value(text: Seq<char>) -> Result<u8, NumberError> {
    let digits = without_plus(text);
    if text.len() == 0 {
        Err(NumberError::Empty)
    } else if stops_at_non_digit(digits) {
        Err(NumberError::InvalidDigit)
    } else if decimal_value(digits) > 255 || !all_digits(digits) {
        Err(NumberError::TooLarge)
    } else {
        Ok(decimal_value(digits) as u8)
    }
}

/// Whether two texts are the same.
pub fn same_text(a: &str, b: &str) -> (r: bool)
    ensures
        r == (a@ == b@),
{
    a.to_owned() == b.to_owned()
}

/// The code point of `c`, with a capital ASCII letter replaced by the small one.
fn lower_code(c: char) -> (r: u32)
    ensures
        r == ascii_lower(c) as u32,
{
    let code = c as u32;
    if 65 <= code && code <= 90 {
        code + 32
    } else {
        code
    }
}

/// Whether two texts are the same but for the case of ASCII letters.
pub fn equal_ignoring_case(a: &str, b: &str) -> (r: bool)
    ensures
        r == same_but_case(a@, b@),
{
    let len = a.unicode_len();
    if len != b.unicode_len() {
        return false;
    }
    let mut i: usize = 0;
    while i < len
        invariant
            len == a@.len(),
            len == b@.len(),
            i <= len,
            forall|j: int| 0 <= j < i ==> ascii_lower(#[trigger] a@[j]) == ascii_lower(b@[j]),
        decreases len - i,
    {
        if lower_code(a.get_char(i)) != lower_code(b.get_char(i)) {
            return false;
        }
        i = i + 1;
    }
    true
}

/// The character for a digit in base ten or sixteen.
pub fn digit_text(d: u8) -> (r: &'static str)
    requires
        d < 16,
    ensures
        r@ == seq![digit(d as int)],
{
    match d {
        0 => {
            proof {
                reveal_strlit("0");
            }
            "0"
        },
        1 => {
            proof {
                reveal_strlit("1");
            }
            "1"
        },
        2 => {
            proof {
                reveal_strlit("2");
            }
            "2"
        },
        3 => {
            proof {
                reveal_strlit("3");
            }
            "3"
        },
        4 => {
            proof {
                reveal_strlit("4");
            }
            "4"
        },
        5 => {
            proof {
                reveal_strlit("5");
            }
            "5"
        },
        6 => {
            proof {
                reveal_strlit("6");
            }
            "6"
        },
        7 => {
            proof {
                reveal_strlit("7");
            }
            "7"
        },
        8 => {
            proof {
                reveal_strlit("8");
            }
            "8"
        },
        9 => {
            proof {
                reveal_strlit("9");
            }
            "9"
        },
        10 => {
            proof {
                reveal_strlit("A");
            }
            "A"
        },
        11 => {
            proof {
                reveal_strlit("B");
            }
            "B"
        },
        12 => {
            proof {
                reveal_strlit("C");
            }
            "C"
        },
        13 => {
            proof {
                reveal_strlit("D");
            }
            "D"
        },
        14 => {
            proof {
                reveal_strlit("E");
            }
            "E"
        },
        _ => {
            proof {
                reveal_strlit("F");
            }
            "F"
        },
    }
}

/// `n` in base ten.
pub fn byte_text(n: u8) -> (r: String)
    ensures
        r@ == decimal(n as nat),
{
    let mut text = String::new();
    proof {
        reveal_with_fuel(decimal, 3);
    }
    if n >= 100 {
        text.append(digit_text(n / 100));
    }
    if n >= 10 {
        text.append(digit_text(n / 10 % 10));
    }
    text.append(digit_text(n % 10));
    assert(text@ =~= decimal(n as nat));
    text
}

/// More digits behind a number do not make it smaller.
proof fn lemma_decimal_value_grows(text: Seq<char>, n: int)
    requires
        0 <= n <= text.len(),
        all_digits(text),
    ensures
        decimal_value(text.take(n)) <= decimal_value(text),
    decreases text.len() - n,
{
    if n == text.len() {
        assert(text.take(n) =~= text);
    } else {
        let longer = text.take(n + 1);
        assert(longer.drop_last() =~= text.take(n));
        assert('0' <= text[n]);
        lemma_decimal_value_grows(text, n + 1);
    }
}

/// Digits that have become too large for a byte stay too large, so that nothing
/// behind them is looked at.
proof fn lemma_too_large(digits: Seq<char>, n: int)
    requires
        0 < n <= digits.len(),
        all_digits(digits.take(n)),
        decimal_value(digits.take(n)) > 255,
    ensures
        !stops_at_non_digit(digits),
        all_digits(digits) ==> decimal_value(digits) > 255,
{
    if all_digits(digits) {
        lemma_decimal_value_grows(digits, n);
    }
    assert forall|i: int|
        0 <= i < digits.len() && !('0' <= #[trigger] digits[i] && digits[i] <= '9') && all_digits(
            digits.take(i),
        ) implies decimal_value(digits.take(i)) > 255 by {
        if i < n {
            assert(digits.take(n)[i] == digits[i]);
        } else {
            lemma_decimal_value_grows(digits.take(i), n);
            assert(digits.take(i).take(n) =~= digits.take(n));
        }
    }
}

/// The byte that `text` stands for in base ten, with or without a plus sign.
pub fn parse_byte(text: &str) -> (r: Result<u8, NumberError>)
    ensures
        r == byte_value(text@),
{
    let len = text.unicode_len();
    if len == 0 {
        return Err(NumberError::Empty);
    }
    let start: usize = if text.get_char(0) as u32 == 43 {
        1
    } else {
        0
    };
    let ghost digits = without_plus(text@);
    if start == len {
        return Err(NumberError::InvalidDigit);
    }
    let mut value: u32 = 0;
    let mut i: usize = start;
    while i < len
        invariant
            len == text@.len(),
            start < len,
            start <= i <= len,
            start <= 1,
            digits == text@.skip(start as int),
            digits == without_plus(text@),
            all_digits(digits.take(i - start)),
            value == decimal_value(digits.take(i - start)),
            value <= 255,
        decreases len - i,
    {
        let code = text.get_char(i) as u32;
        assert(digits[i - start] as u32 == code);
        if code < 48 || code > 57 {
            assert(stops_at_non_digit(digits));
            return Err(NumberError::InvalidDigit);
        }
        let ghost longer = digits.take(i + 1 - start);
        assert(longer.drop_last() =~= digits.take(i - start));
        assert forall|j: int| 0 <= j < longer.len() implies '0' <= #[trigger] longer[j] && longer[j]
            <= '9' by {
            if j < i - start {
                assert(longer[j] == digits.take(i - start)[j]);
            }
        }
        value = value * 10 + (code - 48);
        if value > 255 {
            proof {
                lemma_too_large(digits, i + 1 - start);
            }
            return Err(NumberError::TooLarge);
        }
        i = i + 1;
    }
    assert(digits.take(len - start) =~= digits);
    Ok(value as u8)
}

/// A byte written in base ten is read back.
pub proof fn law_byte_text_round_trip(n: u8)
    ensures
        byte_value(decimal(n as nat)) == Ok::<u8, NumberError>(n),
{
    reveal_with_fuel(decimal, 3);
    reveal_with_fuel(decimal_value, 4);
    let text = decimal(n as nat);
    assert(without_plus(text) == text);
    if n >= 100 {
        assert(text.drop_last() =~= decimal(n as nat / 10));
        assert(text.drop_last().drop_last() =~= decimal(n as nat / 100));
    } else if n >= 10 {
        assert(text.drop_last() =~= decimal(n as nat / 10));
    }
}

/// A capital ASCII letter stands 32 places before the small one; every other
/// character is its own small form.
pub proof fn law_small_letters(c: char)
    ensures
        'A' <= c <= 'Z' ==> ascii_lower(c) as int == c as int + 32,
        !('A' <= c <= 'Z') ==> ascii_lower(c) == c,
{
}

/// Texts are the same but for case exactly if they are as long as each other and
/// differ only where one has a capital ASCII letter and the other the small one.
pub proof fn law_same_but_case(a: Seq<char>, b: Seq<char>)
    ensures
        same_but_case(a, b) <==> a.len() == b.len() && forall|i: int|
            0 <= i < a.len() ==> {
                ||| #[trigger] a[i] == b[i]
                ||| 'A' <= a[i] <= 'Z' && b[i] as int == a[i] as int + 32
                ||| 'A' <= b[i] <= 'Z' && a[i] as int == b[i] as int + 32
            },
        same_but_case(a, a),
        same_but_case(a, b) ==> same_but_case(b, a),
{
    if same_but_case(a, b) {
        assert forall|i: int| 0 <= i < a.len() implies {
            ||| #[trigger] a[i] == b[i]
            ||| 'A' <= a[i] <= 'Z' && b[i] as int == a[i] as int + 32
            ||| 'A' <= b[i] <= 'Z' && a[i] as int == b[i] as int + 32
        } by {
            assert(ascii_lower(a[i]) == ascii_lower(b[i]));
        }
        assert forall|i: int| 0 <= i < b.len() implies ascii_lower(#[trigger] b[i]) == ascii_lower(
            a[i],
        ) by {
            assert(ascii_lower(a[i]) == ascii_lower(b[i]));
        }
    }
}

/// Digits are the ten figures and, above nine, the capital letters from A on.
pub proof fn law_digits(d: int)
    ensures
        0 <= d < 10 ==> digit(d) as int == '0' as int + d,
        10 <= d < 16 ==> digit(d) as int == 'A' as int + (d - 10),
{
}

/// One more figure makes a number ten times as large and adds the figure.
pub proof fn law_number_grows_by_figures(text: Seq<char>, figure: char)
    requires
        '0' <= figure <= '9',
    ensures
        decimal_value(Seq::<char>::empty()) == 0,
        decimal_value(text.push(figure)) == 10 * decimal_value(text) + (figure as int - '0' as int),
{
    assert(text.push(figure).drop_last() =~= text);
}

/// A number in base ten consists of figures, stands for the number, and has no
/// leading zero unless it is zero.
pub proof fn law_decimal_stands_for_number(n: nat)
    ensures
        decimal_value(decimal(n)) == n,
        decimal(n).len() > 0,
        forall|i: int| 0 <= i < decimal(n).len() ==> '0' <= #[trigger] decimal(n)[i] <= '9',
        n > 0 ==> decimal(n)[0] != '0',
        n == 0 ==> decimal(n).len() == 1,
    decreases n,
{
    if n < 10 {
        reveal_with_fuel(decimal_value, 2);
        assert(decimal(n).drop_last() =~= Seq::<char>::empty());
    } else {
        law_decimal_stands_for_number(n / 10);
        law_number_grows_by_figures(decimal(n / 10), digit((n % 10) as int));
    }
}

/// A text of figures is the byte that it stands for, unless that is too large. A
/// plus sign in front makes no difference.
pub proof fn law_figures_are_read(text: Seq<char>)
    requires
        text.len() > 0,
        forall|i: int| 0 <= i < text.len() ==> '0' <= #[trigger] text[i] <= '9',
    ensures
        decimal_value(text) <= 255 ==> byte_value(text) is Ok && byte_value(text)->Ok_0
            == decimal_value(text),
        decimal_value(text) > 255 ==> byte_value(text) == Err::<u8, NumberError>(
            NumberError::TooLarge,
        ),
        byte_value(seq!['+'] + text) == byte_value(text),
{
    assert('0' <= text[0]);
    assert(without_plus(text) == text);
    assert((seq!['+'] + text).skip(1) =~= text);
    assert(all_digits(text));
}

/// A text is empty, or a character that is no figure is met before the figures
/// in front of it have become too large, or they have become too large before.
/// A sign without figures, and a second sign, are such characters.
pub proof fn law_faulty_numbers(text: Seq<char>, i: int)
    ensures
        text.len() == 0 <==> byte_value(text) == Err::<u8, NumberError>(NumberError::Empty),
        text.len() == 0 || text[0] == '+' ==> byte_value(seq!['+'] + text) == Err::<
            u8,
            NumberError,
        >(NumberError::InvalidDigit),
        0 <= i < text.len() && text[0] != '+' && !('0' <= text[i] <= '9') && all_digits(
            text.take(i),
        ) && decimal_value(text.take(i)) <= 255 ==> byte_value(text) == Err::<u8, NumberError>(
            NumberError::InvalidDigit,
        ) && byte_value(seq!['+'] + text) == Err::<u8, NumberError>(NumberError::InvalidDigit),
        0 < i <= text.len() && all_digits(text.take(i)) && decimal_value(text.take(i)) > 255
            ==> byte_value(text) == Err::<u8, NumberError>(NumberError::TooLarge) && byte_value(
            seq!['+'] + text,
        ) == Err::<u8, NumberError>(NumberError::TooLarge),
{
    assert((seq!['+'] + text).skip(1) =~= text);
    if text.len() > 0 && text[0] == '+' {
        assert(text.take(0) =~= Seq::<char>::empty());
        assert(all_digits(text.take(0)));
        assert(stops_at_non_digit(text));
    }
    if 0 <= i < text.len() && text[0] != '+' && !('0' <= text[i] <= '9') && all_digits(text.take(i))
        && decimal_value(text.take(i)) <= 255 {
        assert(stops_at_non_digit(text));
    }
    if 0 < i <= text.len() && all_digits(text.take(i)) && decimal_value(text.take(i)) > 255 {
        assert('0' <= text.take(i)[0]);
        assert(text.take(i)[0] == text[0]);
        lemma_too_large(text, i);
    }
}

/// Only figures are figures.
pub proof fn law_all_figures(text: Seq<char>)
    ensures
        all_digits(text) <==> forall|i: int|
            0 <= i < text.len() ==> '0' <= #[trigger] text[i] <= '9',
{
}

} // verus!
