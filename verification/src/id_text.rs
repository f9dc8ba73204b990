//! Item identifiers as the user types them: decimal text to number and back.

use vstd::prelude::*;
use crate::text::join3;

verus! {

/// Why a text is not an item identifier.
#[derive(Debug, Clone, Copy, PartialEq, Eq)]
pub enum InvalidId {
    /// A character that is not a decimal digit stands where a digit is
    /// needed, or there is no digit at all.
    InvalidDigit,
    /// The digits read so far already exceed the largest identifier.
    TooLarge,
}

/// What a text in the identifier field stands for.
#[derive(Debug, Clone, Copy, PartialEq, Eq)]
pub enum IdText {
    /// Nothing was entered: a new item is wanted.
    Empty,
    /// The text is the decimal numeral of this identifier.
    Valid(u64),
    /// The text is neither empty nor an identifier.
    Invalid(InvalidId),
}

/// Whether a character is one of the ten decimal digits.
pub open spec fn is_digit(c: char) -> bool {
    c == '0' || c == '1' || c == '2' || c == '3' || c == '4' || c == '5' || c == '6' || c == '7'
        || c == '8' || c == '9'
}

/// The value of a decimal digit; 0 for any other character.
pub open spec fn digit_value(c: char) -> nat {
    if c == '1' {
        1
    } else if c == '2' {
        2
    } else if c == '3' {
        3
    } else if c == '4' {
        4
    } else if c == '5' {
        5
    } else if c == '6' {
        6
    } else if c == '7' {
        7
    } else if c == '8' {
        8
    } else if c == '9' {
        9
    } else {
        0
    }
}

/// The digit that stands for a value below ten.
pub open spec fn digit_char(d: nat) -> char {
    if d == 0 {
        '0'
    } else if d == 1 {
        '1'
    } else if d == 2 {
        '2'
    } else if d == 3 {
        '3'
    } else if d == 4 {
        '4'
    } else if d == 5 {
        '5'
    } else if d == 6 {
        '6'
    } else if d == 7 {
        '7'
    } else if d == 8 {
        '8'
    } else {
        '9'
    }
}

/// The number that a sequence of digits denotes in base ten.
pub open spec fn decimal_value(digits: Seq<char>) -> nat
    decreases digits.len(),
{
    if digits.len() == 0 {
        0
    } else {
        decimal_value(digits.drop_last()) * 10 + digit_value(digits.last())
    }
}

/// The first `k` characters of `digits` exist and are all decimal digits.
pub open spec fn digits_before(digits: Seq<char>, k: int) -> bool {
    0 <= k <= digits.len() && forall|i: int| 0 <= i < k ==> is_digit(#[trigger] digits[i])
}

/// Some run of leading digits already denotes more than the largest
/// identifier.
pub open spec fn overflows(digits: Seq<char>) -> bool {
    exists|k: int| #[trigger]
        digits_before(digits, k) && decimal_value(digits.subrange(0, k)) > u64::MAX
}

/// The text without one leading plus sign.
pub open spec fn unsigned_part(text: Seq<char>) -> Seq<char> {
    if text.len() > 0 && text[0] == '+' {
        text.subrange(1, text.len() as int)
    } else {
        text
    }
}

/// What a text stands for. An identifier is written as decimal digits, with
/// one plus sign allowed in front, and must fit in 64 bits. A text is read
/// from the left: it is too large if its leading digits alone exceed the
/// limit, whatever follows them.
pub open spec fn spec_classify(text: Seq<char>) -> IdText {
    let digits = unsigned_part(text);
    if text.len() == 0 {
        IdText::Empty
    } else if overflows(digits) {
        IdText::Invalid(InvalidId::TooLarge)
    } else if digits.len() == 0 || !digits_before(digits, digits.len() as int) {
        IdText::Invalid(InvalidId::InvalidDigit)
    } else {
        IdText::Valid(decimal_value(digits) as u64)
    }
}

/// The decimal numeral of a number, without sign or leading zeros.
pub open spec fn decimal_text(n: nat) -> Seq<char>
    decreases n,
{
    if n < 10 {
        seq![digit_char(n)]
    } else {
        decimal_text(n / 10).push(digit_char(n % 10))
    }
}

/// Among runs of digits, a longer run never denotes less than a shorter one.
proof fn lemma_prefix_value_monotonic(digits: Seq<char>, j: int, k: int)
    requires
        0 <= j <= k <= digits.len(),
    ensures
        decimal_value(digits.subrange(0, j)) <= decimal_value(digits.subrange(0, k)),
    decreases k - j,
{
    if j < k {
        lemma_prefix_value_monotonic(digits, j, k - 1);
        let longer = digits.subrange(0, k);
        assert(longer.drop_last() == digits.subrange(0, k - 1));
        assert(decimal_value(longer) == decimal_value(longer.drop_last()) * 10 + digit_value(
            longer.last(),
        ));
    }
}

/// If all of `digits` denotes at most the limit, no leading run overflows.
proof fn lemma_no_overflow_below(digits: Seq<char>, whole: int)
    requires
        0 <= whole <= digits.len(),
        decimal_value(digits.subrange(0, whole)) <= u64::MAX,
        whole < digits.len() ==> !is_digit(digits[whole]),
    ensures
        !overflows(digits),
{
    assert forall|k: int| #[trigger]
        digits_before(digits, k) implies decimal_value(digits.subrange(0, k)) <= u64::MAX by {
        if k > whole {
            assert(is_digit(digits[whole]));
        }
        lemma_prefix_value_monotonic(digits, k, whole);
    }
}

/// The value of a digit character, if it is one.
fn digit_of(c: char) -> (d: Option<u64>)
    ensures
        d is Some <==> is_digit(c),
        d matches Some(v) ==> v == digit_value(c) && v < 10,
{
    match c {
        '0' => Some(0),
        '1' => Some(1),
        '2' => Some(2),
        '3' => Some(3),
        '4' => Some(4),
        '5' => Some(5),
        '6' => Some(6),
        '7' => Some(7),
        '8' => Some(8),
        '9' => Some(9),
        _ => None,
    }
}

/// Reads the identifier field.
pub fn classify_id_text(text: &str) -> (kind: IdText)
    ensures
        kind == spec_classify(text@),
{
    let len = text.unicode_len();
    if len == 0 {
        return IdText::Empty;
    }
    let start: usize = if text.get_char(0) == '+' {
        1
    } else {
        0
    };
    let ghost digits = unsigned_part(text@);
    assert(digits == text@.subrange(start as int, len as int));
    let mut value: u64 = 0;
    let mut i: usize = start;
    while i < len
        invariant
            start <= i <= len,
            len == text@.len(),
            len > 0,
            digits == unsigned_part(text@),
            digits == text@.subrange(start as int, len as int),
            digits_before(digits, i - start),
            value == decimal_value(digits.subrange(0, i - start)),
        decreases len - i,
    {
        let c = text.get_char(i);
        let ghost k = i - start;
        assert(digits[k] == c);
        proof {
            let longer = digits.subrange(0, k + 1);
            assert(longer.drop_last() == digits.subrange(0, k));
            assert(longer.last() == c);
            assert(decimal_value(longer) == decimal_value(longer.drop_last()) * 10 + digit_value(
                longer.last(),
            ));
        }
        match digit_of(c) {
            None => {
                proof {
                    lemma_no_overflow_below(digits, k);
                    assert(!digits_before(digits, digits.len() as int));
                }
                return IdText::Invalid(InvalidId::InvalidDigit);
            },
            Some(d) => {
                assert(digits_before(digits, k + 1));
                let grown = match value.checked_mul(10) {
                    None => None,
                    Some(tens) => tens.checked_add(d),
                };
                match grown {
                    None => {
                        assert(decimal_value(digits.subrange(0, k + 1)) > u64::MAX);
                        return IdText::Invalid(InvalidId::TooLarge);
                    },
                    Some(v) => {
                        value = v;
                    },
                }
            },
        }
        i = i + 1;
    }
    proof {
        assert(digits.subrange(0, digits.len() as int) == digits);
        lemma_no_overflow_below(digits, digits.len() as int);
    }
    if i == start {
        IdText::Invalid(InvalidId::InvalidDigit)
    } else {
        IdText::Valid(value)
    }
}

/// The text of one decimal digit.
fn digit_text(d: u64) -> (text: &'static str)
    requires
        d < 10,
    ensures
        text@ == seq![digit_char(d as nat)],
{
    proof {
        reveal_strlit("0");
        reveal_strlit("1");
        reveal_strlit("2");
        reveal_strlit("3");
        reveal_strlit("4");
        reveal_strlit("5");
        reveal_strlit("6");
        reveal_strlit("7");
        reveal_strlit("8");
        reveal_strlit("9");
    }
    let text = if d == 0 {
        "0"
    } else if d == 1 {
        "1"
    } else if d == 2 {
        "2"
    } else if d == 3 {
        "3"
    } else if d == 4 {
        "4"
    } else if d == 5 {
        "5"
    } else if d == 6 {
        "6"
    } else if d == 7 {
        "7"
    } else if d == 8 {
        "8"
    } else {
        "9"
    };
    assert(text@ =~= seq![digit_char(d as nat)]);
    text
}

/// Writes an identifier as the user would type it.
pub fn item_id_text(id: u64) -> (text: String)
    ensures
        text@ == decimal_text(id as nat),
    decreases id,
{
    if id < 10 {
        String::from_str(digit_text(id))
    } else {
        let mut text = item_id_text(id / 10);
        text.append(digit_text(id % 10));
        assert(text@ =~= decimal_text(id as nat));
        text
    }
}

/// What is wrong with a text that is not an identifier, in words.
pub open spec fn invalid_id_reason(why: InvalidId) -> Seq<char> {
    match why {
        InvalidId::InvalidDigit => "invalid digit found in string"@,
        InvalidId::TooLarge => "number too large to fit in target type"@,
    }
}

/// The line shown under the identifier field for a text that is not an
/// identifier.
pub open spec fn spec_invalid_id_message(why: InvalidId) -> Seq<char> {
    "Invalid item ID: "@ + invalid_id_reason(why) + "."@
}

/// Composes the line shown under the identifier field.
pub fn invalid_id_message(why: InvalidId) -> (message: String)
    ensures
        message@ == spec_invalid_id_message(why),
{
    match why {
        InvalidId::InvalidDigit => join3("Invalid item ID: ", "invalid digit found in string", "."),
        InvalidId::TooLarge => join3(
            "Invalid item ID: ",
            "number too large to fit in target type",
            ".",
        ),
    }
}

/// A numeral is made of digits only, and denotes the number it was written
/// for.
pub proof fn lemma_decimal_text_denotes(n: nat)
    ensures
        decimal_text(n).len() > 0,
        digits_before(decimal_text(n), decimal_text(n).len() as int),
        decimal_value(decimal_text(n)) == n,
    decreases n,
{
    if n < 10 {
        let t = decimal_text(n);
        assert(t.drop_last().len() == 0);
        assert(decimal_value(t) == decimal_value(t.drop_last()) * 10 + digit_value(t.last()));
    } else {
        lemma_decimal_text_denotes(n / 10);
        let t = decimal_text(n);
        assert(t.drop_last() == decimal_text(n / 10));
        assert(t.last() == digit_char(n % 10));
        assert(decimal_value(t) == decimal_value(t.drop_last()) * 10 + digit_value(t.last()));
    }
}

/// Writing an identifier and reading the text again gives the identifier
/// back.
pub proof fn id_text_round_trip(id: u64)
    ensures
        spec_classify(decimal_text(id as nat)) == IdText::Valid(id),
{
    let text = decimal_text(id as nat);
    lemma_decimal_text_denotes(id as nat);
    assert(is_digit(text[0]));
    assert(unsigned_part(text) == text);
    assert(text.subrange(0, text.len() as int) == text);
    lemma_no_overflow_below(text, text.len() as int);
}

} // verus!
