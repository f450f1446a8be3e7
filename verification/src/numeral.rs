//! Decimal numerals of 64-bit unsigned numbers: writing them and reading them.

use vstd::prelude::*;
use vstd::string::StringExecFns;

verus! {

/// The character of a decimal digit.
pub open spec fn digit_char(d: nat) -> char
    recommends
        d < 10,
{
    (48 + d) as char
}

/// True for the characters `0` to `9`.
pub open spec fn is_digit(c: char) -> bool {
    48 <= c as int <= 57
}

/// The number that a digit character stands for.
pub open spec fn digit_value(c: char) -> nat
    recommends
        is_digit(c),
{
    (c as int - 48) as nat
}

/// The decimal numeral of `n`, without sign and without leading zeros.
pub open spec fn decimal(n: nat) -> Seq<char>
    decreases n,
{
    if n < 10 {
        seq![digit_char(n)]
    } else {
        decimal(n / 10).push(digit_char(n % 10))
    }
}

/// True when every character of `s` is a decimal digit.
pub open spec fn all_digits(s: Seq<char>) -> bool {
    forall|i: int| 0 <= i < s.len() ==> is_digit(#[trigger] s[i])
}

/// The number that a sequence of digits denotes; the empty sequence denotes zero.
pub open spec fn digits_value(s: Seq<char>) -> nat
    decreases s.len(),
{
    if s.len() == 0 {
        0
    } else {
        digits_value(s.drop_last()) * 10 + digit_value(s.last())
    }
}

/// The one-character text of a digit.
fn digit_text(d: u64) -> (text: &'static str)
    requires
        d < 10,
    ensures
        text@ == seq![digit_char(d as nat)],
{
    proof {
        reveal_strlit("0");
        reveal_strlit("1");
        reveal_strlit("2");
        reveal_strlit("3");
        reveal_strlit("4");
        reveal_strlit("5");
        reveal_strlit("6");
        reveal_strlit("7");
        reveal_strlit("8");
        reveal_strlit("9");
    }
    let text = if d == 0 {
        "0"
    } else if d == 1 {
        "1"
    } else if d == 2 {
        "2"
    } else if d == 3 {
        "3"
    } else if d == 4 {
        "4"
    } else if d == 5 {
        "5"
    } else if d == 6 {
        "6"
    } else if d == 7 {
        "7"
    } else if d == 8 {
        "8"
    } else {
        "9"
    };
    assert(text@ =~= seq![digit_char(d as nat)]);
    text
}

/// The digits of `low`, last element first.
pub open spec fn reversed_digits(low: Seq<u64>) -> Seq<char> {
    Seq::new(low.len(), |i: int| digit_char(low[low.len() - 1 - i] as nat))
}

/// Writes `n` as a decimal numeral.
pub fn to_decimal(n: u64) -> (text: String)
    ensures
        text@ == decimal(n as nat),
{
    let mut low: Vec<u64> = Vec::new();
    let mut rest: u64 = n;
    while rest >= 10
        invariant
            decimal(n as nat) == decimal(rest as nat) + reversed_digits(low@),
            forall|j: int| 0 <= j < low.len() ==> low@[j] < 10,
        decreases rest,
    {
        let ghost before = low@;
        low.push(rest % 10);
        proof {
            let tail = reversed_digits(low@);
            assert(tail =~= seq![digit_char((rest % 10) as nat)] + reversed_digits(before));
            assert(decimal(rest as nat) == decimal((rest / 10) as nat).push(
                digit_char((rest % 10) as nat),
            ));
            assert(decimal((rest / 10) as nat) + tail =~= decimal(rest as nat) + reversed_digits(
                before,
            ));
        }
        rest = rest / 10;
    }
    let mut text = String::from_str(digit_text(rest));
    let mut i: usize = low.len();
    while i > 0
        invariant
            i <= low.len(),
            rest < 10,
            forall|j: int| 0 <= j < low.len() ==> low@[j] < 10,
            text@ == decimal(rest as nat) + reversed_digits(low@).subrange(0, low.len() - i),
        decreases i,
    {
        i -= 1;
        let piece = digit_text(low[i]);
        let ghost before = text@;
        text.append(piece);
        proof {
            let all = reversed_digits(low@);
            assert(all.subrange(0, low.len() - i) =~= all.subrange(0, low.len() - i - 1).push(
                all[low.len() - i - 1],
            ));
            assert(text@ =~= decimal(rest as nat) + all.subrange(0, low.len() - i));
        }
    }
    assert(reversed_digits(low@).subrange(0, low.len() as int) =~= reversed_digits(low@));
    text
}

/// Why a text is not the numeral of a 64-bit unsigned number.
#[derive(Clone, Copy, Debug, PartialEq, Eq, Structural)]
pub enum NumeralError {
    /// The text is empty.
    Empty,
    /// A character is not a decimal digit, or a sign stands alone.
    InvalidDigit,
    /// The number does not fit in 64 bits.
    PosOverflow,
}

/// Reads digits from left to right; the first fault decides the error. At each
/// character a character that is no digit is found before an overflow.
pub open spec fn scanned(digits: Seq<char>) -> Result<nat, NumeralError>
    decreases digits.len(),
{
    if digits.len() == 0 {
        Ok(0)
    } else {
        match scanned(digits.drop_last()) {
            Err(e) => Err(e),
            Ok(v) => if !is_digit(digits.last()) {
                Err(NumeralError::InvalidDigit)
            } else if v * 10 + digit_value(digits.last()) > u64::MAX {
                Err(NumeralError::PosOverflow)
            } else {
                Ok(v * 10 + digit_value(digits.last()))
            },
        }
    }
}

/// What a text denotes as a 64-bit unsigned number: digits, after an optional
/// plus sign. Nothing else is accepted: no minus sign, no blanks, no underscores.
pub open spec fn numeral_value(s: Seq<char>) -> Result<nat, NumeralError> {
    if s.len() == 0 {
        Err(NumeralError::Empty)
    } else if s.len() == 1 && (s[0] == '+' || s[0] == '-') {
        Err(NumeralError::InvalidDigit)
    } else if s[0] == '+' {
        scanned(s.drop_first())
    } else {
        scanned(s)
    }
}

/// The value of a digit character, and nothing for any other character.
pub fn digit_of(c: char) -> (found: Option<u64>)
    ensures
        found is Some <==> is_digit(c),
        found matches Some(d) ==> d == digit_value(c),
{
    if c == '0' {
        Some(0)
    } else if c == '1' {
        Some(1)
    } else if c == '2' {
        Some(2)
    } else if c == '3' {
        Some(3)
    } else if c == '4' {
        Some(4)
    } else if c == '5' {
        Some(5)
    } else if c == '6' {
        Some(6)
    } else if c == '7' {
        Some(7)
    } else if c == '8' {
        Some(8)
    } else if c == '9' {
        Some(9)
    } else {
        None
    }
}

/// Reads the numeral that `chars` holds from position `from` to its end.
pub fn parse_decimal(chars: &Vec<char>, from: usize) -> (r: Result<u64, NumeralError>)
    requires
        from <= chars.len(),
    ensures
        match numeral_value(chars@.subrange(from as int, chars.len() as int)) {
            Ok(v) => v <= u64::MAX && r == Ok::<u64, NumeralError>(v as u64),
            Err(e) => r == Err::<u64, NumeralError>(e),
        },
{
    let ghost text = chars@.subrange(from as int, chars.len() as int);
    if from == chars.len() {
        return Err(NumeralError::Empty);
    }
    let first = chars[from];
    assert(first == text[0]);
    if chars.len() - from == 1 && (first == '+' || first == '-') {
        return Err(NumeralError::InvalidDigit);
    }
    let start: usize = if first == '+' {
        from + 1
    } else {
        from
    };
    let ghost digits = chars@.subrange(start as int, chars.len() as int);
    assert(digits =~= if text[0] == '+' {
        text.drop_first()
    } else {
        text
    });
    assert(numeral_value(text) == scanned(digits));
    let mut value: u64 = 0;
    let mut i: usize = start;
    while i < chars.len()
        invariant
            from <= start <= i <= chars.len(),
            text == chars@.subrange(from as int, chars.len() as int),
            numeral_value(text) == scanned(digits),
            digits == chars@.subrange(start as int, chars.len() as int),
            scanned(digits.subrange(0, i - start)) == Ok::<nat, NumeralError>(value as nat),
        decreases chars.len() - i,
    {
        let found = digit_of(chars[i]);
        let ghost shorter = digits.subrange(0, i - start);
        let ghost longer = digits.subrange(0, i - start + 1);
        proof {
            assert(longer.drop_last() =~= shorter);
            assert(longer.last() == chars@[i as int]);
            fault_stays(digits, i - start + 1);
        }
        let digit: u64 = match found {
            Some(digit) => digit,
            None => {
                return Err(NumeralError::InvalidDigit);
            },
        };
        let scaled = match value.checked_mul(10) {
            Some(scaled) => scaled,
            None => {
                return Err(NumeralError::PosOverflow);
            },
        };
        value = match scaled.checked_add(digit) {
            Some(sum) => sum,
            None => {
                return Err(NumeralError::PosOverflow);
            },
        };
        i += 1;
    }
    assert(digits.subrange(0, i - start) =~= digits);
    Ok(value)
}

/// Once a prefix of the digits has a fault, the whole has the same fault.
proof fn fault_stays(digits: Seq<char>, k: int)
    requires
        0 <= k <= digits.len(),
    ensures
        scanned(digits.subrange(0, k)) matches Err(e) ==> scanned(digits) == Err::<
            nat,
            NumeralError,
        >(e),
    decreases digits.len() - k,
{
    if k < digits.len() {
        assert(digits.subrange(0, k + 1).drop_last() =~= digits.subrange(0, k));
        fault_stays(digits, k + 1);
    } else {
        assert(digits.subrange(0, k) =~= digits);
    }
}

/// Digits are read without fault exactly when all of them are digits and their
/// value fits in 64 bits; what is read is then that value.
pub proof fn scanned_is_value(digits: Seq<char>)
    ensures
        scanned(digits) is Ok <==> all_digits(digits) && digits_value(digits) <= u64::MAX,
        scanned(digits) matches Ok(v) ==> v == digits_value(digits),
    decreases digits.len(),
{
    if digits.len() > 0 {
        let front = digits.drop_last();
        scanned_is_value(front);
        if all_digits(digits) {
            assert forall|i: int| 0 <= i < front.len() implies is_digit(#[trigger] front[i]) by {
                assert(front[i] == digits[i]);
            }
        }
        if all_digits(front) && is_digit(digits.last()) {
            assert forall|i: int| 0 <= i < digits.len() implies is_digit(#[trigger] digits[i]) by {
                if i < front.len() {
                    assert(front[i] == digits[i]);
                }
            }
        }
        if !is_digit(digits.last()) {
            assert(!is_digit(digits[digits.len() - 1]));
        }
    }
}

/// The numeral of a number is made of digits, is not empty, and denotes the number.
pub proof fn decimal_denotes(n: nat)
    ensures
        decimal(n).len() >= 1,
        all_digits(decimal(n)),
        digits_value(decimal(n)) == n,
    decreases n,
{
    if n < 10 {
        assert(decimal(n).drop_last() =~= Seq::<char>::empty());
        assert(digits_value(decimal(n).drop_last()) == 0);
    } else {
        decimal_denotes(n / 10);
        assert(decimal(n).drop_last() =~= decimal(n / 10));
        assert(decimal(n).last() == digit_char(n % 10));
    }
}

/// Reading the numeral of a 64-bit number gives the number back.
pub proof fn decimal_reads_back(n: nat)
    requires
        n <= u64::MAX,
    ensures
        numeral_value(decimal(n)) == Ok::<nat, NumeralError>(n),
{
    decimal_denotes(n);
    scanned_is_value(decimal(n));
    assert(is_digit(decimal(n)[0]));
}

} // verus!
