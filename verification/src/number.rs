//! Decimal numbers as text: writing them and reading them back.

use crate::text::chars_of;
use vstd::prelude::*;

verus! {

/// The decimal digit with the value `d`.
pub open spec fn digit(d: nat) -> char
    recommends
        d < 10,
{
    ('0' as u32 + d) as char
}

/// `n` in decimal notation, without leading zeros.
pub open spec fn decimal(n: nat) -> Seq<char>
    decreases n,
{
    if n < 10 {
        seq![digit(n)]
    } else {
        decimal(n / 10).push(digit(n % 10))
    }
}

/// `c` is a decimal digit.
pub open spec fn is_digit(c: char) -> bool {
    '0' <= c <= '9'
}

/// Every character of `s` is a decimal digit.
pub open spec fn all_digits(s: Seq<char>) -> bool {
    forall|i: int| 0 <= i < s.len() ==> is_digit(#[trigger] s[i])
}

/// The value of a run of digits.
pub open spec fn digits_value(s: Seq<char>) -> nat
    decreases s.len(),
{
    if s.len() == 0 {
        0
    } else {
        10 * digits_value(s.drop_last()) + (s.last() as u32 - '0' as u32) as nat
    }
}

/// Why a text is no number.
#[derive(Debug, Clone, Copy, PartialEq, Eq, Structural)]
pub enum IntError {
    /// There is nothing to read.
    Empty,
    /// A character is no digit, or a sign stands alone.
    InvalidDigit,
    /// The number is above the largest one that fits.
    PosOverflow,
    /// The number is below the smallest one that fits.
    NegOverflow,
}

impl IntError {
    /// What the error says.
    pub open spec fn text(self) -> Seq<char> {
        match self {
            IntError::Empty => "cannot parse integer from empty string"@,
            IntError::InvalidDigit => "invalid digit found in string"@,
            IntError::PosOverflow => "number too large to fit in target type"@,
            IntError::NegOverflow => "number too small to fit in target type"@,
        }
    }

    /// What the error says.
    pub fn message(self) -> (message: String)
        ensures
            message@ == self.text(),
    {
        match self {
            IntError::Empty => "cannot parse integer from empty string".to_owned(),
            IntError::InvalidDigit => "invalid digit found in string".to_owned(),
            IntError::PosOverflow => "number too large to fit in target type".to_owned(),
            IntError::NegOverflow => "number too small to fit in target type".to_owned(),
        }
    }
}

/// What the digits `s` mean when they are read from the left and no value may pass `max`:
/// the first character that is no digit, or the first digit that passes `max`, decides.
pub open spec fn read_digits(s: Seq<char>, max: nat) -> Result<nat, IntError>
    decreases s.len(),
{
    if s.len() == 0 {
        Ok(0)
    } else {
        match read_digits(s.drop_last(), max) {
            Err(error) => Err(error),
            Ok(_) => if !is_digit(s.last()) {
                Err(IntError::InvalidDigit)
            } else if digits_value(s) > max {
                Err(IntError::PosOverflow)
            } else {
                Ok(digits_value(s))
            },
        }
    }
}

/// What the text `s` means as a number from 0 to `max`: digits, with a plus sign
/// before them or not.
pub open spec fn read_unsigned(s: Seq<char>, max: nat) -> Result<nat, IntError> {
    if s.len() == 0 {
        Err(IntError::Empty)
    } else if s.first() == '+' {
        if s.len() == 1 {
            Err(IntError::InvalidDigit)
        } else {
            read_digits(s.drop_first(), max)
        }
    } else {
        read_digits(s, max)
    }
}

/// What the text `s` means as a number from `-max - 1` to `max`: digits, with a plus or
/// minus sign before them or not.
pub open spec fn read_signed(s: Seq<char>, max: nat) -> Result<int, IntError> {
    if s.len() == 0 {
        Err(IntError::Empty)
    } else if s.first() == '-' {
        if s.len() == 1 {
            Err(IntError::InvalidDigit)
        } else {
            match read_digits(s.drop_first(), max + 1) {
                Ok(n) => Ok(-n),
                Err(IntError::PosOverflow) => Err(IntError::NegOverflow),
                Err(error) => Err(error),
            }
        }
    } else {
        match read_unsigned(s, max) {
            Ok(n) => Ok(n as int),
            Err(error) => Err(error),
        }
    }
}

/// A run of digits whose value is in range reads as that value.
pub proof fn lemma_read_digits_value(s: Seq<char>, max: nat)
    requires
        all_digits(s),
        digits_value(s) <= max,
    ensures
        read_digits(s, max) == Ok::<nat, IntError>(digits_value(s)),
    decreases s.len(),
{
    if s.len() > 0 {
        lemma_read_digits_value(s.drop_last(), max);
    }
}

/// The decimal notation of a number is made of digits, and reads back as the number.
pub proof fn lemma_decimal(n: nat)
    ensures
        decimal(n).len() > 0,
        all_digits(decimal(n)),
        digits_value(decimal(n)) == n,
    decreases n,
{
    if n >= 10 {
        lemma_decimal(n / 10);
        let s = decimal(n);
        assert(s.drop_last() == decimal(n / 10));
        assert(s.last() == digit(n % 10));
    } else {
        let s = decimal(n);
        assert(s.drop_last() == Seq::<char>::empty());
        assert(digits_value(s.drop_last()) == 0);
    }
}

/// Writing a number and reading the text gives the number back.
pub proof fn decimal_reads_back(n: nat, max: nat)
    requires
        n <= max,
    ensures
        read_unsigned(decimal(n), max) == Ok::<nat, IntError>(n),
{
    lemma_decimal(n);
    lemma_read_digits_value(decimal(n), max);
    assert(is_digit(decimal(n)[0]));
}

/// `n` in decimal notation.
pub fn show(n: u64) -> (text: String)
    ensures
        text@ == decimal(n as nat),
    decreases n,
{
    if n < 10 {
        let mut text = String::new();
        let c = (48u8 + n as u8) as char;
        text.push(c);
        proof {
            assert(text@ == seq![c]);
        }
        text
    } else {
        let mut text = show(n / 10);
        text.push((48u8 + (n % 10) as u8) as char);
        text
    }
}

/// The digits of `chars` from `from` on, read as a number up to `max`.
fn parse_digits(chars: &Vec<char>, from: usize, max: u64) -> (number: Result<u64, IntError>)
    requires
        from <= chars@.len(),
    ensures
        match number {
            Ok(n) => read_digits(chars@.skip(from as int), max as nat) == Ok::<nat, IntError>(
                n as nat,
            ),
            Err(e) => read_digits(chars@.skip(from as int), max as nat) == Err::<nat, IntError>(e),
        },
{
    let mut value: u64 = 0;
    let mut i: usize = from;
    let ghost all = chars@.skip(from as int);
    proof {
        assert(all.take(0) == Seq::<char>::empty());
    }
    while i < chars.len()
        invariant
            from <= i <= chars@.len(),
            all == chars@.skip(from as int),
            value <= max,
            value == digits_value(all.take(i - from)),
            read_digits(all.take(i - from), max as nat) == Ok::<nat, IntError>(value as nat),
        decreases chars@.len() - i,
    {
        let c = chars[i];
        let ghost next = all.take(i + 1 - from);
        proof {
            assert(next.drop_last() == all.take(i - from));
            assert(next.last() == c);
        }
        if !('0' <= c && c <= '9') {
            proof {
                assert(read_digits(next, max as nat) == Err::<nat, IntError>(IntError::InvalidDigit));
                lemma_read_digits_prefix(all, i + 1 - from, max as nat);
            }
            return Err(IntError::InvalidDigit);
        }
        let d: u64 = (c as u32 - '0' as u32) as u64;
        if value > max / 10 || d > max - 10 * value {
            proof {
                assert(read_digits(next, max as nat) == Err::<nat, IntError>(IntError::PosOverflow));
                lemma_read_digits_prefix(all, i + 1 - from, max as nat);
            }
            return Err(IntError::PosOverflow);
        }
        value = 10 * value + d;
        i = i + 1;
    }
    proof {
        assert(all.take(i - from) == all);
    }
    Ok(value)
}

/// The first failure decides: what a prefix fails with, the whole fails with.
proof fn lemma_read_digits_prefix(s: Seq<char>, n: int, max: nat)
    requires
        0 <= n <= s.len(),
        read_digits(s.take(n), max) is Err,
    ensures
        read_digits(s, max) == read_digits(s.take(n), max),
    decreases s.len(),
{
    if n == s.len() {
        assert(s.take(n) == s);
    } else {
        assert(s.drop_last().take(n) == s.take(n));
        lemma_read_digits_prefix(s.drop_last(), n, max);
    }
}

/// `value` as a number from 0 to `max`.
pub fn parse_unsigned(value: &str, max: u64) -> (number: Result<u64, IntError>)
    ensures
        match number {
            Ok(n) => read_unsigned(value@, max as nat) == Ok::<nat, IntError>(n as nat),
            Err(e) => read_unsigned(value@, max as nat) == Err::<nat, IntError>(e),
        },
{
    let chars = chars_of(value);
    if chars.len() == 0 {
        return Err(IntError::Empty);
    }
    proof {
        assert(value@.skip(0) == value@);
        assert(value@.skip(1) == value@.drop_first());
    }
    if chars[0] == '+' {
        if chars.len() == 1 {
            return Err(IntError::InvalidDigit);
        }
        parse_digits(&chars, 1, max)
    } else {
        parse_digits(&chars, 0, max)
    }
}

/// `value` as a port number.
pub fn parse_u16(value: &str) -> (number: Result<u16, IntError>)
    ensures
        match number {
            Ok(n) => read_unsigned(value@, u16::MAX as nat) == Ok::<nat, IntError>(n as nat),
            Err(e) => read_unsigned(value@, u16::MAX as nat) == Err::<nat, IntError>(e),
        },
{
    match parse_unsigned(value, u16::MAX as u64) {
        Ok(n) => {
            proof {
                lemma_read_digits_bound(value@, u16::MAX as nat);
                lemma_read_digits_bound(value@.drop_first(), u16::MAX as nat);
            }
            Ok(n as u16)
        },
        Err(e) => Err(e),
    }
}

/// A number that is read is in range.
proof fn lemma_read_digits_bound(s: Seq<char>, max: nat)
    ensures
        read_digits(s, max) matches Ok(n) ==> n <= max,
{
}

/// `value` as a signed number.
pub fn parse_i64(value: &str) -> (number: Result<i64, IntError>)
    ensures
        match number {
            Ok(n) => read_signed(value@, i64::MAX as nat) == Ok::<int, IntError>(n as int),
            Err(e) => read_signed(value@, i64::MAX as nat) == Err::<int, IntError>(e),
        },
{
    let chars = chars_of(value);
    if chars.len() > 0 && chars[0] == '-' {
        if chars.len() == 1 {
            return Err(IntError::InvalidDigit);
        }
        proof {
            assert(value@.skip(1) == value@.drop_first());
            lemma_read_digits_bound(value@.drop_first(), i64::MAX as nat + 1);
        }
        match parse_digits(&chars, 1, 9223372036854775808) {
            Ok(n) => if n == 9223372036854775808 {
                Ok(i64::MIN)
            } else {
                Ok(-(n as i64))
            },
            Err(IntError::PosOverflow) => Err(IntError::NegOverflow),
            Err(e) => Err(e),
        }
    } else {
        proof {
            lemma_read_digits_bound(value@, i64::MAX as nat);
            lemma_read_digits_bound(value@.drop_first(), i64::MAX as nat);
        }
        match parse_unsigned(value, i64::MAX as u64) {
            Ok(n) => Ok(n as i64),
            Err(e) => Err(e),
        }
    }
}

/// Zero is written as one digit, and no other number begins with a zero.
pub proof fn decimal_has_no_leading_zero(n: nat)
    ensures
        decimal(0) == seq!['0'],
        n > 0 ==> decimal(n)[0] != '0',
    decreases n,
{
    assert(decimal(0) =~= seq!['0']);
    if n >= 10 {
        decimal_has_no_leading_zero(n / 10);
        lemma_decimal(n / 10);
    }
}

/// Two numbers that are written the same are the same.
pub proof fn decimal_tells_numbers_apart(a: nat, b: nat)
    requires
        decimal(a) == decimal(b),
    ensures
        a == b,
{
    lemma_decimal(a);
    lemma_decimal(b);
}

/// Digits that stand for a number that is too large are refused as such.
proof fn lemma_read_digits_overflow(s: Seq<char>, max: nat)
    requires
        all_digits(s),
        digits_value(s) > max,
    ensures
        read_digits(s, max) == Err::<nat, IntError>(IntError::PosOverflow),
    decreases s.len(),
{
    if s.len() > 0 {
        let before = s.drop_last();
        if digits_value(before) > max {
            lemma_read_digits_overflow(before, max);
        } else {
            lemma_read_digits_value(before, max);
        }
    }
}

/// What reads as a number is made of digits, and is their value.
proof fn lemma_read_digits_sound(s: Seq<char>, max: nat)
    ensures
        read_digits(s, max) matches Ok(n) ==> all_digits(s) && n == digits_value(s) && n <= max,
    decreases s.len(),
{
    if s.len() > 0 {
        lemma_read_digits_sound(s.drop_last(), max);
        if read_digits(s, max) is Ok {
            assert forall|i: int| 0 <= i < s.len() implies is_digit(#[trigger] s[i]) by {
                if i < s.len() - 1 {
                    assert(is_digit(s.drop_last()[i]));
                }
            }
        }
    }
}

/// Digits read as their value, with a plus sign before them or not, and with a minus sign as its
/// negative; what is out of range is refused on the side on which it is.
pub proof fn digits_are_read(s: Seq<char>, max: nat)
    requires
        s.len() > 0,
        forall|i: int| 0 <= i < s.len() ==> '0' <= #[trigger] s[i] <= '9',
    ensures
        read_unsigned(s, max) == (if digits_value(s) <= max {
            Ok::<nat, IntError>(digits_value(s))
        } else {
            Err(IntError::PosOverflow)
        }),
        read_unsigned(seq!['+'] + s, max) == read_unsigned(s, max),
        read_signed(s, max) == (if digits_value(s) <= max {
            Ok::<int, IntError>(digits_value(s) as int)
        } else {
            Err(IntError::PosOverflow)
        }),
        read_signed(seq!['+'] + s, max) == read_signed(s, max),
        read_signed(seq!['-'] + s, max) == (if digits_value(s) <= max + 1 {
            Ok::<int, IntError>(-(digits_value(s) as int))
        } else {
            Err(IntError::NegOverflow)
        }),
{
    assert(all_digits(s));
    assert((seq!['+'] + s).drop_first() =~= s);
    assert((seq!['-'] + s).drop_first() =~= s);
    if digits_value(s) <= max {
        lemma_read_digits_value(s, max);
    } else {
        lemma_read_digits_overflow(s, max);
    }
    if digits_value(s) <= max + 1 {
        lemma_read_digits_value(s, max + 1);
    } else {
        lemma_read_digits_overflow(s, max + 1);
    }
}

/// A digit more multiplies by ten, and leading zeros do not count.
pub proof fn digits_have_places(s: Seq<char>, c: char)
    ensures
        digits_value(Seq::empty()) == 0,
        '0' <= c <= '9' ==> digits_value(s.push(c)) == 10 * digits_value(s) + (c as u32 - 48),
        digits_value(seq!['0'] + s) == digits_value(s),
    decreases s.len(),
{
    assert(s.push(c).drop_last() =~= s);
    if s.len() == 0 {
        assert(seq!['0'] + s =~= seq!['0']);
        assert(seq!['0'].drop_last() =~= Seq::<char>::empty());
        assert(digits_value(seq!['0']) == 10 * digits_value(seq!['0'].drop_last()) + 0);
        assert(s =~= Seq::<char>::empty());
    } else {
        digits_have_places(s.drop_last(), c);
        assert((seq!['0'] + s).drop_last() =~= seq!['0'] + s.drop_last());
    }
}

/// Nothing else is a number: there has to be a digit, and nothing but digits behind the sign.
pub proof fn only_digits_are_read(s: Seq<char>, max: nat)
    ensures
        read_unsigned(Seq::empty(), max) == Err::<nat, IntError>(IntError::Empty),
        read_signed(Seq::empty(), max) == Err::<int, IntError>(IntError::Empty),
        read_unsigned(seq!['+'], max) == Err::<nat, IntError>(IntError::InvalidDigit),
        read_signed(seq!['+'], max) == Err::<int, IntError>(IntError::InvalidDigit),
        read_signed(seq!['-'], max) == Err::<int, IntError>(IntError::InvalidDigit),
        read_unsigned(s, max) matches Ok(n) ==> n <= max && s.len() > 0 && forall|i: int|
            0 <= i < s.len() ==> '0' <= #[trigger] s[i] <= '9' || (i == 0 && s[i] == '+' && s.len()
                > 1),
        read_signed(s, max) matches Ok(n) ==> -max - 1 <= n <= max && s.len() > 0 && forall|i: int|
            0 <= i < s.len() ==> '0' <= #[trigger] s[i] <= '9' || (i == 0 && (s[i] == '+' || s[i]
                == '-') && s.len() > 1),
{
    lemma_read_digits_sound(s, max);
    if s.len() > 0 {
        let rest = s.drop_first();
        lemma_read_digits_sound(rest, max);
        lemma_read_digits_sound(rest, max + 1);
        assert forall|i: int| 1 <= i < s.len() implies rest[i - 1] == #[trigger] s[i] by {}
        assert(all_digits(rest) ==> forall|i: int|
            1 <= i < s.len() ==> is_digit(rest[i - 1]) && '0' <= #[trigger] s[i] <= '9');
    }
}

/// What is wrong with a number is told as the standard library tells it.
pub proof fn refusals_say_why()
    ensures
        IntError::Empty.text() == "cannot parse integer from empty string"@,
        IntError::InvalidDigit.text() == "invalid digit found in string"@,
        IntError::PosOverflow.text() == "number too large to fit in target type"@,
        IntError::NegOverflow.text() == "number too small to fit in target type"@,
{
}

} // verus!
