//! Reading a list of unrelated addresses.
//!
//! The addresses are deliberately not contiguous, so a block read does not apply and the choice is
//! between reading word by word and reading them as a batch.
use vstd::prelude::*;
use vstd::string::*;

verus! {

/// How far apart two neighbouring addresses are.
pub const STRIDE: u64 = 64;

/// Why a base address could not be read.
#[derive(Debug, Clone, Copy, PartialEq, Eq, Structural)]
pub enum BaseError {
    /// There is nothing to read.
    Empty,
    /// There is something that is not a hexadecimal digit.
    InvalidDigit,
    /// The number does not fit into an address.
    PosOverflow,
}

/// `text` without the `0x` it begins with, however often it does.
pub open spec fn without_prefix(text: Seq<char>) -> Seq<char>
    decreases text.len(),
{
    if text.len() >= 2 && text[0] == '0' && text[1] == 'x' {
        without_prefix(text.skip(2))
    } else {
        text
    }
}

/// The value of a hexadecimal digit of either case.
pub open spec fn digit_value(digit: char) -> Option<int> {
    if '0' <= digit <= '9' {
        Some(digit as int - '0' as int)
    } else if 'a' <= digit <= 'f' {
        Some(digit as int - 'a' as int + 10)
    } else if 'A' <= digit <= 'F' {
        Some(digit as int - 'A' as int + 10)
    } else {
        None
    }
}

/// The number that `digits` spell, or what is wrong with the first digit that cannot be taken.
pub open spec fn digits_value(digits: Seq<char>) -> Result<int, BaseError>
    decreases digits.len(),
{
    if digits.len() == 0 {
        Ok(0)
    } else {
        match digits_value(digits.drop_last()) {
            Err(error) => Err(error),
            Ok(value) => match digit_value(digits.last()) {
                None => Err(BaseError::InvalidDigit),
                Some(digit) => if value * 16 + digit > u64::MAX {
                    Err(BaseError::PosOverflow)
                } else {
                    Ok(value * 16 + digit)
                },
            },
        }
    }
}

/// What a base address is read as: hexadecimal digits, of which there has to be one, behind any
/// number of `0x` and at most one `+`.
pub open spec fn base_value(text: Seq<char>) -> Result<int, BaseError> {
    let number = without_prefix(text);
    if number.len() == 0 {
        Err(BaseError::Empty)
    } else if number[0] != '+' {
        digits_value(number)
    } else if number.len() == 1 {
        Err(BaseError::InvalidDigit)
    } else {
        digits_value(number.skip(1))
    }
}

/// The value of a hexadecimal digit of either case.
fn to_digit(digit: char) -> (value: Option<u64>)
    ensures
        match value {
            Some(value) => digit_value(digit) == Some(value as int) && value < 16,
            None => digit_value(digit) is None,
        },
{
    if '0' <= digit && digit <= '9' {
        Some(digit as u64 - 48)
    } else if 'a' <= digit && digit <= 'f' {
        Some(digit as u64 - 87)
    } else if 'A' <= digit && digit <= 'F' {
        Some(digit as u64 - 55)
    } else {
        None
    }
}

/// Reads the hexadecimal digits of `text` from `start` on.
fn parse_digits(text: &str, start: usize) -> (number: Result<u64, BaseError>)
    requires
        start <= text@.len(),
    ensures
        match number {
            Ok(number) => digits_value(text@.skip(start as int)) == Ok::<_, BaseError>(
                number as int,
            ),
            Err(error) => digits_value(text@.skip(start as int)) == Err::<int, _>(error),
        },
{
    let length: usize = text.unicode_len();
    let ghost digits = text@.skip(start as int);
    let mut at: usize = start;
    let mut value: u64 = 0;
    while at < length
        invariant
            start <= at <= length,
            length == text@.len(),
            digits == text@.skip(start as int),
            digits_value(digits.take(at - start)) == Ok::<_, BaseError>(value as int),
        decreases length - at,
    {
        let ghost taken = digits.take(at + 1 - start);
        proof {
            assert(taken.drop_last() == digits.take(at - start));
            assert(taken.last() == text@[at as int]);
        }
        match to_digit(text.get_char(at)) {
            None => {
                proof {
                    lemma_first_error(digits, at + 1 - start);
                }
                return Err(BaseError::InvalidDigit);
            },
            Some(digit) => {
                if value > (u64::MAX - digit) / 16 {
                    proof {
                        lemma_first_error(digits, at + 1 - start);
                    }
                    return Err(BaseError::PosOverflow);
                }
                value = value * 16 + digit;
            },
        }
        at = at + 1;
    }
    proof {
        assert(digits.take(at - start) == digits);
    }
    Ok(value)
}

/// Reads a base address.
pub fn parse_base(text: &str) -> (base: Result<u64, BaseError>)
    ensures
        match base {
            Ok(base) => base_value(text@) == Ok::<_, BaseError>(base as int),
            Err(error) => base_value(text@) == Err::<int, _>(error),
        },
{
    let length: usize = text.unicode_len();
    let mut at: usize = 0;
    proof {
        assert(text@.skip(0) == text@);
    }
    while length - at >= 2 && text.get_char(at) == '0' && text.get_char(at + 1) == 'x'
        invariant
            at <= length,
            length == text@.len(),
            without_prefix(text@) == without_prefix(text@.skip(at as int)),
        decreases length - at,
    {
        proof {
            assert(text@.skip(at as int).skip(2) == text@.skip(at + 2));
        }
        at = at + 2;
    }
    let ghost number = text@.skip(at as int);
    assert(without_prefix(text@) == number);
    if at == length {
        return Err(BaseError::Empty);
    }
    if text.get_char(at) != '+' {
        return parse_digits(text, at);
    }
    if at + 1 == length {
        return Err(BaseError::InvalidDigit);
    }
    proof {
        assert(number.skip(1) == text@.skip(at + 1));
    }
    parse_digits(text, at + 1)
}

/// What is wrong with the beginning of some digits is what is wrong with them.
pub proof fn lemma_first_error(digits: Seq<char>, end: int)
    requires
        0 <= end <= digits.len(),
        digits_value(digits.take(end)) is Err,
    ensures
        digits_value(digits) == digits_value(digits.take(end)),
    decreases digits.len() - end,
{
    if end < digits.len() {
        let more = digits.take(end + 1);
        assert(more.drop_last() == digits.take(end));
        lemma_first_error(digits, end + 1);
    } else {
        assert(digits.take(end) == digits);
    }
}

/// The addresses to read: `count` of them from `base` on, spread across the region so that no two
/// land in one auto-increment window.
pub open spec fn spread(base: u64, count: nat) -> Seq<u64> {
    Seq::new(count, |i: int| (base + i * STRIDE) as u64)
}

/// Lists the addresses to read.
pub fn scattered_addresses(base: u64, count: usize) -> (addresses: Vec<u64>)
    requires
        count > 0 ==> base + (count - 1) * STRIDE <= u64::MAX,
    ensures
        addresses@ == spread(base, count as nat),
{
    let mut addresses: Vec<u64> = Vec::new();
    let mut i: usize = 0;
    while i < count
        invariant
            i <= count,
            count > 0 ==> base + (count - 1) * STRIDE <= u64::MAX,
            addresses@ == spread(base, i as nat),
        decreases count - i,
    {
        addresses.push(base + (i as u64) * STRIDE);
        i = i + 1;
    }
    addresses
}

/// Tells whether the words read one at a time are those read as a batch.
pub fn values_match(one_at_a_time: &Vec<u32>, batched: &Vec<u32>) -> (matching: bool)
    ensures
        matching == (one_at_a_time@ == batched@),
{
    if one_at_a_time.len() != batched.len() {
        return false;
    }
    let mut i: usize = 0;
    while i < batched.len()
        invariant
            i <= batched@.len(),
            one_at_a_time@.len() == batched@.len(),
            forall|j: int| 0 <= j < i ==> one_at_a_time@[j] == batched@[j],
        decreases batched@.len() - i,
    {
        if one_at_a_time[i] != batched[i] {
            return false;
        }
        i = i + 1;
    }
    proof {
        assert(one_at_a_time@ == batched@);
    }
    true
}

/// Any two of the addresses are at least a stride apart.
pub proof fn law_addresses_are_spread(base: u64, count: nat, i: int, j: int)
    requires
        base + (count - 1) * STRIDE <= u64::MAX,
        0 <= i < j < count,
    ensures
        spread(base, count)[i] + STRIDE <= spread(base, count)[j],
{
}

/// A `0x` in front of a base address makes no difference.
pub proof fn law_base_prefix_is_optional(text: Seq<char>)
    ensures
        base_value(seq!['0', 'x'] + text) == base_value(text),
{
    assert((seq!['0', 'x'] + text).skip(2) == text);
}

} // verus!
