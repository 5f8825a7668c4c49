//! How base addresses are read, and which addresses are listed.
use vstd::prelude::*;

use crate::scattered_read;
use crate::scattered_read::BaseError;

verus! {

/// The sixteen hexadecimal digits, each at the place of its value, in lower case.
pub open spec fn lower() -> Seq<char> {
    seq!['0', '1', '2', '3', '4', '5', '6', '7', '8', '9', 'a', 'b', 'c', 'd', 'e', 'f']
}

/// The sixteen hexadecimal digits, each at the place of its value, in upper case.
pub open spec fn upper() -> Seq<char> {
    seq!['0', '1', '2', '3', '4', '5', '6', '7', '8', '9', 'A', 'B', 'C', 'D', 'E', 'F']
}

/// Whether `text` writes the digits with these values, in any mixture of the cases.
pub open spec fn spells(text: Seq<char>, values: Seq<int>) -> bool {
    &&& text.len() == values.len()
    &&& forall|i: int|
        #![trigger text[i]]
        #![trigger values[i]]
        0 <= i < text.len() ==> 0 <= values[i] < 16 && (text[i] == lower()[values[i]] || text[i]
            == upper()[values[i]])
}

/// The number whose digits to the base 16 are `values`, the most significant first.
pub open spec fn weigh(values: Seq<int>) -> int
    decreases values.len(),
{
    if values.len() == 0 {
        0
    } else {
        weigh(values.drop_last()) * 16 + values.last()
    }
}

/// `number` written in the digits of `alphabet`, by division and remainder.
pub open spec fn written(number: int, alphabet: Seq<char>) -> Seq<char>
    decreases number,
{
    if number < 16 {
        seq![alphabet[number]]
    } else {
        written(number / 16, alphabet).push(alphabet[number % 16])
    }
}

/// The values of the digits of `number`.
spec fn digits_of(number: int) -> Seq<int>
    decreases number,
{
    if number < 16 {
        seq![number]
    } else {
        digits_of(number / 16).push(number % 16)
    }
}

/// Each digit, of either case, has its place among the digits as its value.
pub proof fn law_digits_have_their_place_as_value(value: int)
    requires
        0 <= value < 16,
    ensures
        scattered_read::digit_value(lower()[value]) == Some(value),
        scattered_read::digit_value(upper()[value]) == Some(value),
{
}

/// A character that is none of the digits has no value.
pub proof fn law_other_characters_have_no_value(character: char)
    requires
        !lower().contains(character),
        !upper().contains(character),
    ensures
        scattered_read::digit_value(character) is None,
{
    match scattered_read::digit_value(character) {
        Some(value) => {
            assert(0 <= value < 16);
            assert(lower()[value] == character || upper()[value] == character);
        },
        None => {},
    }
}

/// Digits are read as the number they spell, if it fits into 64 bits.
pub proof fn law_digits_are_read_as_spelled(text: Seq<char>, values: Seq<int>)
    requires
        spells(text, values),
    ensures
        weigh(values) >= 0,
        scattered_read::digits_value(text) == if weigh(values) <= 0xFFFF_FFFF_FFFF_FFFF {
            Ok::<int, BaseError>(weigh(values))
        } else {
            Err(BaseError::PosOverflow)
        },
    decreases text.len(),
{
    if text.len() > 0 {
        let rest = text.drop_last();
        let rest_values = values.drop_last();
        assert(spells(rest, rest_values)) by {
            assert forall|i: int|
                #![trigger rest[i]]
                #![trigger rest_values[i]]
                0 <= i < rest.len() implies 0 <= rest_values[i] < 16 && (rest[i]
                == lower()[rest_values[i]] || rest[i] == upper()[rest_values[i]]) by {
                assert(rest[i] == text[i] && rest_values[i] == values[i]);
            }
        }
        law_digits_are_read_as_spelled(rest, rest_values);
        assert(text.last() == text[text.len() - 1]);
        law_digits_have_their_place_as_value(values.last());
    }
}

/// Text that is not empty and spells a number is read as that number, if it fits into 64 bits, and
/// so is the same text behind a `+`, behind a `0x`, or behind both.
pub proof fn law_base_is_read_as_spelled(text: Seq<char>, values: Seq<int>)
    requires
        spells(text, values),
        text.len() > 0,
    ensures
        ({
            let read = if weigh(values) <= 0xFFFF_FFFF_FFFF_FFFF {
                Ok::<int, BaseError>(weigh(values))
            } else {
                Err(BaseError::PosOverflow)
            };
            &&& scattered_read::base_value(text) == read
            &&& scattered_read::base_value(seq!['+'] + text) == read
            &&& scattered_read::base_value(seq!['0', 'x'] + text) == read
            &&& scattered_read::base_value(seq!['0', 'x'] + (seq!['+'] + text)) == read
        }),
{
    law_digits_are_read_as_spelled(text, values);
    assert(text[0] != '+');
    assert(text.len() >= 2 ==> text[1] != 'x');
    law_sign_is_optional(text);
    scattered_read::law_base_prefix_is_optional(text);
    scattered_read::law_base_prefix_is_optional(seq!['+'] + text);
}

/// Behind a `+`, everything has to be digits: no prefix and no other sign is taken off there.
pub proof fn law_sign_is_optional(text: Seq<char>)
    requires
        text.len() > 0,
    ensures
        scattered_read::base_value(seq!['+'] + text) == scattered_read::digits_value(text),
{
    assert((seq!['+'] + text).skip(1) == text);
}

/// Every 64-bit number that is written in hexadecimal, in either case, with or without a `0x`, is
/// read back.
pub proof fn law_base_round_trip(number: u64)
    ensures
        scattered_read::base_value(written(number as int, lower())) == Ok::<int, BaseError>(
            number as int,
        ),
        scattered_read::base_value(written(number as int, upper())) == Ok::<int, BaseError>(
            number as int,
        ),
        scattered_read::base_value(seq!['0', 'x'] + written(number as int, lower())) == Ok::<
            int,
            BaseError,
        >(number as int),
        scattered_read::base_value(seq!['0', 'x'] + written(number as int, upper())) == Ok::<
            int,
            BaseError,
        >(number as int),
{
    lemma_written(number as int);
    law_base_is_read_as_spelled(written(number as int, lower()), digits_of(number as int));
    law_base_is_read_as_spelled(written(number as int, upper()), digits_of(number as int));
}

/// What is written spells its number.
proof fn lemma_written(number: int)
    requires
        number >= 0,
    ensures
        written(number, lower()).len() > 0,
        spells(written(number, lower()), digits_of(number)),
        spells(written(number, upper()), digits_of(number)),
        weigh(digits_of(number)) == number,
    decreases number,
{
    let values = digits_of(number);
    if number < 16 {
        assert(values.drop_last() == Seq::<int>::empty());
        assert(weigh(values.drop_last()) == 0);
    } else {
        lemma_written(number / 16);
        assert(values.drop_last() == digits_of(number / 16));
    }
}

/// Among digits, the first character that is none makes them unreadable, unless those before it are
/// too large already: then that is what is wrong. What follows makes no difference.
pub proof fn law_first_bad_digit_decides(
    text: Seq<char>,
    values: Seq<int>,
    bad: char,
    rest: Seq<char>,
)
    requires
        spells(text, values),
        !lower().contains(bad),
        !upper().contains(bad),
    ensures
        scattered_read::digits_value(text.push(bad) + rest) == Err::<int, _>(
            if weigh(values) <= 0xFFFF_FFFF_FFFF_FFFF {
                BaseError::InvalidDigit
            } else {
                BaseError::PosOverflow
            },
        ),
{
    let whole = text.push(bad) + rest;
    let end = text.len() as int + 1;
    law_digits_are_read_as_spelled(text, values);
    law_other_characters_have_no_value(bad);
    assert(text.push(bad).drop_last() == text);
    assert(whole.take(end) == text.push(bad));
    scattered_read::lemma_first_error(whole, end);
}

/// A base address is unreadable for the same reason as its digits, where it does not begin with a
/// `0x` or a `+`; with a `+` in front, it is so in any case.
pub proof fn law_first_bad_character_decides(
    text: Seq<char>,
    values: Seq<int>,
    bad: char,
    rest: Seq<char>,
)
    requires
        spells(text, values),
        !lower().contains(bad),
        !upper().contains(bad),
    ensures
        ({
            let error = Err::<int, _>(
                if weigh(values) <= 0xFFFF_FFFF_FFFF_FFFF {
                    BaseError::InvalidDigit
                } else {
                    BaseError::PosOverflow
                },
            );
            let whole = text.push(bad) + rest;
            &&& !(bad == 'x' && text == seq!['0']) && !(bad == '+' && text.len() == 0)
                ==> scattered_read::base_value(whole) == error
            &&& scattered_read::base_value(seq!['+'] + whole) == error
        }),
{
    let whole = text.push(bad) + rest;
    law_first_bad_digit_decides(text, values, bad, rest);
    law_sign_is_optional(whole);
    if text.len() > 0 {
        assert(whole[0] == text[0]);
        assert(whole[0] != '+');
        if text.len() == 1 {
            assert(whole[1] == bad);
            if text[0] == '0' {
                assert(text == seq!['0']);
            }
        } else {
            assert(whole[1] == text[1]);
        }
    } else {
        assert(whole[0] == bad);
        assert(lower()[0] == '0');
    }
}

/// Nothing, or nothing but a `0x`, is empty; nothing but a `+` is no number.
pub proof fn law_nothing_is_no_base()
    ensures
        scattered_read::base_value(seq![]) == Err::<int, _>(BaseError::Empty),
        scattered_read::base_value(seq!['0', 'x']) == Err::<int, _>(BaseError::Empty),
        scattered_read::base_value(seq!['+']) == Err::<int, _>(BaseError::InvalidDigit),
{
    scattered_read::law_base_prefix_is_optional(seq![]);
    assert(seq!['0', 'x'] + Seq::<char>::empty() == seq!['0', 'x']);
}

/// The addresses are `count` in number, begin with the base, and go up in steps of 64.
pub proof fn law_addresses_go_up_by_64(base: u64, count: nat, at: int)
    requires
        base + (count - 1) * 64 <= 0xFFFF_FFFF_FFFF_FFFF,
        0 <= at < count,
    ensures
        scattered_read::spread(base, count).len() == count,
        scattered_read::spread(base, count)[0] == base,
        at + 1 < count ==> scattered_read::spread(base, count)[at + 1] == scattered_read::spread(
            base,
            count,
        )[at] + 64,
{
}

/// What is returned for a text that spells a number is that number, with or without a sign.
pub proof fn law_parse_base_returns_what_is_spelled(
    text: &str,
    values: Seq<int>,
    base: Result<u64, BaseError>,
)
    requires
        call_ensures(scattered_read::parse_base, (text,), base),
        values.len() > 0,
        spells(text@, values) || text@.len() > 0 && text@[0] == '+' && spells(text@.skip(1), values)
            || text@.len() > 1 && text@.take(2) == seq!['0', 'x'] && spells(text@.skip(2), values),
    ensures
        weigh(values) <= 0xFFFF_FFFF_FFFF_FFFF ==> base is Ok && base->Ok_0 == weigh(values),
        weigh(values) > 0xFFFF_FFFF_FFFF_FFFF ==> base == Err::<u64, _>(BaseError::PosOverflow),
{
    if spells(text@, values) {
        law_base_is_read_as_spelled(text@, values);
    } else if text@[0] == '+' {
        law_base_is_read_as_spelled(text@.skip(1), values);
        assert(text@ == seq!['+'] + text@.skip(1));
    } else {
        law_base_is_read_as_spelled(text@.skip(2), values);
        assert(text@ == text@.take(2) + text@.skip(2));
    }
}

/// What is returned for any text is what the laws above say that it is read as.
pub proof fn law_parse_base_returns_what_is_read(text: &str, base: Result<u64, BaseError>)
    requires
        call_ensures(scattered_read::parse_base, (text,), base),
    ensures
        base is Ok <==> scattered_read::base_value(text@) is Ok,
        base matches Ok(number) ==> scattered_read::base_value(text@)->Ok_0 == number,
        base matches Err(error) ==> scattered_read::base_value(text@)->Err_0 == error,
{
}

/// Two lists of words match exactly when they are equally long and agree at every place.
pub proof fn law_matching_values(one_at_a_time: Vec<u32>, batched: Vec<u32>, matching: bool)
    requires
        call_ensures(scattered_read::values_match, (&one_at_a_time, &batched), matching),
    ensures
        matching <==> one_at_a_time@.len() == batched@.len() && forall|i: int|
            0 <= i < batched@.len() ==> #[trigger] one_at_a_time@[i] == batched@[i],
{
    if one_at_a_time@.len() == batched@.len() && (forall|i: int|
        0 <= i < batched@.len() ==> #[trigger] one_at_a_time@[i] == batched@[i]) {
        assert(one_at_a_time@ == batched@);
    }
}

/// What is listed is `count` addresses from the base on, each 64 above the one before.
pub proof fn law_listed_addresses(base: u64, count: usize, addresses: Vec<u64>, at: int)
    requires
        call_ensures(scattered_read::scattered_addresses, (base, count), addresses),
        count > 0 ==> base + (count - 1) * 64 <= 0xFFFF_FFFF_FFFF_FFFF,
    ensures
        addresses@.len() == count,
        0 <= at < count ==> addresses@[at] == base + 64 * at,
{
}

} // verus!
